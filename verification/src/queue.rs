//! The ordered queue of items and its cursor.
//!
//! Items before the cursor have been played, the item at the cursor is the one
//! that was loaded last, and the items after it are upcoming. Only upcoming
//! items can be removed or moved.

use crate::error::PlayerError;
use crate::item::{copy_items, item_models, ItemModel, QueueItem};
use vstd::prelude::*;

verus! {

/// What a queue is: its items in order and the index of the current one.
pub struct QueueModel {
    pub items: Seq<ItemModel>,
    pub cursor: nat,
}

impl QueueModel {
    /// The cursor names an item, or is zero where there is none.
    pub open spec fn wf(self) -> bool {
        if self.items.len() == 0 {
            self.cursor == 0
        } else {
            self.cursor < self.items.len()
        }
    }

    /// The queue without items.
    pub open spec fn empty() -> QueueModel {
        QueueModel { items: Seq::empty(), cursor: 0 }
    }

    /// `index` names an upcoming item: one that queue editing may touch.
    pub open spec fn is_upcoming(self, index: int) -> bool {
        self.cursor < index < self.items.len()
    }

    /// How many items are played or current: they stay where they are.
    pub open spec fn settled(self) -> nat {
        if self.items.len() == 0 {
            0
        } else {
            self.cursor + 1
        }
    }

    /// The queue that holds `items` and nothing else.
    pub open spec fn replaced(self, items: Seq<ItemModel>) -> QueueModel {
        QueueModel { items, cursor: 0 }
    }

    /// The queue with `item` behind its last item.
    pub open spec fn appended(self, item: ItemModel) -> QueueModel {
        QueueModel { items: self.items.push(item), cursor: self.cursor }
    }

    /// The queue with `item` directly behind the current item.
    pub open spec fn inserted_next(self, item: ItemModel) -> QueueModel {
        QueueModel { items: self.items.insert(self.settled() as int, item), cursor: self.cursor }
    }

    /// The queue without the item at `index`.
    pub open spec fn removed(self, index: int) -> QueueModel {
        QueueModel { items: self.items.remove(index), cursor: self.cursor }
    }

    /// The queue in which the item at `from` has been taken out and put back
    /// at `to`; the items between the two places shift by one.
    pub open spec fn moved(self, from: int, to: int) -> QueueModel {
        QueueModel {
            items: self.items.remove(from).insert(to, self.items[from]),
            cursor: self.cursor,
        }
    }

    /// The queue without its upcoming items.
    pub open spec fn truncated(self) -> QueueModel {
        QueueModel { items: self.items.take(self.settled() as int), cursor: self.cursor }
    }

    /// The queue with its cursor at `index`.
    pub open spec fn at(self, index: int) -> QueueModel {
        QueueModel { items: self.items, cursor: index as nat }
    }

    /// The index behind the cursor.
    pub open spec fn next_index(self) -> int {
        self.cursor as int + 1
    }

    /// The index before the cursor.
    pub open spec fn previous_index(self) -> int {
        self.cursor - 1
    }

    /// The queue with its cursor one item on.
    pub open spec fn advanced(self) -> QueueModel {
        self.at(self.next_index())
    }

    /// The queue with its cursor one item back.
    pub open spec fn retreated(self) -> QueueModel {
        self.at(self.previous_index())
    }

    /// There is an item behind the current one.
    pub open spec fn has_next(self) -> bool {
        self.next_index() < self.items.len()
    }

    /// There is an item before the current one.
    pub open spec fn has_previous(self) -> bool {
        self.cursor > 0
    }
}

/// The queue of the player.
pub struct Queue {
    items: Vec<QueueItem>,
    current_index: usize,
}

impl View for Queue {
    type V = QueueModel;

    closed spec fn view(&self) -> QueueModel {
        QueueModel { items: item_models(self.items@), cursor: self.current_index as nat }
    }
}

impl Queue {
    /// The invariant of the queue: its cursor names an item, or is zero where
    /// the queue is empty.
    pub open spec fn wf(&self) -> bool {
        self@.wf()
    }

    /// An empty queue.
    pub fn new() -> (queue: Queue)
        ensures
            queue.wf(),
            queue@ == QueueModel::empty(),
    {
        let queue = Queue { items: Vec::new(), current_index: 0 };
        assert(queue@.items == Seq::<ItemModel>::empty());
        queue
    }

    /// Puts `items` in the place of all that the queue holds and moves the
    /// cursor to the first of them.
    pub fn replace(&mut self, items: Vec<QueueItem>)
        requires
            old(self).wf(),
        ensures
            final(self).wf(),
            final(self)@ == old(self)@.replaced(item_models(items@)),
    {
        self.items = items;
        self.current_index = 0;
    }

    /// Puts `item` behind the last item.
    pub fn append(&mut self, item: QueueItem)
        requires
            old(self).wf(),
        ensures
            final(self).wf(),
            final(self)@ == old(self)@.appended(item@),
    {
        self.items.push(item);
        assert(item_models(self.items@) == item_models(old(self).items@).push(item@));
    }

    /// Puts `item` directly behind the current item, or first into an empty
    /// queue.
    pub fn insert_next(&mut self, item: QueueItem)
        requires
            old(self).wf(),
        ensures
            final(self).wf(),
            final(self)@ == old(self)@.inserted_next(item@),
    {
        let at: usize = if self.items.len() == 0 {
            0
        } else {
            self.current_index + 1
        };
        self.items.insert(at, item);
        assert(item_models(self.items@) == item_models(old(self).items@).insert(at as int, item@));
    }

    /// Takes the upcoming item at `index` out of the queue.
    pub fn remove(&mut self, index: usize) -> (done: Result<(), PlayerError>)
        requires
            old(self).wf(),
        ensures
            final(self).wf(),
            old(self)@.is_upcoming(index as int) ==> done is Ok && final(self)@ == old(self)@.removed(
                index as int,
            ),
            !old(self)@.is_upcoming(index as int) ==> done == Err::<(), PlayerError>(
                PlayerError::InvalidIndex,
            ) && final(self)@ == old(self)@,
    {
        if !(self.current_index < index && index < self.items.len()) {
            return Err(PlayerError::InvalidIndex);
        }
        let _ = self.items.remove(index);
        assert(item_models(self.items@) == item_models(old(self).items@).remove(index as int));
        Ok(())
    }

    /// Takes the upcoming item at `from` out and puts it back at `to`, which
    /// must name an upcoming item too.
    pub fn move_item(&mut self, from: usize, to: usize) -> (done: Result<(), PlayerError>)
        requires
            old(self).wf(),
        ensures
            final(self).wf(),
            old(self)@.is_upcoming(from as int) && old(self)@.is_upcoming(to as int) ==> done is Ok
                && final(self)@ == old(self)@.moved(from as int, to as int),
            !(old(self)@.is_upcoming(from as int) && old(self)@.is_upcoming(to as int)) ==> done
                == Err::<(), PlayerError>(PlayerError::InvalidIndex) && final(self)@ == old(self)@,
    {
        let len: usize = self.items.len();
        if !(self.current_index < from && from < len && self.current_index < to && to < len) {
            return Err(PlayerError::InvalidIndex);
        }
        if from == to {
            assert(self@.items.remove(from as int).insert(to as int, self@.items[from as int])
                == self@.items);
            return Ok(());
        }
        let item = self.items.remove(from);
        self.items.insert(to, item);
        assert(item_models(self.items@) == item_models(old(self).items@).remove(from as int).insert(
            to as int,
            item@,
        ));
        Ok(())
    }

    /// Drops every upcoming item.
    pub fn truncate_upcoming(&mut self)
        requires
            old(self).wf(),
        ensures
            final(self).wf(),
            final(self)@ == old(self)@.truncated(),
    {
        if self.items.len() > 0 {
            self.items.truncate(self.current_index + 1);
        }
        assert(item_models(self.items@) == item_models(old(self).items@).take(
            old(self)@.settled() as int,
        ));
    }

    /// Moves the cursor to `index` and hands out the item there, for its
    /// caller to load.
    pub fn jump(&mut self, index: usize) -> (target: Result<QueueItem, PlayerError>)
        requires
            old(self).wf(),
        ensures
            final(self).wf(),
            index < old(self)@.items.len() ==> (target matches Ok(item) && item@ == old(
                self,
            )@.items[index as int]) && final(self)@ == old(self)@.at(index as int),
            index >= old(self)@.items.len() ==> target == Err::<QueueItem, PlayerError>(
                PlayerError::InvalidIndex,
            ) && final(self)@ == old(self)@,
    {
        if index >= self.items.len() {
            return Err(PlayerError::InvalidIndex);
        }
        self.current_index = index;
        Ok(self.items[index].clone())
    }

    /// Moves the cursor one item on.
    pub fn advance(&mut self) -> (done: Result<(), PlayerError>)
        requires
            old(self).wf(),
        ensures
            final(self).wf(),
            old(self)@.has_next() ==> done is Ok && final(self)@ == old(self)@.advanced(),
            !old(self)@.has_next() ==> done == Err::<(), PlayerError>(PlayerError::AtBoundary)
                && final(self)@ == old(self)@,
    {
        if self.items.len() == 0 || self.current_index >= self.items.len() - 1 {
            return Err(PlayerError::AtBoundary);
        }
        self.current_index = self.current_index + 1;
        Ok(())
    }

    /// Moves the cursor one item back.
    pub fn retreat(&mut self) -> (done: Result<(), PlayerError>)
        requires
            old(self).wf(),
        ensures
            final(self).wf(),
            old(self)@.has_previous() ==> done is Ok && final(self)@ == old(self)@.retreated(),
            !old(self)@.has_previous() ==> done == Err::<(), PlayerError>(PlayerError::AtBoundary)
                && final(self)@ == old(self)@,
    {
        if self.current_index == 0 {
            return Err(PlayerError::AtBoundary);
        }
        self.current_index = self.current_index - 1;
        Ok(())
    }

    /// The number of items.
    pub fn len(&self) -> (len: usize)
        ensures
            len == self@.items.len(),
    {
        self.items.len()
    }

    /// The index of the current item; zero in an empty queue.
    pub fn current_index(&self) -> (index: usize)
        ensures
            index == self@.cursor,
    {
        self.current_index
    }

    /// A copy of the item at `index`, if there is one.
    pub fn item_at(&self, index: usize) -> (found: Option<QueueItem>)
        ensures
            index < self@.items.len() ==> (found matches Some(item) && item@
                == self@.items[index as int]),
            index >= self@.items.len() ==> found is None,
    {
        if index < self.items.len() {
            Some(self.items[index].clone())
        } else {
            None
        }
    }

    /// The identifier of the item at `index`, if there is one.
    pub fn uri_at(&self, index: usize) -> (found: Option<String>)
        ensures
            index < self@.items.len() ==> (found matches Some(text) && text@
                == self@.items[index as int].uri),
            index >= self@.items.len() ==> found is None,
    {
        if index < self.items.len() {
            Some(self.items[index].uri.clone())
        } else {
            None
        }
    }

    /// The track name of the item at `index`, if there is one.
    pub fn track_name_at(&self, index: usize) -> (found: Option<String>)
        ensures
            index < self@.items.len() ==> (found matches Some(text) && text@
                == self@.items[index as int].track_name),
            index >= self@.items.len() ==> found is None,
    {
        if index < self.items.len() {
            Some(self.items[index].track_name.clone())
        } else {
            None
        }
    }

    /// The artist name of the item at `index`, if there is one.
    pub fn artist_name_at(&self, index: usize) -> (found: Option<String>)
        ensures
            index < self@.items.len() ==> (found matches Some(text) && text@
                == self@.items[index as int].artist_name),
            index >= self@.items.len() ==> found is None,
    {
        if index < self.items.len() {
            Some(self.items[index].artist_name.clone())
        } else {
            None
        }
    }

    /// The cover address of the item at `index`, if there is one.
    pub fn album_art_url_at(&self, index: usize) -> (found: Option<String>)
        ensures
            index < self@.items.len() ==> (found matches Some(text) && text@
                == self@.items[index as int].album_art_url),
            index >= self@.items.len() ==> found is None,
    {
        if index < self.items.len() {
            Some(self.items[index].album_art_url.clone())
        } else {
            None
        }
    }

    /// Copies of all items, in order.
    pub fn items(&self) -> (all: Vec<QueueItem>)
        ensures
            item_models(all@) == self@.items,
    {
        copy_items(&self.items)
    }
}

} // verus!
