use spotifly::error::PlayerError;
use spotifly::item::QueueItem;
use spotifly::queue::Queue;

fn item(name: &str) -> QueueItem {
    QueueItem {
        uri: format!("spotify:track:{}", name),
        track_name: name.to_string(),
        artist_name: format!("artist of {}", name),
        album_art_url: String::new(),
        duration_ms: 180_000,
        album_id: None,
        artist_id: Some(format!("artist-{}", name)),
        external_url: None,
    }
}

fn names(queue: &Queue) -> Vec<String> {
    queue.items().into_iter().map(|i| i.track_name).collect()
}

fn queue_of(list: &[&str]) -> Queue {
    let mut queue = Queue::new();
    queue.replace(list.iter().map(|n| item(n)).collect());
    queue
}

#[test]
fn new_queue_is_empty_with_cursor_zero() {
    let queue = Queue::new();
    assert_eq!(queue.len(), 0);
    assert_eq!(queue.current_index(), 0);
    assert_eq!(queue.item_at(0), None);
    assert!(queue.items().is_empty());
}

#[test]
fn replace_resets_cursor_and_length() {
    let mut queue = queue_of(&["a", "b", "c", "d"]);
    assert!(queue.jump(3).is_ok());
    assert_eq!(queue.current_index(), 3);
    queue.replace(vec![item("x"), item("y")]);
    assert_eq!(queue.current_index(), 0);
    assert_eq!(queue.len(), 2);
    assert_eq!(names(&queue), vec!["x", "y"]);
}

#[test]
fn replace_with_nothing_empties_the_queue() {
    let mut queue = queue_of(&["a", "b"]);
    assert!(queue.advance().is_ok());
    queue.replace(Vec::new());
    assert_eq!(queue.len(), 0);
    assert_eq!(queue.current_index(), 0);
}

#[test]
fn append_puts_the_item_last_and_keeps_the_cursor() {
    let mut queue = queue_of(&["a", "b"]);
    assert!(queue.advance().is_ok());
    queue.append(item("c"));
    assert_eq!(names(&queue), vec!["a", "b", "c"]);
    assert_eq!(queue.current_index(), 1);
}

#[test]
fn insert_next_into_empty_queue_lands_at_zero() {
    let mut queue = Queue::new();
    queue.insert_next(item("a"));
    assert_eq!(queue.len(), 1);
    assert_eq!(queue.current_index(), 0);
    assert_eq!(queue.item_at(0), Some(item("a")));
}

#[test]
fn insert_next_lands_behind_the_cursor() {
    let mut queue = queue_of(&["a", "b", "c"]);
    assert!(queue.advance().is_ok());
    queue.insert_next(item("n"));
    assert_eq!(names(&queue), vec!["a", "b", "n", "c"]);
    assert_eq!(queue.current_index(), 1);
    assert_eq!(queue.item_at(queue.current_index() + 1), Some(item("n")));
}

#[test]
fn insert_next_behind_the_last_item() {
    let mut queue = queue_of(&["a", "b"]);
    assert!(queue.jump(1).is_ok());
    queue.insert_next(item("n"));
    assert_eq!(names(&queue), vec!["a", "b", "n"]);
}

#[test]
fn remove_succeeds_only_on_upcoming_items() {
    let mut queue = queue_of(&["a", "b", "c", "d"]);
    assert!(queue.advance().is_ok());
    assert_eq!(queue.remove(0), Err(PlayerError::InvalidIndex));
    assert_eq!(queue.remove(1), Err(PlayerError::InvalidIndex));
    assert_eq!(queue.remove(4), Err(PlayerError::InvalidIndex));
    assert_eq!(queue.remove(usize::MAX), Err(PlayerError::InvalidIndex));
    assert_eq!(names(&queue), vec!["a", "b", "c", "d"]);
    assert_eq!(queue.current_index(), 1);
    assert_eq!(queue.remove(2), Ok(()));
    assert_eq!(names(&queue), vec!["a", "b", "d"]);
    assert_eq!(queue.current_index(), 1);
    assert_eq!(queue.remove(2), Ok(()));
    assert_eq!(names(&queue), vec!["a", "b"]);
}

#[test]
fn remove_from_empty_queue_fails() {
    let mut queue = Queue::new();
    assert_eq!(queue.remove(0), Err(PlayerError::InvalidIndex));
    assert_eq!(queue.len(), 0);
}

#[test]
fn move_relocates_one_item_forward() {
    let mut queue = queue_of(&["a", "b", "c", "d", "e"]);
    assert_eq!(queue.move_item(1, 3), Ok(()));
    assert_eq!(names(&queue), vec!["a", "c", "d", "b", "e"]);
    assert_eq!(queue.current_index(), 0);
}

#[test]
fn move_relocates_one_item_backward() {
    let mut queue = queue_of(&["a", "b", "c", "d", "e"]);
    assert_eq!(queue.move_item(4, 1), Ok(()));
    assert_eq!(names(&queue), vec!["a", "e", "b", "c", "d"]);
}

#[test]
fn move_to_the_same_place_changes_nothing() {
    let mut queue = queue_of(&["a", "b", "c"]);
    assert_eq!(queue.move_item(2, 2), Ok(()));
    assert_eq!(names(&queue), vec!["a", "b", "c"]);
}

#[test]
fn move_fails_unless_both_places_are_upcoming() {
    let mut queue = queue_of(&["a", "b", "c", "d"]);
    assert!(queue.advance().is_ok());
    assert_eq!(queue.move_item(1, 2), Err(PlayerError::InvalidIndex));
    assert_eq!(queue.move_item(2, 1), Err(PlayerError::InvalidIndex));
    assert_eq!(queue.move_item(0, 3), Err(PlayerError::InvalidIndex));
    assert_eq!(queue.move_item(2, 4), Err(PlayerError::InvalidIndex));
    assert_eq!(queue.move_item(4, 2), Err(PlayerError::InvalidIndex));
    assert_eq!(queue.move_item(1, 1), Err(PlayerError::InvalidIndex));
    assert_eq!(names(&queue), vec!["a", "b", "c", "d"]);
    assert_eq!(queue.current_index(), 1);
    assert_eq!(queue.move_item(3, 2), Ok(()));
    assert_eq!(names(&queue), vec!["a", "b", "d", "c"]);
}

#[test]
fn truncate_drops_what_is_behind_the_cursor() {
    let mut queue = queue_of(&["a", "b", "c", "d"]);
    assert!(queue.advance().is_ok());
    queue.truncate_upcoming();
    assert_eq!(names(&queue), vec!["a", "b"]);
    assert_eq!(queue.current_index(), 1);
    queue.truncate_upcoming();
    assert_eq!(names(&queue), vec!["a", "b"]);
}

#[test]
fn truncate_on_empty_queue_does_nothing() {
    let mut queue = Queue::new();
    queue.truncate_upcoming();
    assert_eq!(queue.len(), 0);
    assert_eq!(queue.current_index(), 0);
}

#[test]
fn jump_moves_the_cursor_and_hands_out_the_item() {
    let mut queue = queue_of(&["a", "b", "c"]);
    assert_eq!(queue.jump(2), Ok(item("c")));
    assert_eq!(queue.current_index(), 2);
    assert_eq!(queue.jump(0), Ok(item("a")));
    assert_eq!(queue.current_index(), 0);
    assert_eq!(queue.jump(0), Ok(item("a")));
    assert_eq!(queue.current_index(), 0);
}

#[test]
fn jump_out_of_range_fails_and_changes_nothing() {
    let mut queue = queue_of(&["a", "b", "c"]);
    assert!(queue.advance().is_ok());
    assert_eq!(queue.jump(3), Err(PlayerError::InvalidIndex));
    assert_eq!(queue.jump(usize::MAX), Err(PlayerError::InvalidIndex));
    assert_eq!(queue.current_index(), 1);
    assert_eq!(names(&queue), vec!["a", "b", "c"]);
    let mut empty = Queue::new();
    assert_eq!(empty.jump(0), Err(PlayerError::InvalidIndex));
}

#[test]
fn advance_and_retreat_stop_at_the_ends() {
    let mut queue = queue_of(&["a", "b"]);
    assert_eq!(queue.retreat(), Err(PlayerError::AtBoundary));
    assert_eq!(queue.current_index(), 0);
    assert_eq!(queue.advance(), Ok(()));
    assert_eq!(queue.current_index(), 1);
    assert_eq!(queue.advance(), Err(PlayerError::AtBoundary));
    assert_eq!(queue.current_index(), 1);
    assert_eq!(queue.retreat(), Ok(()));
    assert_eq!(queue.current_index(), 0);
}

#[test]
fn advance_and_retreat_fail_on_empty_queue() {
    let mut queue = Queue::new();
    assert_eq!(queue.advance(), Err(PlayerError::AtBoundary));
    assert_eq!(queue.retreat(), Err(PlayerError::AtBoundary));
    assert_eq!(queue.current_index(), 0);
}

#[test]
fn accessors_read_every_field() {
    let queue = queue_of(&["a", "b"]);
    assert_eq!(queue.uri_at(1), Some("spotify:track:b".to_string()));
    assert_eq!(queue.track_name_at(1), Some("b".to_string()));
    assert_eq!(queue.artist_name_at(1), Some("artist of b".to_string()));
    assert_eq!(queue.album_art_url_at(1), Some(String::new()));
    assert_eq!(queue.uri_at(2), None);
    assert_eq!(queue.track_name_at(2), None);
    assert_eq!(queue.artist_name_at(2), None);
    assert_eq!(queue.album_art_url_at(2), None);
    let found = queue.item_at(0).unwrap();
    assert_eq!(found.duration_ms, 180_000);
    assert_eq!(found.artist_id, Some("artist-a".to_string()));
    assert_eq!(found.album_id, None);
    assert_eq!(found.external_url, None);
    assert_eq!(found.clone(), item("a"));
}
