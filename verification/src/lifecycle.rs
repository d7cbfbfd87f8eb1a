//! The life of a session: opened once, used, and torn down.

use crate::settings::Settings;
use vstd::prelude::*;

verus! {

/// Where the session stands.
#[derive(Clone, Copy, Debug, PartialEq, Eq, Structural)]
pub enum LifecycleState {
    /// No session is open.
    Uninitialized,
    /// A session is being opened.
    Initializing,
    /// A session is open and its event stream is being read.
    Ready,
    /// The event stream of the session has ended; its handles are still held.
    Terminated,
}

/// Why a session could not be opened.
#[derive(Clone, Copy, Debug, PartialEq, Eq, Structural)]
pub enum InitFailure {
    /// The credential cache could not be set up.
    CacheUnavailable,
    /// The service did not accept the credentials.
    CredentialsRejected,
    /// The mixer could not be opened.
    MixerUnavailable,
    /// No audio backend is available.
    NoAudioBackend,
    /// The session was torn down, or another was opened, while this one was
    /// being opened.
    Superseded,
}

/// What the caller of `begin_initialize` has to do.
#[derive(Clone, Copy, Debug, PartialEq, Eq, Structural)]
pub enum InitStep {
    /// A session is open: there is nothing to do, and no second reader of
    /// the event stream may be started.
    AlreadyReady,
    /// Open a session and an engine with these settings, then report the
    /// outcome to `complete_initialize`.
    Connect(Settings),
}

/// What the lifecycle holds.
pub struct LifecycleModel {
    /// Where the session stands.
    pub state: LifecycleState,
    /// Whether remote control is attached to the session.
    pub remote_control: bool,
}

impl LifecycleModel {
    /// Remote control can only be attached to an open session.
    pub open spec fn wf(self) -> bool {
        self.remote_control ==> self.state is Ready
    }

    /// The lifecycle without a session.
    pub open spec fn initial() -> LifecycleModel {
        LifecycleModel { state: LifecycleState::Uninitialized, remote_control: false }
    }

    /// A session is open.
    pub open spec fn ready(self) -> bool {
        self.state is Ready
    }

    /// How many readers of the event stream there are. The lifecycle keeps no
    /// count of its own: the number is read off the state, one while a session
    /// is open and none otherwise, so by this definition it is never more than
    /// one. What the state machine adds is when the number changes.
    pub open spec fn readers(self) -> nat {
        if self.ready() {
            1
        } else {
            0
        }
    }

    /// The lifecycle after `begin_initialize`: an open session stays as it is,
    /// anything else starts to open one.
    pub open spec fn begun(self) -> LifecycleModel {
        if self.ready() {
            self
        } else {
            LifecycleModel { state: LifecycleState::Initializing, remote_control: false }
        }
    }

    /// The step that `begin_initialize` asks for.
    pub open spec fn first_step(self, settings: Settings) -> InitStep {
        if self.ready() {
            InitStep::AlreadyReady
        } else {
            InitStep::Connect(settings)
        }
    }

    /// The lifecycle after the outcome of opening a session has come in. Only
    /// a lifecycle that is opening a session takes it: success opens the
    /// session, with remote control if that could be attached, and failure
    /// leaves nothing behind.
    pub open spec fn completed(self, outcome: Result<bool, InitFailure>) -> LifecycleModel {
        if self.state is Initializing {
            match outcome {
                Ok(remote_control) => LifecycleModel {
                    state: LifecycleState::Ready,
                    remote_control,
                },
                Err(_) => LifecycleModel::initial(),
            }
        } else {
            self
        }
    }

    /// What `complete_initialize` answers: the cause of a failure, and
    /// `Superseded` where no session was being opened.
    pub open spec fn completion(self, outcome: Result<bool, InitFailure>) -> Result<
        (),
        InitFailure,
    > {
        if self.state is Initializing {
            match outcome {
                Ok(_) => Ok(()),
                Err(cause) => Err(cause),
            }
        } else {
            Err(InitFailure::Superseded)
        }
    }

    /// The lifecycle after the event stream has ended.
    pub open spec fn stream_ended(self) -> LifecycleModel {
        if self.ready() {
            LifecycleModel { state: LifecycleState::Terminated, remote_control: false }
        } else {
            self
        }
    }

    /// The lifecycle after a teardown.
    pub open spec fn torn_down(self) -> LifecycleModel {
        LifecycleModel::initial()
    }
}

/// Guards the one session that may be open at a time.
pub struct Lifecycle {
    state: LifecycleState,
    remote_control: bool,
}

impl View for Lifecycle {
    type V = LifecycleModel;

    closed spec fn view(&self) -> LifecycleModel {
        LifecycleModel { state: self.state, remote_control: self.remote_control }
    }
}

impl Lifecycle {
    /// The invariant of the lifecycle.
    pub open spec fn wf(&self) -> bool {
        self@.wf()
    }

    /// A lifecycle without a session.
    pub fn new() -> (lifecycle: Lifecycle)
        ensures
            lifecycle.wf(),
            lifecycle@ == LifecycleModel::initial(),
    {
        Lifecycle { state: LifecycleState::Uninitialized, remote_control: false }
    }

    /// Where the session stands.
    pub fn state(&self) -> (state: LifecycleState)
        ensures
            state == self@.state,
    {
        self.state
    }

    /// Whether a session is open.
    pub fn is_ready(&self) -> (ready: bool)
        ensures
            ready == self@.ready(),
    {
        match self.state {
            LifecycleState::Ready => true,
            _ => false,
        }
    }

    /// Whether remote control is attached to the session.
    pub fn has_remote_control(&self) -> (attached: bool)
        ensures
            attached == self@.remote_control,
    {
        self.remote_control
    }

    /// Starts to open a session, unless one is open.
    pub fn begin_initialize(&mut self, settings: Settings) -> (step: InitStep)
        requires
            old(self).wf(),
        ensures
            final(self).wf(),
            final(self)@ == old(self)@.begun(),
            step == old(self)@.first_step(settings),
    {
        if self.is_ready() {
            InitStep::AlreadyReady
        } else {
            self.state = LifecycleState::Initializing;
            self.remote_control = false;
            InitStep::Connect(settings)
        }
    }

    /// Takes the outcome of opening a session: `Ok` with whether remote
    /// control could be attached, or the cause of the failure.
    pub fn complete_initialize(&mut self, outcome: Result<bool, InitFailure>) -> (done: Result<
        (),
        InitFailure,
    >)
        requires
            old(self).wf(),
        ensures
            final(self).wf(),
            final(self)@ == old(self)@.completed(outcome),
            done == old(self)@.completion(outcome),
    {
        match self.state {
            LifecycleState::Initializing => match outcome {
                Ok(remote_control) => {
                    self.state = LifecycleState::Ready;
                    self.remote_control = remote_control;
                    Ok(())
                },
                Err(cause) => {
                    self.state = LifecycleState::Uninitialized;
                    self.remote_control = false;
                    Err(cause)
                },
            },
            _ => Err(InitFailure::Superseded),
        }
    }

    /// Takes note that the event stream has ended.
    pub fn end_stream(&mut self)
        requires
            old(self).wf(),
        ensures
            final(self).wf(),
            final(self)@ == old(self)@.stream_ended(),
    {
        if self.is_ready() {
            self.state = LifecycleState::Terminated;
            self.remote_control = false;
        }
    }

    /// Gives the session up. The answer says whether a reader of the event
    /// stream was running and has to be told to stop.
    pub fn teardown(&mut self) -> (stop_reader: bool)
        requires
            old(self).wf(),
        ensures
            final(self).wf(),
            final(self)@ == old(self)@.torn_down(),
            stop_reader == old(self)@.ready(),
    {
        let stop_reader = self.is_ready();
        self.state = LifecycleState::Uninitialized;
        self.remote_control = false;
        stop_reader
    }
}

} // verus!
