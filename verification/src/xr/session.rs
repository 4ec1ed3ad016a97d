//! Session events: what the headset path does about each event that the
//! runtime reports.

use vstd::prelude::*;

verus! {

/// The lifecycle state of an XR session, as the runtime reports it.
#[derive(Clone, Copy, Debug, PartialEq, Eq, Structural)]
pub enum SessionState {
    Unknown,
    Idle,
    Ready,
    Synchronized,
    Visible,
    Focused,
    Stopping,
    LossPending,
    Exiting,
}

/// An event of the runtime, as far as the headset path tells events apart.
#[derive(Clone, Copy, Debug, PartialEq, Eq, Structural)]
pub enum Event {
    /// The session moved to another lifecycle state.
    SessionStateChanged { state: SessionState },
    /// The runtime is about to lose the instance.
    InstanceLossPending,
    /// Any other event.
    Other,
}

/// What polling does next.
#[derive(Clone, Copy, Debug, PartialEq, Eq, Structural)]
pub enum Poll {
    /// Begin the session for stereo views, then poll on.
    BeginSession,
    /// End the session, then poll on.
    EndSession,
    /// Poll on.
    Continue,
    /// Stop polling: no event is left, and the render loop goes on.
    Drained,
    /// Stop polling and leave the render loop.
    Quit,
}

impl Poll {
    /// Whether polling asks the runtime for another event after this.
    pub open spec fn polls_on(self) -> bool {
        self == Poll::BeginSession || self == Poll::EndSession || self == Poll::Continue
    }

    /// What a finished poll tells the render loop: whether to go on.
    pub open spec fn keeps_running(self) -> bool {
        self != Poll::Quit
    }

    /// Whether polling asks the runtime for another event after this.
    pub fn is_polling(&self) -> (polling: bool)
        ensures
            polling == self.polls_on(),
    {
        match self {
            Poll::BeginSession | Poll::EndSession | Poll::Continue => true,
            _ => false,
        }
    }

    /// What a finished poll tells the render loop: whether to go on.
    pub fn keep_running(&self) -> (running: bool)
        ensures
            running == self.keeps_running(),
    {
        match self {
            Poll::Quit => false,
            _ => true,
        }
    }
}

/// What polling does about what the runtime handed out: an event, or
/// `None` when its queue is empty.
///
/// A session that became ready is begun and one that is stopping is ended.
/// A session that exits or is about to be lost, and an instance that is
/// about to be lost, end the render loop. Everything else is passed over.
pub open spec fn poll_for(event: Option<Event>) -> Poll {
    match event {
        None => Poll::Drained,
        Some(Event::SessionStateChanged { state: SessionState::Ready }) => Poll::BeginSession,
        Some(Event::SessionStateChanged { state: SessionState::Stopping }) => Poll::EndSession,
        Some(Event::SessionStateChanged { state: SessionState::Exiting }) => Poll::Quit,
        Some(Event::SessionStateChanged { state: SessionState::LossPending }) => Poll::Quit,
        Some(Event::InstanceLossPending) => Poll::Quit,
        Some(_) => Poll::Continue,
    }
}

/// The session state after an event, given the state before it.
pub open spec fn state_after(before: SessionState, event: Option<Event>) -> SessionState {
    match event {
        Some(Event::SessionStateChanged { state }) => state,
        _ => before,
    }
}

} // verus!
