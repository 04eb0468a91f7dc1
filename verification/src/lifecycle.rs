//! The tasks that run a session: the main task, which leads it from the first
//! authentication message to its end, and the loops that serve it meanwhile.
use vstd::prelude::*;

use crate::session::SessionState;

verus! {

/// What the main task of a session is waiting for.
#[derive(Debug, Clone, Copy, PartialEq, Eq, Structural)]
pub enum Phase {
    /// Nothing: it has just been started.
    Opened,
    /// The peer's verdict on the local user.
    Authenticating,
    /// The peer's introduction.
    Verifying,
    /// The end of the task that looks after sent messages.
    Sending,
    /// The end of the task that collects received messages.
    Receiving,
    /// Nothing: the session has ended.
    Finished,
    /// Nothing: a step has failed, and the session goes no further.
    Failed,
}

/// The phase that follows, given how the awaited step went.
pub open spec fn next_phase(phase: Phase, ok: bool) -> Phase {
    match phase {
        Phase::Opened => Phase::Authenticating,
        Phase::Finished => Phase::Finished,
        Phase::Failed => Phase::Failed,
        _ => if !ok {
            Phase::Failed
        } else {
            match phase {
                Phase::Authenticating => Phase::Verifying,
                Phase::Verifying => Phase::Sending,
                Phase::Sending => Phase::Receiving,
                _ => Phase::Finished,
            }
        },
    }
}

/// The state that the main task sets as it leaves a phase.
pub open spec fn state_set(phase: Phase, ok: bool) -> Option<SessionState> {
    match phase {
        Phase::Opened => Some(SessionState::Authenticating),
        Phase::Verifying => if ok { Some(SessionState::Established) } else { None },
        Phase::Receiving => if ok { Some(SessionState::Terminated) } else { None },
        _ => None,
    }
}

/// Where the listener, which takes in the streams that the peer opens, stands.
#[derive(Debug, Clone, Copy, PartialEq, Eq, Structural)]
pub enum Listener {
    /// It waits for the session to be established.
    Waiting,
    /// It takes in streams.
    Accepting,
    /// It has ended.
    Done,
}

/// What the listener does next.
#[derive(Debug, Clone, Copy, PartialEq, Eq, Structural)]
pub enum ListenerAction {
    /// It looks at the state of the session again.
    Poll,
    /// It waits for the peer to open a stream.
    Accept,
    /// It ends.
    Exit,
}

/// Where the listener stands after a look at the state of the session, and what
/// it does.
pub open spec fn listener_next(listener: Listener, state: SessionState) -> (Listener, ListenerAction) {
    match listener {
        Listener::Waiting => if state == SessionState::Closed || state == SessionState::Established {
            (Listener::Accepting, ListenerAction::Poll)
        } else {
            (Listener::Waiting, ListenerAction::Poll)
        },
        Listener::Accepting => if state == SessionState::Closed {
            (Listener::Done, ListenerAction::Exit)
        } else {
            (Listener::Accepting, ListenerAction::Accept)
        },
        Listener::Done => (Listener::Done, ListenerAction::Exit),
    }
}

/// Where the listener stands once it has waited for a stream.
pub open spec fn listener_after(ok: bool) -> Listener {
    if ok {
        Listener::Accepting
    } else {
        Listener::Done
    }
}

impl Listener {
    /// Looks at the state of the session, and says what to do.
    pub fn poll(self, state: SessionState) -> (r: (Listener, ListenerAction))
        ensures
            r == listener_next(self, state),
    {
        match self {
            Listener::Waiting => {
                if state == SessionState::Closed {
                    return (Listener::Accepting, ListenerAction::Poll);
                }
                if state == SessionState::Established {
                    return (Listener::Accepting, ListenerAction::Poll);
                }
                (Listener::Waiting, ListenerAction::Poll)
            },
            Listener::Accepting => {
                if state == SessionState::Closed {
                    return (Listener::Done, ListenerAction::Exit);
                }
                (Listener::Accepting, ListenerAction::Accept)
            },
            Listener::Done => (Listener::Done, ListenerAction::Exit),
        }
    }

    /// Where the listener stands once it has waited for a stream: it goes on
    /// after a stream, and ends when the connection yields none.
    pub fn accepted(ok: bool) -> (r: Listener)
        ensures
            r == listener_after(ok),
    {
        if ok {
            Listener::Accepting
        } else {
            Listener::Done
        }
    }
}

/// A task that looks after sent or received messages, round by round.
#[derive(Debug, Clone, Copy, PartialEq, Eq, Structural)]
pub enum Service {
    /// It goes on for another round.
    Running,
    /// It has ended.
    Ended,
}

/// The task after a look at the state of the session: it ends when the peer has
/// closed the session.
pub open spec fn service_next(service: Service, state: SessionState) -> Service {
    if service == Service::Ended || state == SessionState::Closed {
        Service::Ended
    } else {
        Service::Running
    }
}

/// The task after it has looked at the states `seen`, one before each round.
pub open spec fn service_after(seen: Seq<SessionState>) -> Service
    decreases seen.len(),
{
    if seen.len() == 0 {
        Service::Running
    } else {
        service_next(service_after(seen.drop_last()), seen.last())
    }
}

impl Service {
    /// Looks at the state of the session before a round.
    pub fn poll(self, state: SessionState) -> (r: Service)
        ensures
            r == service_next(self, state),
    {
        if self == Service::Ended || state == SessionState::Closed {
            Service::Ended
        } else {
            Service::Running
        }
    }
}

} // verus!
