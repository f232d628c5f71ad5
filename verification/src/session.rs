//! The broadcast session: what the server does for one connected client.
//!
//! A session is a state machine. The program around the library waits for
//! ticks, pushes snapshots onto the client's bounded queue, and reports each
//! outcome as an event; the session decides what happens next.

use vstd::prelude::*;
use crate::action::GameError;
use crate::state::{GameStateResponse, StateManager};

verus! {

/// How many snapshots the queue of a client holds before a push has to wait.
pub const QUEUE_CAPACITY: usize = 10;

/// How many snapshots a session of bounded duration hands out.
pub const TICK_BUDGET: u64 = 20;

/// The seconds between two ticks.
pub const CADENCE_SECONDS: u64 = 5;

/// Where a session stands in its life.
#[derive(Clone, Copy, Debug, PartialEq, Eq, Structural)]
pub enum SessionState {
    /// Created, not yet streaming.
    Init,
    /// Pushing a snapshot per tick.
    Streaming,
    /// Over. A session never leaves this state.
    Terminated,
}

/// Why a session is over.
#[derive(Clone, Copy, Debug, PartialEq, Eq, Structural)]
pub enum Termination {
    /// A push failed: the client is gone.
    PeerGone,
    /// The server asked the session to stop.
    Shutdown,
    /// The session pushed as many snapshots as it was allowed to.
    BudgetExhausted,
}

/// What can happen to a session.
#[derive(Clone, Copy, Debug, PartialEq, Eq, Structural)]
pub enum SessionEvent {
    /// The client's stream was opened.
    Start,
    /// The session's timer fired.
    Tick,
    /// The queue took the snapshot that the session handed out.
    Delivered,
    /// The queue refused the snapshot for good: its reader is gone.
    PushFailed,
    /// The server wants the session to end.
    Shutdown,
}

/// What a session wants done after an event, without the snapshot.
#[derive(Clone, Copy, Debug, PartialEq, Eq, Structural)]
pub enum Reaction {
    /// Nothing until the next event.
    Wait,
    /// Push a snapshot onto the queue and report how it went.
    Push,
    /// Leave the loop: the session is over.
    Finish,
}

/// What a session wants done after an event.
#[derive(Debug)]
pub enum SessionAction {
    /// Nothing until the next event.
    Wait,
    /// Push this snapshot onto the queue, waiting for room if the queue is
    /// full, and report `Delivered` or `PushFailed`.
    Push(GameStateResponse),
    /// Leave the loop: the session is over.
    Finish,
}

impl SessionAction {
    /// The action without its snapshot.
    pub open spec fn reaction(&self) -> Reaction {
        match self {
            SessionAction::Wait => Reaction::Wait,
            SessionAction::Push(_) => Reaction::Push,
            SessionAction::Finish => Reaction::Finish,
        }
    }
}

/// A session as the contracts see it.
pub struct SessionView {
    pub state: SessionState,
    /// A snapshot was handed out and its push has not been reported yet.
    pub in_flight: bool,
    /// How many more snapshots the session may hand out, if that is limited.
    pub budget: Option<nat>,
    /// Why the session is over, once it is.
    pub cause: Option<Termination>,
}

impl SessionView {
    /// A session is terminated exactly when it has a cause for that, only a
    /// streaming session has a snapshot in flight, and a streaming session
    /// that is free to push has budget left.
    pub open spec fn wf(self) -> bool {
        &&& (self.state == SessionState::Terminated) == self.cause.is_some()
        &&& self.in_flight ==> self.state == SessionState::Streaming
        &&& self.state == SessionState::Streaming && !self.in_flight ==> !self.exhausted()
    }

    /// A new session with this budget.
    pub open spec fn initial(budget: Option<nat>) -> SessionView {
        SessionView {
            state: SessionState::Init,
            in_flight: false,
            budget,
            cause: None,
        }
    }

    /// This session, over for the given reason.
    pub open spec fn ended(self, cause: Termination) -> SessionView {
        SessionView {
            state: SessionState::Terminated,
            in_flight: false,
            cause: Some(cause),
            ..self
        }
    }

    /// The budget allows no further snapshot.
    pub open spec fn exhausted(self) -> bool {
        self.budget == Some(0nat)
    }

    /// The budget after one more snapshot was handed out.
    pub open spec fn spent(self) -> Option<nat> {
        match self.budget {
            Some(left) => Some((left - 1) as nat),
            None => None,
        }
    }

    /// The session after an event.
    pub open spec fn next(self, event: SessionEvent) -> SessionView {
        match self.state {
            SessionState::Terminated => self,
            SessionState::Init => match event {
                SessionEvent::Start => if self.exhausted() {
                    self.ended(Termination::BudgetExhausted)
                } else {
                    SessionView { state: SessionState::Streaming, ..self }
                },
                SessionEvent::Shutdown => self.ended(Termination::Shutdown),
                _ => self,
            },
            SessionState::Streaming => match event {
                SessionEvent::Start => self,
                SessionEvent::Tick => if self.in_flight {
                    self
                } else {
                    SessionView { in_flight: true, budget: self.spent(), ..self }
                },
                SessionEvent::Delivered => if !self.in_flight {
                    self
                } else if self.exhausted() {
                    self.ended(Termination::BudgetExhausted)
                } else {
                    SessionView { in_flight: false, ..self }
                },
                SessionEvent::PushFailed => if self.in_flight {
                    self.ended(Termination::PeerGone)
                } else {
                    self
                },
                SessionEvent::Shutdown => self.ended(Termination::Shutdown),
            },
        }
    }

    /// What the session wants done after an event. It asks for a push only
    /// on a tick, and only while no earlier snapshot is in flight: a slow
    /// client holds its own session back, and no snapshot is made to be
    /// thrown away.
    pub open spec fn reaction(self, event: SessionEvent) -> Reaction {
        if self.next(event).state == SessionState::Terminated {
            Reaction::Finish
        } else if self.state == SessionState::Streaming && event == SessionEvent::Tick
            && !self.in_flight {
            Reaction::Push
        } else {
            Reaction::Wait
        }
    }
}

impl SessionView {
    /// The session after the events, first to last.
    pub open spec fn after_all(self, events: Seq<SessionEvent>) -> SessionView
        decreases events.len(),
    {
        if events.len() == 0 {
            self
        } else {
            self.after_all(events.drop_last()).next(events.last())
        }
    }

    /// How many snapshots the session hands out during the events.
    pub open spec fn pushes(self, events: Seq<SessionEvent>) -> nat
        decreases events.len(),
    {
        if events.len() == 0 {
            0
        } else {
            let earlier = self.pushes(events.drop_last());
            if self.after_all(events.drop_last()).reaction(events.last()) == Reaction::Push {
                earlier + 1
            } else {
                earlier
            }
        }
    }

    /// How many of the snapshots handed out during the events were reported
    /// as taken by the queue.
    pub open spec fn deliveries(self, events: Seq<SessionEvent>) -> nat
        decreases events.len(),
    {
        if events.len() == 0 {
            0
        } else {
            let earlier = self.deliveries(events.drop_last());
            if self.after_all(events.drop_last()).in_flight && events.last()
                == SessionEvent::Delivered {
                earlier + 1
            } else {
                earlier
            }
        }
    }
}

/// The server's side of one client's stream.
pub struct BroadcastSession {
    state: SessionState,
    in_flight: bool,
    budget: Option<u64>,
    cause: Option<Termination>,
}

impl View for BroadcastSession {
    type V = SessionView;

    closed spec fn view(&self) -> SessionView {
        SessionView {
            state: self.state,
            in_flight: self.in_flight,
            budget: match self.budget {
                Some(left) => Some(left as nat),
                None => None,
            },
            cause: self.cause,
        }
    }
}

impl BroadcastSession {
    /// A session is terminated exactly when it has a cause for that, only a
    /// streaming session has a snapshot in flight, and a streaming session
    /// that is free to push has budget left.
    #[verifier::type_invariant]
    pub open spec fn wf(&self) -> bool {
        self@.wf()
    }

    /// A session that may hand out `budget` snapshots, or any number if
    /// there is no budget.
    pub fn new(budget: Option<u64>) -> (session: BroadcastSession)
        ensures
            session@ == SessionView::initial(
                match budget {
                    Some(left) => Some(left as nat),
                    None => None,
                },
            ),
    {
        BroadcastSession { state: SessionState::Init, in_flight: false, budget, cause: None }
    }

    pub fn state(&self) -> (state: SessionState)
        ensures
            state == self@.state,
    {
        self.state
    }

    /// Whether a snapshot was handed out whose push has not been reported.
    pub fn is_blocked(&self) -> (blocked: bool)
        ensures
            blocked == self@.in_flight,
    {
        self.in_flight
    }

    /// How many more snapshots the session may hand out, if that is limited.
    pub fn budget(&self) -> (budget: Option<u64>)
        ensures
            match budget {
                Some(left) => self@.budget == Some(left as nat),
                None => self@.budget.is_none(),
            },
    {
        self.budget
    }

    /// Why the session is over, if it is.
    pub fn termination(&self) -> (cause: Option<Termination>)
        ensures
            cause == self@.cause,
    {
        self.cause
    }

    /// The error that ended the session: `SessionClosed` if the client went
    /// away, none if the session is still alive or ended in good order.
    pub fn failure(&self) -> (error: Option<GameError>)
        ensures
            error == if self@.cause == Some(Termination::PeerGone) {
                Some(GameError::SessionClosed)
            } else {
                None::<GameError>
            },
    {
        match self.cause {
            Some(Termination::PeerGone) => Some(GameError::SessionClosed),
            _ => None,
        }
    }

    fn end(&mut self, cause: Termination)
        ensures
            final(self)@ == old(self)@.ended(cause),
    {
        *self = BroadcastSession {
            state: SessionState::Terminated,
            in_flight: false,
            budget: self.budget,
            cause: Some(cause),
        };
    }

    fn exhausted(&self) -> (exhausted: bool)
        ensures
            exhausted == self@.exhausted(),
    {
        match self.budget {
            Some(left) => left == 0,
            None => false,
        }
    }

    /// The stream was opened.
    pub fn start(&mut self) -> (action: SessionAction)
        ensures
            final(self)@ == old(self)@.next(SessionEvent::Start),
            action.reaction() == old(self)@.reaction(SessionEvent::Start),
            !(action is Push),
    {
        proof {
            use_type_invariant(&*self);
        }
        match self.state {
            SessionState::Init => {
                if self.exhausted() {
                    self.end(Termination::BudgetExhausted);
                    SessionAction::Finish
                } else {
                    self.state = SessionState::Streaming;
                    SessionAction::Wait
                }
            },
            SessionState::Streaming => SessionAction::Wait,
            SessionState::Terminated => SessionAction::Finish,
        }
    }

    /// The timer fired. A streaming session with nothing in flight takes a
    /// snapshot of `game` and asks for it to be pushed; a session that still
    /// waits for its last push takes none.
    pub fn on_tick(&mut self, game: &StateManager) -> (action: SessionAction)
        ensures
            final(self)@ == old(self)@.next(SessionEvent::Tick),
            action.reaction() == old(self)@.reaction(SessionEvent::Tick),
            match action {
                SessionAction::Push(snapshot) => {
                    &&& snapshot.counter == game@.revision
                    &&& snapshot.beings() == game@.beings
                },
                _ => true,
            },
    {
        proof {
            use_type_invariant(&*self);
        }
        match self.state {
            SessionState::Init => SessionAction::Wait,
            SessionState::Terminated => SessionAction::Finish,
            SessionState::Streaming => {
                if self.in_flight {
                    SessionAction::Wait
                } else {
                    let left = match self.budget {
                        Some(left) => Some(left - 1),
                        None => None,
                    };
                    *self = BroadcastSession {
                        state: SessionState::Streaming,
                        in_flight: true,
                        budget: left,
                        cause: None,
                    };
                    SessionAction::Push(game.snapshot())
                }
            },
        }
    }

    /// The queue took the snapshot in flight.
    pub fn on_delivered(&mut self) -> (action: SessionAction)
        ensures
            final(self)@ == old(self)@.next(SessionEvent::Delivered),
            action.reaction() == old(self)@.reaction(SessionEvent::Delivered),
            !(action is Push),
    {
        proof {
            use_type_invariant(&*self);
        }
        match self.state {
            SessionState::Init => SessionAction::Wait,
            SessionState::Terminated => SessionAction::Finish,
            SessionState::Streaming => {
                if !self.in_flight {
                    SessionAction::Wait
                } else if self.exhausted() {
                    self.end(Termination::BudgetExhausted);
                    SessionAction::Finish
                } else {
                    self.in_flight = false;
                    SessionAction::Wait
                }
            },
        }
    }

    /// The push of the snapshot in flight failed: the client is gone.
    pub fn on_push_failed(&mut self) -> (action: SessionAction)
        ensures
            final(self)@ == old(self)@.next(SessionEvent::PushFailed),
            action.reaction() == old(self)@.reaction(SessionEvent::PushFailed),
            !(action is Push),
    {
        proof {
            use_type_invariant(&*self);
        }
        match self.state {
            SessionState::Init => SessionAction::Wait,
            SessionState::Terminated => SessionAction::Finish,
            SessionState::Streaming => {
                if self.in_flight {
                    self.end(Termination::PeerGone);
                    SessionAction::Finish
                } else {
                    SessionAction::Wait
                }
            },
        }
    }

    /// Takes one event, whichever it is. Only a tick looks at `game`.
    pub fn step(&mut self, event: SessionEvent, game: &StateManager) -> (action: SessionAction)
        ensures
            final(self)@ == old(self)@.next(event),
            action.reaction() == old(self)@.reaction(event),
            match action {
                SessionAction::Push(snapshot) => {
                    &&& snapshot.counter == game@.revision
                    &&& snapshot.beings() == game@.beings
                },
                _ => true,
            },
    {
        match event {
            SessionEvent::Start => self.start(),
            SessionEvent::Tick => self.on_tick(game),
            SessionEvent::Delivered => self.on_delivered(),
            SessionEvent::PushFailed => self.on_push_failed(),
            SessionEvent::Shutdown => self.shutdown(),
        }
    }

    /// The server wants the session to end.
    pub fn shutdown(&mut self) -> (action: SessionAction)
        ensures
            final(self)@ == old(self)@.next(SessionEvent::Shutdown),
            action.reaction() == old(self)@.reaction(SessionEvent::Shutdown),
            action is Finish,
    {
        proof {
            use_type_invariant(&*self);
        }
        match self.state {
            SessionState::Terminated => {},
            _ => {
                self.end(Termination::Shutdown);
            },
        }
        SessionAction::Finish
    }
}

} // verus!
