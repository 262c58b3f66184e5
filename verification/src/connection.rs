//! Setting up the connection to the server, keeping it, and setting it up again.

use vstd::prelude::*;

use crate::registry::{Registry, RegistryView};

verus! {

/// How many attempts in a row are made at the short delay.
pub const QUICK_TRIES: i32 = 10;

/// The delay after each of the first failed attempts, in milliseconds.
pub const QUICK_DELAY_MS: u64 = 100;

/// The delay after each later failed attempt, in milliseconds.
pub const SLOW_DELAY_MS: u64 = 5_000;

/// How long one round of the main loop waits for something to happen, in milliseconds.
pub const ROUND_MS: u64 = 50;

/// What was last asked for.
#[derive(Clone, Copy, Debug, PartialEq, Eq, Structural)]
pub enum Phase {
    /// Nothing, or to wait after a failed attempt.
    Idle,
    /// To create the main loop.
    MainLoop,
    /// To create the context.
    Context,
    /// To connect to the server.
    Core,
    /// To register the listeners.
    Listening,
    /// To run a round of the main loop.
    Round,
    /// To handle the requests that came in.
    Requests,
}

/// How it went.
#[derive(Clone, Copy, Debug, PartialEq, Eq, Structural)]
pub enum Outcome {
    Done,
    /// It failed or, for a round of the main loop, the connection was lost.
    Failed,
}

/// Something that the server tells the core of a connection.
#[derive(Clone, Copy, Debug, PartialEq, Eq, Structural)]
pub enum CoreEvent {
    /// What was asked for earlier is done.
    Done,
    /// An error occurred.
    Error,
}

/// What to do next.
#[derive(Clone, Copy, Debug, PartialEq, Eq, Structural)]
pub enum Action {
    Sleep { ms: u64 },
    CreateMainLoop,
    CreateContext,
    Connect,
    Listen,
    RunRound { ms: u64 },
    HandleRequests,
}

/// The state of the connection: what was last asked for, and how many attempts have been made
/// since there last was a connection.
#[derive(Debug)]
pub struct Connection {
    phase: Phase,
    tries: i32,
}

/// The model of a [`Connection`].
pub struct ConnectionView {
    pub phase: Phase,
    pub tries: int,
}

impl View for Connection {
    type V = ConnectionView;

    closed spec fn view(&self) -> ConnectionView {
        ConnectionView { phase: self.phase, tries: self.tries as int }
    }
}

/// The delay after a failed attempt, by its number.
pub open spec fn delay_after(tries: int) -> u64 {
    if tries <= QUICK_TRIES {
        QUICK_DELAY_MS
    } else {
        SLOW_DELAY_MS
    }
}

impl ConnectionView {
    /// No attempt has been made.
    pub open spec fn initial() -> ConnectionView {
        ConnectionView { phase: Phase::Idle, tries: 0 }
    }

    /// The state and the action in which a new attempt starts.
    pub open spec fn attempt(self) -> (ConnectionView, Action) {
        (ConnectionView { phase: Phase::MainLoop, tries: self.tries + 1 }, Action::CreateMainLoop)
    }

    /// The state and the action after a failed attempt.
    pub open spec fn backed_off(self) -> (ConnectionView, Action) {
        (
            ConnectionView { phase: Phase::Idle, ..self },
            Action::Sleep { ms: delay_after(self.tries) },
        )
    }

    /// The next state and what to do next.
    ///
    /// An attempt creates the main loop, then the context, and then connects. It is over as soon
    /// as one of these fails, and is made again after a delay. Once there is a connection, the
    /// listeners are registered, and rounds of the main loop take turns with requests until a
    /// round finds the connection lost; a new attempt then follows at once.
    pub open spec fn next(self, outcome: Outcome) -> (ConnectionView, Action) {
        match (self.phase, outcome) {
            (Phase::Idle, _) => self.attempt(),
            (Phase::MainLoop, Outcome::Done) => (
                ConnectionView { phase: Phase::Context, ..self },
                Action::CreateContext,
            ),
            (Phase::Context, Outcome::Done) => (
                ConnectionView { phase: Phase::Core, ..self },
                Action::Connect,
            ),
            (Phase::Core, Outcome::Done) => (
                ConnectionView { phase: Phase::Listening, tries: 0 },
                Action::Listen,
            ),
            (Phase::MainLoop, Outcome::Failed) => self.backed_off(),
            (Phase::Context, Outcome::Failed) => self.backed_off(),
            (Phase::Core, Outcome::Failed) => self.backed_off(),
            (Phase::Listening, _) => (
                ConnectionView { phase: Phase::Round, ..self },
                Action::RunRound { ms: ROUND_MS },
            ),
            (Phase::Round, Outcome::Done) => (
                ConnectionView { phase: Phase::Requests, ..self },
                Action::HandleRequests,
            ),
            (Phase::Round, Outcome::Failed) => self.attempt(),
            (Phase::Requests, _) => (
                ConnectionView { phase: Phase::Round, ..self },
                Action::RunRound { ms: ROUND_MS },
            ),
        }
    }

    /// Whether the outcome is that there is a connection.
    pub open spec fn connects(self, outcome: Outcome) -> bool {
        self.phase == Phase::Core && outcome == Outcome::Done
    }

    /// What is known of the devices after an outcome: nothing, at the start of a connection, so
    /// that nothing is left of an earlier one.
    pub open spec fn registry_after(
        self,
        outcome: Outcome,
        registry: RegistryView,
    ) -> RegistryView {
        if self.connects(outcome) {
            RegistryView::empty()
        } else {
            registry
        }
    }
}

/// Whether an event means that the connection is lost. Only an error does: the connection lasts
/// until then.
pub fn ends_session(event: CoreEvent) -> (lost: bool)
    ensures
        lost == (event == CoreEvent::Error),
{
    match event {
        CoreEvent::Done => false,
        CoreEvent::Error => true,
    }
}

impl Connection {
    /// No attempt has been made.
    pub fn new() -> (connection: Connection)
        ensures
            connection@ == ConnectionView::initial(),
    {
        Connection { phase: Phase::Idle, tries: 0 }
    }

    /// How many attempts have been made since there last was a connection.
    pub fn tries(&self) -> (tries: i32)
        ensures
            tries == self@.tries,
    {
        self.tries
    }

    /// Starts a new attempt.
    fn attempt(&mut self) -> (action: Action)
        requires
            old(self)@.tries < i32::MAX,
        ensures
            (final(self)@, action) == old(self)@.attempt(),
    {
        self.phase = Phase::MainLoop;
        self.tries = self.tries + 1;
        Action::CreateMainLoop
    }

    /// Ends a failed attempt.
    fn back_off(&mut self) -> (action: Action)
        ensures
            (final(self)@, action) == old(self)@.backed_off(),
    {
        self.phase = Phase::Idle;
        let ms: u64 = if self.tries <= QUICK_TRIES {
            QUICK_DELAY_MS
        } else {
            SLOW_DELAY_MS
        };
        Action::Sleep { ms }
    }

    /// Decides what to do next. At the start of a connection everything that is known of the
    /// devices is forgotten.
    pub fn step(&mut self, outcome: Outcome, registry: &mut Registry) -> (action: Action)
        requires
            old(self)@.next(outcome).0.tries <= i32::MAX,
        ensures
            (final(self)@, action) == old(self)@.next(outcome),
            final(registry)@ == old(self)@.registry_after(outcome, old(registry)@),
    {
        match (self.phase, outcome) {
            (Phase::Idle, _) => self.attempt(),
            (Phase::MainLoop, Outcome::Done) => {
                self.phase = Phase::Context;
                Action::CreateContext
            },
            (Phase::Context, Outcome::Done) => {
                self.phase = Phase::Core;
                Action::Connect
            },
            (Phase::Core, Outcome::Done) => {
                self.phase = Phase::Listening;
                self.tries = 0;
                registry.clear();
                Action::Listen
            },
            (Phase::MainLoop, Outcome::Failed) => self.back_off(),
            (Phase::Context, Outcome::Failed) => self.back_off(),
            (Phase::Core, Outcome::Failed) => self.back_off(),
            (Phase::Listening, _) => {
                self.phase = Phase::Round;
                Action::RunRound { ms: ROUND_MS }
            },
            (Phase::Round, Outcome::Done) => {
                self.phase = Phase::Requests;
                Action::HandleRequests
            },
            (Phase::Round, Outcome::Failed) => self.attempt(),
            (Phase::Requests, _) => {
                self.phase = Phase::Round;
                Action::RunRound { ms: ROUND_MS }
            },
        }
    }
}

} // verus!
