//! When the server stops taking new connections.

use vstd::prelude::*;

verus! {

/// A request from outside to stop the process.
#[derive(Clone, Copy, Debug, PartialEq, Eq, Structural)]
pub enum Signal {
    /// An interrupt from the terminal.
    Interrupt,
    /// A request to terminate.
    Terminate,
}

/// Where the server stands in its life.
#[derive(Clone, Copy, Debug, PartialEq, Eq, Structural)]
pub enum Phase {
    /// New connections are accepted.
    Serving,
    /// No new connection is accepted; requests in flight run to their end.
    Draining,
}

/// What a signal brings about.
#[derive(Clone, Debug, PartialEq, Eq)]
pub struct Transition {
    /// The phase after the signal.
    pub next: Phase,
    /// Whether the server is to start draining now.
    pub begin_drain: bool,
    /// The line to write to the log, if any.
    pub notice: Option<String>,
}

/// The mathematical content of a [`Transition`].
pub struct TransitionView {
    pub next: Phase,
    pub begin_drain: bool,
    pub notice: Option<Seq<char>>,
}

impl View for Transition {
    type V = TransitionView;

    open spec fn view(&self) -> TransitionView {
        TransitionView {
            next: self.next,
            begin_drain: self.begin_drain,
            notice: match self.notice {
                Some(line) => Some(line@),
                None => None,
            },
        }
    }
}

/// What a signal brings about in `phase`. Which signal it was plays no part.
pub open spec fn after_signal(phase: Phase) -> TransitionView {
    match phase {
        Phase::Serving => TransitionView {
            next: Phase::Draining,
            begin_drain: true,
            notice: Some("Terminate signal received"@),
        },
        Phase::Draining => TransitionView {
            next: Phase::Draining,
            begin_drain: false,
            notice: None,
        },
    }
}

/// Decides what a signal does to the server.
///
/// The first signal, of either kind, starts the drain and is logged. A signal
/// that arrives while the server drains changes nothing. No signal ever
/// brings the server back to serving.
pub fn shutdown_signal(phase: Phase, signal: Signal) -> (transition: Transition)
    ensures
        transition@ == after_signal(phase),
        transition.next == Phase::Draining,
        transition.begin_drain <==> phase == Phase::Serving,
{
    match phase {
        Phase::Serving => Transition {
            next: Phase::Draining,
            begin_drain: true,
            notice: Some(String::from_str("Terminate signal received")),
        },
        Phase::Draining => Transition { next: Phase::Draining, begin_drain: false, notice: None },
    }
}

} // verus!
