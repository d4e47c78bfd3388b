use vstd::prelude::*;

verus! {

/// The program's state: it runs until it either exits normally or meets a
/// fatal internal error, after which it is halted for good.
#[derive(Clone, Copy, Debug, PartialEq, Eq, Structural)]
pub enum State {
    Running,
    Halted,
}

/// What can happen to a running program.
#[derive(Clone, Copy, Debug, PartialEq, Eq, Structural)]
pub enum Event {
    /// The entry point returned the given status.
    Completed(isize),
    /// An unrecoverable internal fault was raised.
    FatalError,
}

/// What the environment is to do next.
#[derive(Clone, Copy, Debug, PartialEq, Eq, Structural)]
pub enum Action {
    /// End the process with this status.
    Exit(isize),
    /// Do nothing, forever: no output, no cleanup, no exit.
    Idle,
}

/// The next state and the action that goes with it.
#[derive(Clone, Copy, Debug, PartialEq, Eq, Structural)]
pub struct Transition {
    pub next: State,
    pub action: Action,
}

/// The transition rule. A fatal error halts the program; a halted program
/// stays halted and idle whatever happens; a normal completion exits with
/// the returned status without passing through the halted state.
pub open spec fn transition_of(state: State, event: Event) -> Transition {
    match (state, event) {
        (State::Running, Event::Completed(status)) => Transition {
            next: State::Running,
            action: Action::Exit(status),
        },
        _ => Transition { next: State::Halted, action: Action::Idle },
    }
}

/// Decides the next state and action for an event.
pub fn step(state: State, event: Event) -> (r: Transition)
    ensures
        r == transition_of(state, event),
{
    match (state, event) {
        (State::Running, Event::Completed(status)) => Transition {
            next: State::Running,
            action: Action::Exit(status),
        },
        _ => Transition { next: State::Halted, action: Action::Idle },
    }
}

/// The fatal-error handler's decision: from any state the program halts and
/// idles, writing nothing and never exiting.
pub fn my_panic(state: State) -> (r: Transition)
    ensures
        r == transition_of(state, Event::FatalError),
        r.next == State::Halted,
        r.action == Action::Idle,
{
    step(state, Event::FatalError)
}

/// The halted state is terminal: no event leaves it, and no event there
/// leads to output or to an exit.
pub proof fn lemma_halted_is_terminal(event: Event)
    ensures
        transition_of(State::Halted, event).next == State::Halted,
        transition_of(State::Halted, event).action == Action::Idle,
{
}

/// A running program that completes never passes through the halted state:
/// it exits with the status it returned.
pub proof fn lemma_completion_exits(status: isize)
    ensures
        transition_of(State::Running, Event::Completed(status)).next == State::Running,
        transition_of(State::Running, Event::Completed(status)).action == Action::Exit(
            status,
        ),
{
}

} // verus!
