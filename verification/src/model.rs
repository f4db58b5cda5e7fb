//! The universal stimulus type, the Alive/Dead outcome of a transition, and
//! the contracts a pluggable state machine must satisfy.

use vstd::prelude::*;
use vstd::string::StringExecFns;

verus! {

/// A stimulus the dispatcher understands at its boundary. Event sources
/// produce these; the dispatcher converts each into a model-specific message.
pub enum Input {
    Increment,
    Decrement,
    Quit,
    Other(String),
}

/// The outcome of one transition: still alive, optionally requesting one
/// side effect, or terminally dead. No state is reachable after `Dead`.
pub enum StateChange<C> {
    Alive { command: Option<C> },
    Dead,
}

/// An abstract side-effect request emitted by a transition. The translator
/// resolves it into zero or one feedback message.
pub trait Command<Msg>: Sized {
    /// The derived messages this command allows: `into_message` may pick any
    /// of them, so everything proved downstream holds for each.
    spec fn admits(self, m: Option<Msg>) -> bool;

    /// Resolve the command into at most one feedback message. The choice may
    /// be nondeterministic (for instance probabilistic), but it always lies
    /// within what the command admits.
    fn into_message(self) -> (m: Option<Msg>)
        ensures
            self.admits(m),
    ;
}

/// The pluggable unit of private state the dispatcher owns and drives.
///
/// `spec_step` is the mathematical transition function; `update` must follow
/// it exactly, so a run of the dispatcher is determined by the sequence of
/// messages it applies.
pub trait Model: Sized {
    type Message;

    type Command;

    /// Well-formedness of the private state; constructors establish it and
    /// `update` preserves it.
    spec fn wf(&self) -> bool;

    /// The message a boundary `Input` converts to. The conversion is total:
    /// every input maps to exactly one message.
    spec fn spec_from_input(input: Input) -> Self::Message;

    /// The transition function: new state plus the resulting state change.
    spec fn spec_step(self, m: Self::Message) -> (Self, StateChange<Self::Command>);

    /// What the rendered view reads, as a function of the state alone.
    spec fn spec_view(&self) -> Seq<char>;

    fn from_input(input: Input) -> (m: Self::Message)
        ensures
            m == Self::spec_from_input(input),
    ;

    fn update(&mut self, message: Self::Message) -> (sc: StateChange<Self::Command>)
        requires
            old(self).wf(),
        ensures
            final(self).wf(),
            (*final(self), sc) == Self::spec_step(*old(self), message),
    ;

    /// Render the current state. The result is a pure projection of the
    /// state, so rendering twice with no intervening `update` yields
    /// identical output.
    fn view(&self) -> (r: String)
        requires
            self.wf(),
        ensures
            r@ == self.spec_view(),
    ;
}

/// Parse one trimmed console line into an `Input`: `+` increments, `-`
/// decrements, `quit` quits, and anything else is carried through verbatim.
pub fn parse_input(line: &String) -> (input: Input)
    ensures
        line@ == "+"@ ==> input == Input::Increment,
        line@ == "-"@ ==> input == Input::Decrement,
        line@ == "quit"@ ==> input == Input::Quit,
        line@ != "+"@ && line@ != "-"@ && line@ != "quit"@ ==> (input matches Input::Other(s)
            && s@ == line@),
{
    proof {
        reveal_strlit("+");
        reveal_strlit("-");
        reveal_strlit("quit");
        assert("+"@[0] != "-"@[0]);
        assert("+"@ != "-"@);
        assert("+"@.len() != "quit"@.len());
        assert("-"@.len() != "quit"@.len());
    }
    let plus = String::from_str("+");
    let minus = String::from_str("-");
    let quit_word = String::from_str("quit");
    if *line == plus {
        Input::Increment
    } else if *line == minus {
        Input::Decrement
    } else if *line == quit_word {
        Input::Quit
    } else {
        Input::Other(line.clone())
    }
}

} // verus!
