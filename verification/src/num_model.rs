//! A numeric counter model: increments and decrements a signed counter,
//! remembers when it last saw an unrecognized input, and asks for a
//! probabilistic extra increment whenever the counter reaches five.

use vstd::prelude::*;
use vstd::string::StringExecFns;

use crate::decimal::{i32_to_string, spec_int_string};
use crate::dispatch::{event_message, lemma_run_append, spec_run, Event};
use crate::model::Command as CommandContract;
use crate::model::{Input, Model, StateChange};

verus! {

/// The counter state. At the ends of the `i32` range the counter saturates
/// instead of aborting, so every update is defined behavior.
pub struct NumModel {
    pub n: i32,
    pub saw_other: bool,
}

/// The counter's message set: every boundary input, plus a private variant
/// that overwrites the counter with a given value.
pub enum Message {
    Input(Input),
    Randomize(i32),
}

impl From<Input> for Message {
    fn from(input: Input) -> (m: Message) {
        Message::Input(input)
    }
}

impl vstd::std_specs::convert::FromSpecImpl<Input> for Message {
    open spec fn obeys_from_spec() -> bool {
        true
    }

    open spec fn from_spec(input: Input) -> Message {
        Message::Input(input)
    }
}

/// The counter's side-effect request: maybe increment once more.
pub enum Command {
    MaybeIncrement,
}

/// Relies on `rand::random::<bool>`: a coin toss; nothing is promised of
/// the outcome.
#[verifier::external_body]
fn random_bool() -> (b: bool) {
    rand::random::<bool>()
}

impl crate::model::Command<Message> for Command {
    open spec fn admits(self, m: Option<Message>) -> bool {
        m == None::<Message> || m == Some(Message::Input(Input::Increment))
    }

    fn into_message(self) -> (m: Option<Message>)
        ensures
            self.admits(m),
    {
        match self {
            Command::MaybeIncrement => {
                if random_bool() {
                    Some(Message::Input(Input::Increment))
                } else {
                    None
                }
            },
        }
    }
}

impl Model for NumModel {
    type Message = Message;

    type Command = Command;

    open spec fn wf(&self) -> bool {
        true
    }

    open spec fn spec_from_input(input: Input) -> Message {
        Message::Input(input)
    }

    open spec fn spec_step(self, m: Message) -> (NumModel, StateChange<Command>) {
        if m matches Message::Input(Input::Quit) {
            (self, StateChange::Dead)
        } else {
            let next = match m {
                Message::Input(Input::Increment) => NumModel {
                    n: if self.n == i32::MAX {
                        i32::MAX
                    } else {
                        (self.n + 1) as i32
                    },
                    saw_other: false,
                },
                Message::Input(Input::Decrement) => NumModel {
                    n: if self.n == i32::MIN {
                        i32::MIN
                    } else {
                        (self.n - 1) as i32
                    },
                    saw_other: false,
                },
                Message::Input(Input::Quit) => self,
                Message::Input(Input::Other(_)) => NumModel { n: self.n, saw_other: true },
                Message::Randomize(v) => NumModel { n: v, saw_other: self.saw_other },
            };
            if next.n == 5 {
                (next, StateChange::Alive { command: Some(Command::MaybeIncrement) })
            } else {
                (next, StateChange::Alive { command: None })
            }
        }
    }

    open spec fn spec_view(&self) -> Seq<char> {
        if self.saw_other {
            "What was that?"@
        } else {
            spec_int_string(self.n as int)
        }
    }

    fn from_input(input: Input) -> (m: Message)
        ensures
            m == Self::spec_from_input(input),
    {
        Message::from(input)
    }

    fn update(&mut self, message: Message) -> (sc: StateChange<Command>)
        ensures
            final(self).wf(),
            (*final(self), sc) == Self::spec_step(*old(self), message),
    {
        match message {
            Message::Input(input) => match input {
                Input::Increment => {
                    self.saw_other = false;
                    if self.n < i32::MAX {
                        self.n = self.n + 1;
                    }
                },
                Input::Decrement => {
                    self.saw_other = false;
                    if self.n > i32::MIN {
                        self.n = self.n - 1;
                    }
                },
                Input::Quit => {
                    return StateChange::Dead;
                },
                Input::Other(_) => {
                    self.saw_other = true;
                },
            },
            Message::Randomize(v) => {
                self.n = v;
            },
        }
        if self.n == 5 {
            return StateChange::Alive { command: Some(Command::MaybeIncrement) };
        }
        StateChange::Alive { command: None }
    }

    fn view(&self) -> (r: String)
        ensures
            r@ == self.spec_view(),
    {
        if self.saw_other {
            String::from_str("What was that?")
        } else {
            i32_to_string(self.n)
        }
    }
}

/// Whether an event reaches the counter as the quit input, the only
/// message its transition maps to `Dead`.
pub open spec fn is_quit_event(e: Event<NumModel>) -> bool {
    event_message::<NumModel>(e) matches Message::Input(Input::Quit)
}

/// A run over events none of which is the quit input never dies, and
/// renders exactly one view per event.
pub proof fn lemma_run_without_quit_stays_alive(model: NumModel, events: Seq<Event<NumModel>>)
    requires
        forall|i: int| 0 <= i < events.len() ==> !is_quit_event(#[trigger] events[i]),
    ensures
        !spec_run(model, events).dead,
        spec_run(model, events).applied == events.len(),
        spec_run(model, events).views.len() == events.len(),
    decreases events.len(),
{
    if events.len() > 0 {
        let (next, sc) = NumModel::spec_step(model, event_message::<NumModel>(events[0]));
        assert(!is_quit_event(events[0]));
        assert(!(sc is Dead));
        assert(forall|i: int|
            0 <= i < events.drop_first().len() ==> !is_quit_event(
                #[trigger] events.drop_first()[i],
            ));
        lemma_run_without_quit_stays_alive(next, events.drop_first());
    }
}

/// A run whose last event is the quit input, and whose earlier events are
/// not, applies every event, dies on the last one, and renders a view for
/// every event but that terminal one.
pub proof fn lemma_run_ending_in_quit(model: NumModel, events: Seq<Event<NumModel>>)
    requires
        events.len() >= 1,
        forall|i: int| 0 <= i < events.len() - 1 ==> !is_quit_event(#[trigger] events[i]),
        is_quit_event(events[events.len() - 1]),
    ensures
        spec_run(model, events).dead,
        spec_run(model, events).applied == events.len(),
        spec_run(model, events).views.len() == events.len() - 1,
{
    let prefix = events.take(events.len() - 1);
    let last = events.skip(events.len() - 1);
    assert(forall|i: int| 0 <= i < prefix.len() ==> !is_quit_event(#[trigger] prefix[i]));
    lemma_run_without_quit_stays_alive(model, prefix);
    lemma_run_append(model, prefix, last);
    let survivor = spec_run(model, prefix).model;
    assert(last.len() == 1 && last[0] == events[events.len() - 1]);
    let (next, sc) = NumModel::spec_step(survivor, event_message::<NumModel>(last[0]));
    assert(sc is Dead);
    assert(events.take(events.len() - 1) + events.skip(events.len() - 1) =~= events);
}

/// The feedback command admits exactly two resolutions: no message at all,
/// or one increment message.
pub proof fn lemma_maybe_increment_feedback(m: Option<Message>)
    ensures
        Command::MaybeIncrement.admits(m) <==> (m == None::<Message> || m == Some(
            Message::Input(Input::Increment),
        )),
{
}

/// A transition emits a command exactly when it stays alive and leaves the
/// counter at five.
pub proof fn lemma_command_emitted_at_five(model: NumModel, m: Message)
    ensures
        ({
            let (next, sc) = NumModel::spec_step(model, m);
            (sc matches StateChange::Alive { command: Some(c) }) <==> (!(sc is Dead) && next.n
                == 5)
        }),
{
}

impl Default for NumModel {
    /// The counter starts at zero with no unrecognized input seen.
    fn default() -> (m: NumModel)
        ensures
            m == (NumModel { n: 0, saw_other: false }),
            m.wf(),
    {
        NumModel { n: 0, saw_other: false }
    }
}

} // verus!
