//! A single-character cursor model: increments and decrements move the
//! cursor through the Unicode scalar values, and an unrecognized input jumps
//! to its first character.

use vstd::prelude::*;
use vstd::string::StrSliceExecFns;
use vstd::utf8::{char_is_scalar, char_u32_cast, is_scalar};

use crate::model::{Input, Model, StateChange};

verus! {

/// The cursor state: one character.
pub struct TextModel {
    pub c: char,
}

/// The cursor's message set: exactly the boundary inputs.
pub enum Message {
    Input(Input),
}

impl From<Input> for Message {
    fn from(input: Input) -> (m: Message) {
        Message::Input(input)
    }
}

impl vstd::std_specs::convert::FromSpecImpl<Input> for Message {
    open spec fn obeys_from_spec() -> bool {
        true
    }

    open spec fn from_spec(input: Input) -> Message {
        Message::Input(input)
    }
}

/// The cursor never requests a side effect. Verus requires every datatype
/// to be inhabited, so the command keeps one placeholder variant that no
/// transition ever emits; resolving it yields no message.
pub enum Command {
    Unused,
}

impl crate::model::Command<Message> for Command {
    open spec fn admits(self, m: Option<Message>) -> bool {
        m == None::<Message>
    }

    fn into_message(self) -> (m: Option<Message>)
        ensures
            self.admits(m),
    {
        match self {
            Command::Unused => None,
        }
    }
}

/// The character one code point above `c`, where that code point is a
/// Unicode scalar value; otherwise `c` itself. Stepping into the surrogate
/// range or past the last scalar leaves the cursor in place rather than
/// aborting.
pub open spec fn spec_next_char(c: char) -> char {
    if is_scalar((c as u32 + 1) as u32) {
        ((c as u32 + 1) as u32) as char
    } else {
        c
    }
}

/// The character one code point below `c`, under the same rule as
/// [`spec_next_char`].
pub open spec fn spec_prev_char(c: char) -> char {
    if c as u32 >= 1 && is_scalar((c as u32 - 1) as u32) {
        ((c as u32 - 1) as u32) as char
    } else {
        c
    }
}

/// Relies on `char::from_u32`: `Some` exactly for Unicode scalar values,
/// and the returned character has the given code point.
#[verifier::external_body]
fn char_from_u32(u: u32) -> (r: Option<char>)
    ensures
        r is Some <==> is_scalar(u),
        r matches Some(c) ==> c as u32 == u,
{
    char::from_u32(u)
}

/// Relies on `ToString` for `char`: the result is that one character.
#[verifier::external_body]
fn char_to_string(c: char) -> (r: String)
    ensures
        r@ == seq![c],
{
    c.to_string()
}

impl Model for TextModel {
    type Message = Message;

    type Command = Command;

    open spec fn wf(&self) -> bool {
        true
    }

    open spec fn spec_from_input(input: Input) -> Message {
        Message::Input(input)
    }

    open spec fn spec_step(self, m: Message) -> (TextModel, StateChange<Command>) {
        match m {
            Message::Input(Input::Increment) => (
                TextModel { c: spec_next_char(self.c) },
                StateChange::Alive { command: None },
            ),
            Message::Input(Input::Decrement) => (
                TextModel { c: spec_prev_char(self.c) },
                StateChange::Alive { command: None },
            ),
            Message::Input(Input::Quit) => (self, StateChange::Dead),
            Message::Input(Input::Other(other)) => (
                TextModel { c: if other@.len() > 0 {
                    other@[0]
                } else {
                    self.c
                } },
                StateChange::Alive { command: None },
            ),
        }
    }

    open spec fn spec_view(&self) -> Seq<char> {
        seq![self.c]
    }

    fn from_input(input: Input) -> (m: Message)
        ensures
            m == Self::spec_from_input(input),
    {
        Message::from(input)
    }

    fn update(&mut self, message: Message) -> (sc: StateChange<Command>)
        ensures
            final(self).wf(),
            (*final(self), sc) == Self::spec_step(*old(self), message),
    {
        match message {
            Message::Input(input) => match input {
                Input::Increment => {
                    let u = self.c as u32;
                    proof {
                        char_is_scalar(self.c);
                    }
                    match char_from_u32(u + 1) {
                        Some(c2) => {
                            proof {
                                char_u32_cast(c2, (u + 1) as u32);
                            }
                            self.c = c2;
                        },
                        None => {},
                    }
                },
                Input::Decrement => {
                    let u = self.c as u32;
                    if u >= 1 {
                        match char_from_u32(u - 1) {
                            Some(c2) => {
                                proof {
                                    char_u32_cast(c2, (u - 1) as u32);
                                }
                                self.c = c2;
                            },
                            None => {},
                        }
                    }
                },
                Input::Quit => {
                    return StateChange::Dead;
                },
                Input::Other(other) => {
                    if other.as_str().unicode_len() > 0 {
                        self.c = other.as_str().get_char(0);
                    }
                },
            },
        }
        StateChange::Alive { command: None }
    }

    fn view(&self) -> (r: String)
        ensures
            r@ == self.spec_view(),
    {
        char_to_string(self.c)
    }
}

impl Default for TextModel {
    /// The cursor starts at the NUL character, the lowest scalar value.
    fn default() -> (m: TextModel)
        ensures
            m == (TextModel { c: '\0' }),
            m.wf(),
    {
        TextModel { c: '\0' }
    }
}

} // verus!
