//! The visibility state machine: what one timer tick does with the message
//! that it finds in the mailbox.
//!
//! | message found | action  | message stored |
//! |---------------|---------|----------------|
//! | `Draw`        | redraw  | none           |
//! | `Hide`        | hide    | `Idle`         |
//! | `Idle`        | nothing | none           |
//! | `Show`        | show    | `Draw`         |
//!
//! `Draw` is sticky: the brightness can change without any signal, so a
//! visible popup is drawn again on every tick. `Hide` and `Show` are consumed
//! by the tick that finds them.

use vstd::prelude::*;

use crate::message::Message;

verus! {

/// What the user interface has to do after a tick.
#[derive(Clone, Copy, Debug, PartialEq, Eq, Structural)]
pub enum Action {
    /// Compute the content again and display it.
    Redraw,
    /// Hide the popup window.
    Hide,
    /// Do nothing.
    Nothing,
    /// Show the popup window.
    Show,
}

/// One step of the state machine.
#[derive(Clone, Copy, Debug, PartialEq, Eq, Structural)]
pub struct Transition {
    /// The message that the tick found in the mailbox.
    pub observed: Message,
    /// What the user interface has to do.
    pub action: Action,
    /// The message that the tick stores in reply, if it stores one.
    pub reply: Option<Message>,
}

impl Message {
    /// The action that a tick takes when it finds this message.
    pub open spec fn action(self) -> Action {
        match self {
            Message::Draw => Action::Redraw,
            Message::Hide => Action::Hide,
            Message::Idle => Action::Nothing,
            Message::Show => Action::Show,
        }
    }

    /// The message that a tick stores when it finds this message. A tick that
    /// finds `Draw` or `Idle` stores nothing, so that a signal arriving in the
    /// meantime is not overwritten.
    pub open spec fn reply(self) -> Option<Message> {
        match self {
            Message::Draw => None,
            Message::Hide => Some(Message::Idle),
            Message::Idle => None,
            Message::Show => Some(Message::Draw),
        }
    }

    /// The message that the mailbox holds after a tick that found this
    /// message, if nothing else wrote to the mailbox during the tick.
    pub open spec fn successor(self) -> Message {
        match self.reply() {
            Some(reply) => reply,
            None => self,
        }
    }
}

impl Transition {
    /// The step that the state machine takes from `observed`.
    pub open spec fn of(observed: Message) -> Transition {
        Transition { observed, action: observed.action(), reply: observed.reply() }
    }
}

/// Decides what a tick does with the message that it found.
pub fn transition(observed: Message) -> (step: Transition)
    ensures
        step == Transition::of(observed),
{
    match observed {
        Message::Draw => Transition { observed, action: Action::Redraw, reply: None },
        Message::Hide => Transition { observed, action: Action::Hide, reply: Some(Message::Idle) },
        Message::Idle => Transition { observed, action: Action::Nothing, reply: None },
        Message::Show => Transition { observed, action: Action::Show, reply: Some(Message::Draw) },
    }
}

/// The transition table, row by row: every message has exactly one action and
/// exactly one successor.
pub proof fn lemma_transition_table()
    ensures
        Message::Draw.action() == Action::Redraw && Message::Draw.successor() == Message::Draw,
        Message::Hide.action() == Action::Hide && Message::Hide.successor() == Message::Idle,
        Message::Idle.action() == Action::Nothing && Message::Idle.successor() == Message::Idle,
        Message::Show.action() == Action::Show && Message::Show.successor() == Message::Draw,
{
}

} // verus!
