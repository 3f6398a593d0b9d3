//! The mailbox: one atomic cell that holds the latest intent, written by
//! signals and by the user interface, and read by the user interface once per
//! timer tick.
//!
//! The cell is no queue. A write replaces what the cell held, so of several
//! signals that arrive between two ticks only the last one is seen.
//!
//! The user interface owns the mailbox: it alone reads it, and it writes to it
//! through an exclusive reference. The signals write behind its back, but only
//! what they were bound to. So what is read is always the message that the
//! user interface stored last or one that a bound signal stores.

use vstd::prelude::*;

use crate::cell::cell_bound;
use crate::cell::cell_load;
use crate::cell::cell_new;
use crate::cell::cell_register;
use crate::cell::cell_store;
use crate::cell::cell_stored;
use crate::cell::Cell;
use crate::signal::forbidden;
use crate::signal::is_forbidden;
use crate::signal::sigusr1;
use crate::signal::sigusr2;
use crate::signal::SIGUSR1;
use crate::signal::SIGUSR2;
use crate::visibility::transition;
use crate::visibility::Transition;

verus! {

/// Code of the message that asks for the popup to be drawn again.
pub const DRAW: usize = 0;

/// Code of the message that asks for the popup to be hidden.
pub const HIDE: usize = 1;

/// Code of the message that asks for nothing.
pub const NONE: usize = 2;

/// Code of the message that asks for the popup to be shown.
pub const SHOW: usize = 3;

/// What the mailbox asks of the user interface.
#[derive(Clone, Copy, Debug, PartialEq, Eq, Structural)]
pub enum Message {
    /// The content is stale: compute it again and display it. Only the user
    /// interface sets this.
    Draw,
    /// Hide the popup. Only a signal sets this.
    Hide,
    /// Nothing is due: the mailbox is idle. Only the user interface sets this.
    Idle,
    /// Show the popup. Only a signal sets this.
    Show,
}

/// An integer that is the code of no message. In the mailbox it would be a
/// defect of the program and not a condition to recover from.
#[derive(Clone, Copy, Debug, PartialEq, Eq, Structural)]
pub struct InvariantViolation {
    /// The integer that was found.
    pub code: usize,
}

impl Message {
    /// The integer that stands for this message inside the atomic cell.
    pub open spec fn spec_code(self) -> usize {
        match self {
            Message::Draw => DRAW,
            Message::Hide => HIDE,
            Message::Idle => NONE,
            Message::Show => SHOW,
        }
    }

    /// The message that an integer stands for, or the violation that it is.
    pub open spec fn decode(code: usize) -> Result<Message, InvariantViolation> {
        if code == DRAW {
            Ok(Message::Draw)
        } else if code == HIDE {
            Ok(Message::Hide)
        } else if code == NONE {
            Ok(Message::Idle)
        } else if code == SHOW {
            Ok(Message::Show)
        } else {
            Err(InvariantViolation { code })
        }
    }

    /// The integer that stands for this message inside the atomic cell.
    #[verifier::when_used_as_spec(spec_code)]
    pub fn code(self) -> (code: usize)
        ensures
            code == self.spec_code(),
        no_unwind
    {
        match self {
            Message::Draw => DRAW,
            Message::Hide => HIDE,
            Message::Idle => NONE,
            Message::Show => SHOW,
        }
    }

    /// Reads an integer as a message, and rejects an integer that is the code
    /// of no message.
    pub fn from_code(code: usize) -> (message: Result<Message, InvariantViolation>)
        ensures
            message == Message::decode(code),
    {
        if code == DRAW {
            Ok(Message::Draw)
        } else if code == HIDE {
            Ok(Message::Hide)
        } else if code == NONE {
            Ok(Message::Idle)
        } else if code == SHOW {
            Ok(Message::Show)
        } else {
            Err(InvariantViolation { code })
        }
    }
}

/// Every message is found again behind its code, and every code is below
/// four: what is stored for a message is read as that message and as nothing
/// else.
pub proof fn lemma_code_round_trip(message: Message)
    ensures
        Message::decode(message.spec_code()) == Ok::<Message, InvariantViolation>(message),
        message.spec_code() < 4,
{
}

/// An integer is read as a message exactly when it is below four, and then it
/// is the code of the message it is read as; any other integer is reported as
/// it was found.
pub proof fn lemma_decode(code: usize)
    ensures
        Message::decode(code) is Ok <==> code < 4,
        Message::decode(code) matches Ok(message) ==> message.spec_code() == code,
        Message::decode(code) matches Err(violation) ==> violation.code == code,
{
}

/// A signal and the message that its arrival stores in the mailbox.
#[derive(Clone, Copy, Debug, PartialEq, Eq, Structural)]
pub struct Binding {
    /// The number of the signal.
    pub signal: i32,
    /// The message that is stored when the signal arrives.
    pub message: Message,
}

/// Why a signal could not be bound to a message.
#[derive(Debug, PartialEq, Eq)]
pub enum SetupError {
    /// The signal is one for which no handler may be installed.
    Forbidden {
        /// The number of the signal.
        signal: i32,
    },
    /// The operating system did not install the handler.
    Rejected {
        /// The number of the signal.
        signal: i32,
        /// The operating system's description of the failure.
        reason: String,
    },
}

impl SetupError {
    /// The number of the signal that could not be bound.
    pub open spec fn spec_signal(&self) -> i32 {
        match *self {
            SetupError::Forbidden { signal } => signal,
            SetupError::Rejected { signal, .. } => signal,
        }
    }

    /// The number of the signal that could not be bound.
    #[verifier::when_used_as_spec(spec_signal)]
    pub fn signal(&self) -> (signal: i32)
        ensures
            signal == self.spec_signal(),
    {
        match self {
            SetupError::Forbidden { signal } => *signal,
            SetupError::Rejected { signal, .. } => *signal,
        }
    }

    /// Whether this is the rejection of `signal` by the operating system, with
    /// the text of the system's error as its reason.
    pub open spec fn is_rejection_of(&self, signal: i32) -> bool {
        &&& *self matches SetupError::Rejected { signal: rejected, reason }
        &&& rejected == signal
        &&& exists|error: std::io::Error|
            vstd::string::to_string_from_display_ensures::<std::io::Error>(&error, reason)
    }
}

/// What the owner of a mailbox knows of it.
#[verifier::ext_equal]
pub struct Mailbox {
    /// The message that the owner stored last, or `Draw` if it stored none
    /// yet. The mailbox holds it until a bound signal arrives.
    pub held: Message,
    /// The signals that may write to the mailbox, each with the message that
    /// its arrival stores.
    pub bindings: Set<Binding>,
}

impl Mailbox {
    /// The mailbox as it is made: it holds `Draw`, and no signal writes to it.
    pub open spec fn fresh() -> Mailbox {
        Mailbox { held: Message::Draw, bindings: Set::empty() }
    }

    /// Whether a read of the mailbox can find `message`: it is what the owner
    /// stored last, or what a bound signal stores.
    pub open spec fn may_hold(self, message: Message) -> bool {
        message == self.held || exists|signal: i32|
            self.bindings.contains(Binding { signal, message })
    }

    /// The mailbox after its owner stored `message`.
    pub open spec fn stored(self, message: Message) -> Mailbox {
        Mailbox { held: message, bindings: self.bindings }
    }

    /// The mailbox after a tick that found `observed`: the reply to `observed`
    /// was stored, if it calls for one.
    pub open spec fn ticked(self, observed: Message) -> Mailbox {
        match observed.reply() {
            Some(reply) => self.stored(reply),
            None => self,
        }
    }

    /// The mailbox after `binding` was asked for.
    pub open spec fn bound(self, binding: Binding) -> Mailbox {
        Mailbox { held: self.held, bindings: self.bindings.insert(binding) }
    }
}

/// The mailbox. Its view is what its owner knows of it.
pub struct MessageHandler {
    cell: Cell,
}

impl View for MessageHandler {
    type V = Mailbox;

    closed spec fn view(&self) -> Mailbox {
        Mailbox {
            held: match Message::decode(cell_stored(self.cell)) {
                Ok(message) => message,
                Err(_) => arbitrary(),
            },
            bindings: Set::new(
                |binding: Binding|
                    cell_bound(self.cell).contains((binding.signal, binding.message.spec_code())),
            ),
        }
    }
}

/// What `register` returns for the answer of the registry: success for
/// success, and for an error the rejection of `signal` with the text of that
/// error.
pub fn registration_outcome(signal: i32, installed: Result<(), std::io::Error>) -> (outcome: Result<
    (),
    SetupError,
>)
    ensures
        installed is Ok <==> outcome is Ok,
        installed matches Err(error) ==> outcome matches Err(
            SetupError::Rejected { signal: rejected, reason },
        ) && rejected == signal && vstd::string::to_string_from_display_ensures::<std::io::Error>(
            &error,
            reason,
        ),
{
    match installed {
        Ok(()) => Ok(()),
        Err(error) => Err(SetupError::Rejected { signal, reason: error.to_string() }),
    }
}

impl MessageHandler {
    /// Only codes of messages ever reach the cell, from the owner or from a
    /// signal.
    #[verifier::type_invariant]
    spec fn holds_messages_only(self) -> bool {
        &&& Message::decode(cell_stored(self.cell)) is Ok
        &&& forall|signal: i32, code: usize| #[trigger]
            cell_bound(self.cell).contains((signal, code)) ==> Message::decode(code) is Ok
    }

    /// A mailbox that holds `Draw` and that no signal writes to.
    pub fn new() -> (handler: Self)
        ensures
            handler@ == Mailbox::fresh(),
    {
        let handler = MessageHandler { cell: cell_new(DRAW) };
        assert(handler@.bindings =~= Set::<Binding>::empty());
        handler
    }

    /// Loads the message that the mailbox holds at this moment, sequentially
    /// consistent and without blocking: the message that the owner stored
    /// last, or the message of a bound signal that has arrived since.
    ///
    /// The cell holds the code of a message at all times, so the arm for any
    /// other integer is proved dead. It maps such an integer to no message:
    /// it would end the call with a panic.
    pub fn message(&self) -> (found: Message)
        ensures
            self@.may_hold(found),
    {
        proof {
            use_type_invariant(self);
        }
        let code = cell_load(&self.cell);
        match Message::from_code(code) {
            Ok(found) => {
                assert(self@.may_hold(found)) by {
                    if code != cell_stored(self.cell) {
                        let signal = choose|signal: i32|
                            cell_bound(self.cell).contains((signal, code));
                        assert(self@.bindings.contains(Binding { signal, message: found }));
                    }
                }
                found
            },
            Err(_) => vstd::pervasive::unreached(),
        }
    }

    /// Stores `message` in the mailbox, sequentially consistent, without
    /// blocking and without unwinding. Whatever the mailbox held is
    /// overwritten.
    pub fn set_message(&mut self, message: Message)
        ensures
            final(self)@ == old(self)@.stored(message),
        no_unwind
    {
        proof {
            use_type_invariant(&*self);
        }
        cell_store(&mut self.cell, message.code());
        assert(self@.bindings =~= old(self)@.bindings);
    }

    /// One timer tick: loads the message once, decides the step that the state
    /// machine takes from it, stores the reply of that step if it has one, and
    /// returns the step, whose action is for the caller to carry out.
    pub fn tick(&mut self) -> (step: Transition)
        ensures
            old(self)@.may_hold(step.observed),
            step == Transition::of(step.observed),
            final(self)@ == old(self)@.ticked(step.observed),
    {
        let step = transition(self.message());
        match step.reply {
            Some(reply) => {
                self.set_message(reply);
            },
            None => {},
        }
        step
    }

    /// Binds `signal` to `message`: from now on, whenever the signal arrives,
    /// `message` is stored in the mailbox.
    ///
    /// A forbidden signal is turned down before the operating system is asked,
    /// and the mailbox is as it was. For any other signal the operating system
    /// decides. The binding counts from the call on even if the system reports
    /// an error: nothing is known then of whether the signal is bound.
    pub fn register(&mut self, signal: i32, message: Message) -> (outcome: Result<(), SetupError>)
        ensures
            forbidden(signal) ==> final(self)@ == old(self)@ && outcome == Err::<(), SetupError>(
                SetupError::Forbidden { signal },
            ),
            !forbidden(signal) ==> final(self)@ == old(self)@.bound(Binding { signal, message }),
            !forbidden(signal) ==> outcome is Ok || (outcome matches Err(error)
                && error.is_rejection_of(signal)),
    {
        if is_forbidden(signal) {
            return Err(SetupError::Forbidden { signal });
        }
        proof {
            use_type_invariant(&*self);
        }
        let installed = cell_register(signal, &mut self.cell, message.code());
        assert(self@.bindings =~= old(self)@.bindings.insert(Binding { signal, message }));
        registration_outcome(signal, installed)
    }

    /// A mailbox that holds `Draw`, with `hide_signal` bound to `Hide` and
    /// `show_signal` bound to `Show`, in this order. The first signal that
    /// cannot be bound ends the attempt.
    pub fn setup_with(hide_signal: i32, show_signal: i32) -> (outcome: Result<Self, SetupError>)
        ensures
            outcome matches Ok(handler) ==> handler@ == Mailbox::fresh().bound(
                Binding { signal: hide_signal, message: Message::Hide },
            ).bound(Binding { signal: show_signal, message: Message::Show })
                && !forbidden(hide_signal) && !forbidden(show_signal),
            forbidden(hide_signal) ==> outcome == Err::<Self, SetupError>(
                SetupError::Forbidden { signal: hide_signal },
            ),
            forbidden(show_signal) ==> outcome is Err,
            outcome matches Err(SetupError::Forbidden { signal }) ==> forbidden(signal) && (
                signal == hide_signal || (signal == show_signal && !forbidden(hide_signal))
            ),
            outcome matches Err(error) ==> error is Forbidden || (!forbidden(hide_signal)
                && error.is_rejection_of(hide_signal)) || (!forbidden(hide_signal) && !forbidden(
                show_signal,
            ) && error.is_rejection_of(show_signal)),
    {
        let mut handler = Self::new();
        match handler.register(hide_signal, Message::Hide) {
            Ok(()) => {},
            Err(error) => {
                return Err(error);
            },
        }
        match handler.register(show_signal, Message::Show) {
            Ok(()) => {},
            Err(error) => {
                return Err(error);
            },
        }
        Ok(handler)
    }

    /// A mailbox that holds `Draw`, with the first user-defined signal bound
    /// to `Hide` and the second bound to `Show`. Neither signal is forbidden,
    /// so the only failure is a rejection by the operating system.
    pub fn setup() -> (outcome: Result<Self, SetupError>)
        ensures
            outcome matches Ok(handler) ==> handler@ == Mailbox::fresh().bound(
                Binding { signal: SIGUSR1, message: Message::Hide },
            ).bound(Binding { signal: SIGUSR2, message: Message::Show }),
            outcome matches Err(error) ==> error.is_rejection_of(SIGUSR1) || error.is_rejection_of(
                SIGUSR2,
            ),
    {
        Self::setup_with(sigusr1(), sigusr2())
    }
}

} // verus!
