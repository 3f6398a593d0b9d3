//! The mailbox over time, as a sequence of events that happen one after the
//! other: stores, by a signal or by the user interface, and timer ticks.
//!
//! A store is atomic, so however the writers interleave there is an order in
//! which their stores took effect, and a tick finds what the last of them left.
//! The functions here say what the mailbox holds after such a sequence and
//! which steps its ticks took. The laws of the mailbox are stated over them,
//! and `lemma_handler_follows_timeline` ties them to the contracts of the
//! handler: while no signal arrives, a store and a tick through the handler
//! are the two events of this file.

use vstd::prelude::*;

use crate::message::Binding;
use crate::message::Mailbox;
use crate::message::Message;
use crate::visibility::Action;
use crate::visibility::Transition;

verus! {

/// Something that happens to the mailbox.
#[derive(Clone, Copy, Debug, PartialEq, Eq, Structural)]
pub enum Event {
    /// A message is stored, by a signal or by the user interface.
    Store(Message),
    /// The timer ticks.
    Tick,
}

/// What the mailbox holds after `event`, if it held `mailbox` before.
pub open spec fn after(mailbox: Message, event: Event) -> Message {
    match event {
        Event::Store(message) => message,
        Event::Tick => mailbox.successor(),
    }
}

/// What the mailbox holds after `events`, if it held `initial` before.
pub open spec fn mailbox_after(initial: Message, events: Seq<Event>) -> Message
    decreases events.len(),
{
    if events.len() == 0 {
        initial
    } else {
        after(mailbox_after(initial, events.drop_last()), events.last())
    }
}

/// The steps that the ticks among `events` take, in order, if the mailbox held
/// `initial` before.
pub open spec fn steps_during(initial: Message, events: Seq<Event>) -> Seq<Transition>
    decreases events.len(),
{
    if events.len() == 0 {
        Seq::empty()
    } else {
        let earlier = steps_during(initial, events.drop_last());
        match events.last() {
            Event::Store(_) => earlier,
            Event::Tick => earlier.push(
                Transition::of(mailbox_after(initial, events.drop_last())),
            ),
        }
    }
}

/// The events in which the messages of `writes` are stored one after the other.
pub open spec fn stores(writes: Seq<Message>) -> Seq<Event> {
    Seq::new(writes.len(), |i: int| Event::Store(writes[i]))
}

/// The events in which the timer ticks `count` times.
pub open spec fn ticks(count: nat) -> Seq<Event> {
    Seq::new(count, |i: int| Event::Tick)
}

/// The last write wins. After any number of stores, at least one, the mailbox
/// holds the message that was stored last, whatever it held before and
/// whatever was stored earlier, and no step was taken.
pub proof fn lemma_last_write_wins(initial: Message, writes: Seq<Message>)
    requires
        writes.len() > 0,
    ensures
        mailbox_after(initial, stores(writes)) == writes.last(),
        steps_during(initial, stores(writes)) == Seq::<Transition>::empty(),
    decreases writes.len(),
{
    let events = stores(writes);
    assert(events.drop_last() == stores(writes.drop_last()));
    if writes.len() > 1 {
        lemma_last_write_wins(initial, writes.drop_last());
    } else {
        assert(steps_during(initial, events.drop_last()) == Seq::<Transition>::empty());
    }
}

/// A settled mailbox stays settled. While the mailbox holds `Draw` or `Idle`,
/// the two messages that call for no reply, any number of ticks leaves it as
/// it is, and every one of them takes the same step, which stores nothing.
pub proof fn lemma_settled_ticks(message: Message, count: nat)
    requires
        message == Message::Draw || message == Message::Idle,
    ensures
        mailbox_after(message, ticks(count)) == message,
        steps_during(message, ticks(count)) == Seq::new(
            count,
            |i: int| Transition::of(message),
        ),
        Transition::of(message).reply is None,
    decreases count,
{
    let events = ticks(count);
    if count > 0 {
        let fewer = (count - 1) as nat;
        assert(events.drop_last() == ticks(fewer));
        lemma_settled_ticks(message, fewer);
    }
    assert(steps_during(message, events) == Seq::new(count, |i: int| Transition::of(message)));
}

/// Ticking an idle mailbox has no effect. After any number of ticks it is
/// still idle, and every tick called for no action and stored nothing.
pub proof fn lemma_idle_ticks_do_nothing(count: nat)
    ensures
        mailbox_after(Message::Idle, ticks(count)) == Message::Idle,
        steps_during(Message::Idle, ticks(count)).len() == count,
        forall|i: int|
            0 <= i < count ==> {
                let step = #[trigger] steps_during(Message::Idle, ticks(count))[i];
                step.observed == Message::Idle && step.action == Action::Nothing && step.reply
                    is None
            },
{
    lemma_settled_ticks(Message::Idle, count);
}

/// Signals coalesce. However many messages are stored before the next tick,
/// at least one, that tick takes one step only, the step from the message
/// stored last, and leaves the successor of that message in the mailbox.
pub proof fn lemma_stores_coalesce(initial: Message, writes: Seq<Message>)
    requires
        writes.len() > 0,
    ensures
        steps_during(initial, stores(writes).push(Event::Tick)) == seq![
            Transition::of(writes.last()),
        ],
        mailbox_after(initial, stores(writes).push(Event::Tick)) == writes.last().successor(),
{
    let events = stores(writes).push(Event::Tick);
    assert(events.drop_last() == stores(writes));
    lemma_last_write_wins(initial, writes);
    assert(steps_during(initial, events) == seq![Transition::of(writes.last())]);
}

/// A request is served once. From a mailbox that holds `Hide` or `Show`, the
/// first tick carries the request out and any number of further ticks find
/// the mailbox settled: none of them hides or shows the popup again.
pub proof fn lemma_request_served_once(request: Message, further: nat)
    requires
        request == Message::Hide || request == Message::Show,
    ensures
        steps_during(request, ticks(further + 1)) == seq![Transition::of(request)]
            + Seq::new(further, |i: int| Transition::of(request.successor())),
        mailbox_after(request, ticks(further + 1)) == request.successor(),
        Transition::of(request.successor()).action != Action::Hide,
        Transition::of(request.successor()).action != Action::Show,
    decreases further,
{
    let count = further + 1;
    let events = ticks(count);
    let expected = seq![Transition::of(request)] + Seq::new(
        further,
        |i: int| Transition::of(request.successor()),
    );
    assert(events.drop_last() == ticks(further));
    if further > 0 {
        lemma_request_served_once(request, (further - 1) as nat);
    } else {
        assert(steps_during(request, events.drop_last()) == Seq::<Transition>::empty());
    }
    assert(steps_during(request, events) == expected);
}

/// The mailbox as its owner knows it after `events`, if no signal arrived in
/// the meantime: every store is a call of `set_message`, and every tick is a
/// call of `tick` that found what the owner had stored last.
pub open spec fn undisturbed(mailbox: Mailbox, events: Seq<Event>) -> Mailbox
    decreases events.len(),
{
    if events.len() == 0 {
        mailbox
    } else {
        let before = undisturbed(mailbox, events.drop_last());
        match events.last() {
            Event::Store(message) => before.stored(message),
            Event::Tick => before.ticked(before.held),
        }
    }
}

/// The handler follows the timeline. While no signal arrives, whatever
/// signals are bound, the calls of `set_message` and `tick` leave the mailbox
/// holding what the timeline says their events leave, and leave the bindings
/// as they were. So what the laws above say of a sequence of events holds of
/// the same sequence of calls.
pub proof fn lemma_handler_follows_timeline(mailbox: Mailbox, events: Seq<Event>)
    ensures
        undisturbed(mailbox, events) == (Mailbox {
            held: mailbox_after(mailbox.held, events),
            bindings: mailbox.bindings,
        }),
    decreases events.len(),
{
    if events.len() > 0 {
        lemma_handler_follows_timeline(mailbox, events.drop_last());
    }
}

/// No binding, no surprise. On a mailbox that no signal is bound to, a read
/// finds what the owner stored last, and so does every tick: such a mailbox is
/// never disturbed.
pub proof fn lemma_quiet_mailbox(mailbox: Mailbox, found: Message)
    requires
        mailbox.bindings == Set::<Binding>::empty(),
        mailbox.may_hold(found),
    ensures
        found == mailbox.held,
{
}

/// A read after a write finds what was written, or a signal's message. After
/// any number of stores by the owner, at least one, a read finds the message
/// stored last unless a bound signal has arrived since, and then it finds the
/// message of such a signal.
pub proof fn lemma_read_after_write(mailbox: Mailbox, writes: Seq<Message>, found: Message)
    requires
        writes.len() > 0,
        undisturbed(mailbox, stores(writes)).may_hold(found),
    ensures
        undisturbed(mailbox, stores(writes)).held == writes.last(),
        found == writes.last() || exists|signal: i32|
            mailbox.bindings.contains(Binding { signal, message: found }),
{
    lemma_handler_follows_timeline(mailbox, stores(writes));
    lemma_last_write_wins(mailbox.held, writes);
}

/// Ticking an idle mailbox leaves it as it is. Whatever signals are bound,
/// while none arrives any number of ticks leaves the mailbox idle and the
/// bindings as they were, and every tick calls for no action.
pub proof fn lemma_idle_mailbox_stays_idle(mailbox: Mailbox, count: nat)
    requires
        mailbox.held == Message::Idle,
    ensures
        undisturbed(mailbox, ticks(count)) == mailbox,
        steps_during(mailbox.held, ticks(count)) == Seq::new(
            count,
            |i: int| Transition::of(Message::Idle),
        ),
        Transition::of(Message::Idle).action == Action::Nothing,
{
    lemma_handler_follows_timeline(mailbox, ticks(count));
    lemma_settled_ticks(Message::Idle, count);
}

/// Stores before a tick coalesce in the handler. Whatever signals are bound,
/// while none arrives a tick after any number of stores, at least one, takes
/// the one step from the message stored last and leaves its successor.
pub proof fn lemma_writes_coalesce(mailbox: Mailbox, writes: Seq<Message>)
    requires
        writes.len() > 0,
    ensures
        undisturbed(mailbox, stores(writes).push(Event::Tick)) == (Mailbox {
            held: writes.last().successor(),
            bindings: mailbox.bindings,
        }),
        steps_during(mailbox.held, stores(writes).push(Event::Tick)) == seq![
            Transition::of(writes.last()),
        ],
{
    lemma_handler_follows_timeline(mailbox, stores(writes).push(Event::Tick));
    lemma_stores_coalesce(mailbox.held, writes);
}

/// A request is acknowledged whoever made it. A tick that finds `Hide` or
/// `Show`, stored by the owner or by a signal, leaves the mailbox holding the
/// successor of the request, which is no request, and leaves the bindings as
/// they were.
pub proof fn lemma_tick_serves_request(mailbox: Mailbox, observed: Message)
    requires
        mailbox.may_hold(observed),
        observed == Message::Hide || observed == Message::Show,
    ensures
        mailbox.ticked(observed).held == after(observed, Event::Tick),
        mailbox.ticked(observed).held == Message::Idle || mailbox.ticked(observed).held
            == Message::Draw,
        mailbox.ticked(observed).bindings == mailbox.bindings,
{
}

} // verus!
