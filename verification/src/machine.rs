//! The two-state idle machine: events, the flag they drive, and the
//! callback invocations they trigger.

use vstd::prelude::*;

verus! {

/// A wire event on the notification session. The protocol version in use
/// defines exactly these two kinds, so the type is a closed sum with no
/// fallback variant.
#[derive(Clone, Copy, PartialEq, Eq, Structural, Debug)]
pub enum IdleEvent {
    /// The seat has seen no qualifying input for the configured timeout.
    Idled,
    /// Qualifying input arrived after an `Idled` event.
    Resumed,
}

/// Which registered callback slot an event fires.
#[derive(Clone, Copy, PartialEq, Eq, Structural, Debug)]
pub enum CallbackKind {
    OnIdled,
    OnResumed,
}

/// The flag value an event drives the machine to, regardless of the
/// current flag: `Idled` sets it, `Resumed` clears it.
pub open spec fn step_flag(flag: bool, e: IdleEvent) -> bool {
    match e {
        IdleEvent::Idled => true,
        IdleEvent::Resumed => false,
    }
}

/// The idle flag after the machine, started on `false`, has processed
/// `events` in order.
pub open spec fn flag_after(events: Seq<IdleEvent>) -> bool
    decreases events.len(),
{
    if events.len() == 0 {
        false
    } else {
        step_flag(flag_after(events.drop_last()), events.last())
    }
}

/// The callback slot a single event fires, given which slots are
/// registered: the matching slot when it is registered, none otherwise.
pub open spec fn callback_for(e: IdleEvent, on_idled: bool, on_resumed: bool) -> Option<
    CallbackKind,
> {
    match e {
        IdleEvent::Idled => if on_idled {
            Some(CallbackKind::OnIdled)
        } else {
            None
        },
        IdleEvent::Resumed => if on_resumed {
            Some(CallbackKind::OnResumed)
        } else {
            None
        },
    }
}

/// The callback invocations a single event triggers: one when the matching
/// slot is registered, none otherwise.
pub open spec fn fired_by(e: IdleEvent, on_idled: bool, on_resumed: bool) -> Seq<CallbackKind> {
    match callback_for(e, on_idled, on_resumed) {
        Some(k) => seq![k],
        None => Seq::empty(),
    }
}

/// The full sequence of callback invocations after processing `events` in
/// order, given which slots are registered.
pub open spec fn fired_after(events: Seq<IdleEvent>, on_idled: bool, on_resumed: bool) -> Seq<
    CallbackKind,
>
    decreases events.len(),
{
    if events.len() == 0 {
        Seq::empty()
    } else {
        fired_after(events.drop_last(), on_idled, on_resumed) + fired_by(
            events.last(),
            on_idled,
            on_resumed,
        )
    }
}

/// The flag after a sequence of events is set exactly when the most recent
/// event is `Idled`; before any event it is clear.
pub proof fn lemma_flag_is_last_event(events: Seq<IdleEvent>)
    ensures
        flag_after(events) <==> (events.len() > 0 && events.last() is Idled),
{
}

/// Callback invocations compose over concatenation of event sequences:
/// the invocations for the later events follow those for the earlier
/// events, unchanged.
pub proof fn lemma_fired_append(a: Seq<IdleEvent>, b: Seq<IdleEvent>, on_idled: bool, on_resumed: bool)
    ensures
        fired_after(a + b, on_idled, on_resumed) == fired_after(a, on_idled, on_resumed)
            + fired_after(b, on_idled, on_resumed),
    decreases b.len(),
{
    if b.len() == 0 {
        assert(a + b =~= a);
        assert(fired_after(a, on_idled, on_resumed) + fired_after(b, on_idled, on_resumed)
            =~= fired_after(a, on_idled, on_resumed));
    } else {
        lemma_fired_append(a, b.drop_last(), on_idled, on_resumed);
        assert((a + b).drop_last() =~= a + b.drop_last());
        assert((a + b).last() == b.last());
        assert(fired_after(a, on_idled, on_resumed) + (fired_after(
            b.drop_last(),
            on_idled,
            on_resumed,
        ) + fired_by(b.last(), on_idled, on_resumed)) =~= (fired_after(a, on_idled, on_resumed)
            + fired_after(b.drop_last(), on_idled, on_resumed)) + fired_by(
            b.last(),
            on_idled,
            on_resumed,
        ));
    }
}

/// Callbacks fire in the order of their triggering events: the
/// invocations for a prefix of the event history are a prefix of the
/// invocations for the whole history, in the same relative order.
pub proof fn lemma_callback_order(
    a: Seq<IdleEvent>,
    b: Seq<IdleEvent>,
    on_idled: bool,
    on_resumed: bool,
)
    requires
        a.is_prefix_of(b),
    ensures
        fired_after(a, on_idled, on_resumed).is_prefix_of(
            fired_after(b, on_idled, on_resumed),
        ),
{
    let rest = b.skip(a.len() as int);
    assert(b =~= a + rest);
    lemma_fired_append(a, rest, on_idled, on_resumed);
}

/// Repeated `Idled` events are not suppressed: after two consecutive
/// `Idled` events the flag is set, and with the on-idled slot registered
/// each of the two fires that callback once more, in order.
pub proof fn lemma_repeated_idled(events: Seq<IdleEvent>, on_idled: bool, on_resumed: bool)
    ensures
        flag_after(events.push(IdleEvent::Idled).push(IdleEvent::Idled)),
        on_idled ==> fired_after(
            events.push(IdleEvent::Idled).push(IdleEvent::Idled),
            on_idled,
            on_resumed,
        ) == fired_after(events, on_idled, on_resumed) + seq![
            CallbackKind::OnIdled,
            CallbackKind::OnIdled,
        ],
{
    let once = events.push(IdleEvent::Idled);
    let twice = once.push(IdleEvent::Idled);
    assert(twice.drop_last() =~= once);
    assert(once.drop_last() =~= events);
    if on_idled {
        assert(fired_after(once, on_idled, on_resumed) == fired_after(events, on_idled, on_resumed)
            + seq![CallbackKind::OnIdled]);
        assert((fired_after(events, on_idled, on_resumed) + seq![CallbackKind::OnIdled]) + seq![
            CallbackKind::OnIdled,
        ] =~= fired_after(events, on_idled, on_resumed) + seq![
            CallbackKind::OnIdled,
            CallbackKind::OnIdled,
        ]);
    }
}

} // verus!
