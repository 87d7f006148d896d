//! The idle-notification session: constructed once from a snapshot of the
//! compositor's globals, then driven by wire events. It owns the idle flag
//! and decides, for each event, the new flag value and which registered
//! callback slot to fire; the dispatch loop that receives the events and
//! the host-side callback objects live outside the library.

use vstd::prelude::*;
use crate::binder::BindPlan;
use crate::binder::ConstructError;
use crate::binder::GlobalDescriptor;
use crate::binder::find_version;
use crate::binder::has_global;
use crate::binder::idle_notifier_interface;
use crate::binder::plan_bindings;
use crate::binder::seat_interface;
use crate::machine::CallbackKind;
use crate::machine::IdleEvent;
use crate::machine::callback_for;
use crate::machine::fired_after;
use crate::machine::fired_by;
use crate::machine::flag_after;
use crate::machine::step_flag;

verus! {

/// Construction-time configuration: the idle threshold handed to the
/// compositor, and which of the two callback slots the caller registered.
/// The callback procedures themselves stay with the host; the session only
/// records whether each slot is occupied and reports which one an event
/// fires.
pub struct IdleNotifierOptions {
    /// Milliseconds of seat inactivity after which the compositor emits
    /// `Idled`.
    pub timeout_ms: u32,
    /// Whether an on-idled callback is registered.
    pub on_idled: bool,
    /// Whether an on-resumed callback is registered.
    pub on_resumed: bool,
}

/// A constructed idle-notification session. `events` and `fired` are the
/// ghost histories of the wire events processed so far and of the callback
/// invocations they triggered; the executable state is the idle flag, the
/// immutable callback registration, and the binding plan.
pub struct IdleNotifier {
    /// The idle flag: set while the seat is idle, the sole value the query
    /// facade reports.
    pub idle: bool,
    /// Whether an on-idled callback is registered (fixed at construction).
    pub on_idled: bool,
    /// Whether an on-resumed callback is registered (fixed at construction).
    pub on_resumed: bool,
    /// The versions and timeout the session was bound with (fixed at
    /// construction).
    pub plan: BindPlan,
    /// Every wire event processed so far, in order of receipt.
    pub events: Ghost<Seq<IdleEvent>>,
    /// Every callback invocation triggered so far, in order.
    pub fired: Ghost<Seq<CallbackKind>>,
}

impl IdleNotifier {
    /// The session's invariant: the idle flag is exactly the flag the
    /// machine reaches after the processed events, and the recorded
    /// invocations are exactly those the events trigger.
    pub open spec fn wf(self) -> bool {
        &&& self.idle == flag_after(self.events@)
        &&& self.fired@ == fired_after(self.events@, self.on_idled, self.on_resumed)
    }

    /// Constructs a session from the advertised globals and the caller's
    /// options. Succeeds exactly when the idle notifier and a seat are
    /// advertised; on failure nothing is retained, no event is ever
    /// processed and no callback ever fires. On success the session starts
    /// active with empty histories, bound as `plan_bindings` decides.
    pub fn new(globals: &Vec<GlobalDescriptor>, opts: &IdleNotifierOptions) -> (r: Result<
        IdleNotifier,
        ConstructError,
    >)
        ensures
            r is Ok <==> (has_global(globals@, idle_notifier_interface()) && has_global(
                globals@,
                seat_interface(),
            )),
            r matches Err(e) ==> (e is CapabilityMissing <==> !has_global(
                globals@,
                idle_notifier_interface(),
            )),
            r matches Err(e) ==> (e is SeatMissing <==> (has_global(
                globals@,
                idle_notifier_interface(),
            ) && !has_global(globals@, seat_interface()))),
            r matches Ok(n) ==> n.wf() && n.events@ == Seq::<IdleEvent>::empty() && n.fired@
                == Seq::<CallbackKind>::empty() && !n.idle && n.on_idled == opts.on_idled
                && n.on_resumed == opts.on_resumed && n.plan.notifier_version == 1 && Some(
                n.plan.seat_version,
            ) == find_version(globals@, seat_interface()) && n.plan.timeout_ms == opts.timeout_ms,
    {
        let plan = match plan_bindings(globals, opts.timeout_ms) {
            Ok(p) => p,
            Err(e) => {
                return Err(e);
            },
        };
        Ok(
            IdleNotifier {
                idle: false,
                on_idled: opts.on_idled,
                on_resumed: opts.on_resumed,
                plan,
                events: Ghost(Seq::empty()),
                fired: Ghost(Seq::empty()),
            },
        )
    }

    /// Processes one wire event from the notification session: records it,
    /// drives the flag to the value the event dictates (idempotently — a
    /// repeated event leaves the flag as it is but still fires its
    /// callback), and returns which registered callback slot to invoke, or
    /// `None` when the event's slot is unregistered.
    pub fn process_event(&mut self, e: IdleEvent) -> (r: Option<CallbackKind>)
        requires
            old(self).wf(),
        ensures
            final(self).wf(),
            final(self).events@ == old(self).events@.push(e),
            final(self).idle == (e is Idled),
            final(self).idle == step_flag(old(self).idle, e),
            final(self).on_idled == old(self).on_idled,
            final(self).on_resumed == old(self).on_resumed,
            final(self).plan == old(self).plan,
            r == callback_for(e, old(self).on_idled, old(self).on_resumed),
            final(self).fired@ == old(self).fired@ + fired_by(
                e,
                old(self).on_idled,
                old(self).on_resumed,
            ),
    {
        let (flag, cb): (bool, Option<CallbackKind>) = match e {
            IdleEvent::Idled => (
                true,
                if self.on_idled {
                    Some(CallbackKind::OnIdled)
                } else {
                    None
                },
            ),
            IdleEvent::Resumed => (
                false,
                if self.on_resumed {
                    Some(CallbackKind::OnResumed)
                } else {
                    None
                },
            ),
        };
        self.idle = flag;
        proof {
            let es = self.events@;
            assert(es.push(e).drop_last() =~= es);
            assert(es.push(e).last() == e);
        }
        self.events = Ghost(self.events@.push(e));
        self.fired = Ghost(
            self.fired@ + fired_by(e, self.on_idled, self.on_resumed),
        );
        cb
    }

    /// The query facade: reports the current idle flag — set exactly when
    /// the most recent processed event is `Idled`, clear before any event.
    pub fn is_idle(&self) -> (r: bool)
        requires
            self.wf(),
        ensures
            r == self.idle,
            r == flag_after(self.events@),
    {
        self.idle
    }
}

} // verus!
