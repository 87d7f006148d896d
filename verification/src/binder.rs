//! The capability binder: from a one-shot snapshot of the globals the
//! compositor advertises, decide whether a session can be constructed and
//! at which version each required global is bound.

use vstd::prelude::*;
use wayland_client::Proxy;
use wayland_client::protocol::wl_seat::WlSeat;
use wayland_protocols::ext::idle_notify::v1::client::ext_idle_notifier_v1::ExtIdleNotifierV1;

verus! {

/// One advertised global: its interface name and the version the
/// compositor offers. Enumerated once at connection time, consumed by the
/// binder, never mutated.
pub struct GlobalDescriptor {
    pub interface: String,
    pub version: u32,
}

/// Why construction failed. Each failure is terminal: no partial session
/// is retained and no dispatch work ever starts.
#[derive(Clone, Copy, PartialEq, Eq, Structural, Debug)]
pub enum ConstructError {
    /// The compositor does not advertise the idle-notifier interface.
    CapabilityMissing,
    /// The compositor advertises no input seat.
    SeatMissing,
}

/// The binder's decision: the versions at which to bind the two required
/// globals, and the idle timeout to request on the notification session.
#[derive(Clone, Copy, PartialEq, Eq, Structural, Debug)]
pub struct BindPlan {
    /// The seat is bound at the version the compositor advertises.
    pub seat_version: u32,
    /// The idle notifier is always bound at version 1, whatever the
    /// compositor advertises.
    pub notifier_version: u32,
    /// Milliseconds of seat inactivity after which the compositor emits
    /// `Idled`.
    pub timeout_ms: u32,
}

/// The interface name of the idle-notifier global.
pub open spec fn idle_notifier_interface() -> Seq<char> {
    "ext_idle_notifier_v1"@
}

/// The interface name of the input-seat global.
pub open spec fn seat_interface() -> Seq<char> {
    "wl_seat"@
}

/// The advertised version of the first global at or after index `i` whose
/// interface is `name`, or `None` when no such global follows.
pub open spec fn find_version_from(
    globals: Seq<GlobalDescriptor>,
    name: Seq<char>,
    i: int,
) -> Option<u32>
    decreases globals.len() - i,
{
    if i < 0 || i >= globals.len() {
        None
    } else if globals[i].interface@ == name {
        Some(globals[i].version)
    } else {
        find_version_from(globals, name, i + 1)
    }
}

/// The advertised version of the first global whose interface is `name`.
pub open spec fn find_version(globals: Seq<GlobalDescriptor>, name: Seq<char>) -> Option<u32> {
    find_version_from(globals, name, 0)
}

/// Whether some advertised global has the interface `name`.
pub open spec fn has_global(globals: Seq<GlobalDescriptor>, name: Seq<char>) -> bool {
    find_version(globals, name) is Some
}

/// A global with interface `name` is found exactly when one exists in the
/// snapshot.
pub proof fn lemma_has_global_exists(globals: Seq<GlobalDescriptor>, name: Seq<char>)
    ensures
        has_global(globals, name) <==> (exists|i: int|
            0 <= i < globals.len() && globals[i].interface@ == name),
{
    lemma_find_version_from_exists(globals, name, 0);
}

proof fn lemma_find_version_from_exists(globals: Seq<GlobalDescriptor>, name: Seq<char>, i: int)
    requires
        0 <= i <= globals.len(),
    ensures
        find_version_from(globals, name, i) is Some <==> (exists|j: int|
            i <= j < globals.len() && globals[j].interface@ == name),
    decreases globals.len() - i,
{
    if i < globals.len() {
        lemma_find_version_from_exists(globals, name, i + 1);
        if globals[i].interface@ == name {
            assert(i <= i < globals.len() && globals[i].interface@ == name);
        }
    }
}

/// Relies on `wayland_client::protocol::wl_seat::WlSeat::interface`: the
/// seat's interface descriptor, whose `name` field the protocol definition
/// fixes as `"wl_seat"`.
#[verifier::external_body]
fn seat_interface_name() -> (r: String)
    ensures
        r@ == seat_interface(),
{
    WlSeat::interface().name.to_owned()
}

/// Relies on
/// `wayland_protocols::ext::idle_notify::v1::client::ext_idle_notifier_v1::ExtIdleNotifierV1::interface`:
/// the idle notifier's interface descriptor, whose `name` field the
/// protocol definition fixes as `"ext_idle_notifier_v1"`.
#[verifier::external_body]
fn idle_notifier_interface_name() -> (r: String)
    ensures
        r@ == idle_notifier_interface(),
{
    ExtIdleNotifierV1::interface().name.to_owned()
}

/// Scans the snapshot for the first global named `name` and returns its
/// advertised version.
fn lookup_version(globals: &Vec<GlobalDescriptor>, name: &String) -> (r: Option<u32>)
    ensures
        r == find_version(globals@, name@),
{
    let n = globals.len();
    let mut i: usize = 0;
    while i < n
        invariant
            n == globals@.len(),
            0 <= i <= n,
            find_version(globals@, name@) == find_version_from(globals@, name@, i as int),
        decreases n - i,
    {
        if globals[i].interface == *name {
            return Some(globals[i].version);
        }
        i = i + 1;
    }
    None
}

/// Decides whether a session can be constructed from the advertised
/// globals, and at which versions to bind. The idle notifier must be
/// advertised (else the capability is missing) and a seat must be present
/// (else the seat is missing); the seat binds at its advertised version,
/// the notifier always at version 1, and the notification session carries
/// `timeout_ms`.
pub fn plan_bindings(globals: &Vec<GlobalDescriptor>, timeout_ms: u32) -> (r: Result<
    BindPlan,
    ConstructError,
>)
    ensures
        r is Ok <==> (has_global(globals@, idle_notifier_interface()) && has_global(
            globals@,
            seat_interface(),
        )),
        r matches Ok(p) ==> p.notifier_version == 1 && Some(p.seat_version) == find_version(
            globals@,
            seat_interface(),
        ) && p.timeout_ms == timeout_ms,
        r matches Err(e) ==> (e is CapabilityMissing <==> !has_global(
            globals@,
            idle_notifier_interface(),
        )),
        r matches Err(e) ==> (e is SeatMissing <==> (has_global(
            globals@,
            idle_notifier_interface(),
        ) && !has_global(globals@, seat_interface()))),
{
    let notifier_name = idle_notifier_interface_name();
    if lookup_version(globals, &notifier_name).is_none() {
        return Err(ConstructError::CapabilityMissing);
    }
    let seat_name = seat_interface_name();
    match lookup_version(globals, &seat_name) {
        None => Err(ConstructError::SeatMissing),
        Some(seat_version) => Ok(
            BindPlan { seat_version, notifier_version: 1, timeout_ms },
        ),
    }
}

impl ConstructError {
    /// The diagnostic message reported to the constructing caller.
    pub fn message(&self) -> (r: String)
        ensures
            self is CapabilityMissing ==> r@ == "ext_idle_notifier_v1 is not supported by the compositor"@,
            self is SeatMissing ==> r@ == "no wl_seat found in global list"@,
    {
        match self {
            ConstructError::CapabilityMissing => "ext_idle_notifier_v1 is not supported by the compositor".to_owned(),
            ConstructError::SeatMissing => "no wl_seat found in global list".to_owned(),
        }
    }
}

} // verus!
