use idle_notifier::CallbackKind;
use idle_notifier::ConstructError;
use idle_notifier::GlobalDescriptor;
use idle_notifier::IdleEvent;
use idle_notifier::IdleNotifier;
use idle_notifier::IdleNotifierOptions;
use idle_notifier::plan_bindings;

fn descriptor(interface: &str, version: u32) -> GlobalDescriptor {
    GlobalDescriptor { interface: interface.to_owned(), version }
}

fn full_globals() -> Vec<GlobalDescriptor> {
    vec![
        descriptor("wl_compositor", 6),
        descriptor("ext_idle_notifier_v1", 2),
        descriptor("wl_seat", 9),
    ]
}

#[test]
fn construction_fails_without_idle_notifier() {
    let globals = vec![descriptor("wl_compositor", 6), descriptor("wl_seat", 9)];
    let opts = IdleNotifierOptions { timeout_ms: 5000, on_idled: true, on_resumed: true };
    let r = IdleNotifier::new(&globals, &opts);
    assert!(matches!(r, Err(ConstructError::CapabilityMissing)));
}

#[test]
fn construction_fails_without_seat() {
    let globals = vec![descriptor("ext_idle_notifier_v1", 1)];
    let opts = IdleNotifierOptions { timeout_ms: 5000, on_idled: false, on_resumed: false };
    let r = IdleNotifier::new(&globals, &opts);
    assert!(matches!(r, Err(ConstructError::SeatMissing)));
}

#[test]
fn capability_is_checked_before_seat() {
    let globals: Vec<GlobalDescriptor> = Vec::new();
    let r = plan_bindings(&globals, 1000);
    assert!(matches!(r, Err(ConstructError::CapabilityMissing)));
}

#[test]
fn construction_error_messages() {
    assert_eq!(
        ConstructError::CapabilityMissing.message(),
        "ext_idle_notifier_v1 is not supported by the compositor"
    );
    assert_eq!(ConstructError::SeatMissing.message(), "no wl_seat found in global list");
}

#[test]
fn seat_binds_at_advertised_version_notifier_at_one() {
    let plan = plan_bindings(&full_globals(), 750).unwrap();
    assert_eq!(plan.seat_version, 9);
    assert_eq!(plan.notifier_version, 1);
    assert_eq!(plan.timeout_ms, 750);
}

#[test]
fn first_seat_version_wins() {
    let globals = vec![
        descriptor("ext_idle_notifier_v1", 1),
        descriptor("wl_seat", 3),
        descriptor("wl_seat", 5),
    ];
    let plan = plan_bindings(&globals, 1).unwrap();
    assert_eq!(plan.seat_version, 3);
}

#[test]
fn idled_event_sets_flag_and_fires_once() {
    let opts = IdleNotifierOptions { timeout_ms: 5000, on_idled: true, on_resumed: false };
    let mut session = IdleNotifier::new(&full_globals(), &opts).unwrap();
    assert!(!session.is_idle());
    let fired = session.process_event(IdleEvent::Idled);
    assert_eq!(fired, Some(CallbackKind::OnIdled));
    assert!(session.is_idle());
}

#[test]
fn resumed_without_callback_is_noop() {
    let opts = IdleNotifierOptions { timeout_ms: 5000, on_idled: true, on_resumed: false };
    let mut session = IdleNotifier::new(&full_globals(), &opts).unwrap();
    let fired = session.process_event(IdleEvent::Idled);
    assert_eq!(fired, Some(CallbackKind::OnIdled));
    let fired = session.process_event(IdleEvent::Resumed);
    assert_eq!(fired, None);
    assert!(!session.is_idle());
}

#[test]
fn repeated_idled_fires_twice() {
    let opts = IdleNotifierOptions { timeout_ms: 200, on_idled: true, on_resumed: true };
    let mut session = IdleNotifier::new(&full_globals(), &opts).unwrap();
    let first = session.process_event(IdleEvent::Idled);
    let second = session.process_event(IdleEvent::Idled);
    assert_eq!(first, Some(CallbackKind::OnIdled));
    assert_eq!(second, Some(CallbackKind::OnIdled));
    assert!(session.is_idle());
}

#[test]
fn flag_tracks_most_recent_event() {
    let opts = IdleNotifierOptions { timeout_ms: 30000, on_idled: false, on_resumed: false };
    let mut session = IdleNotifier::new(&full_globals(), &opts).unwrap();
    let events = [IdleEvent::Idled, IdleEvent::Resumed, IdleEvent::Resumed, IdleEvent::Idled];
    let expected = [true, false, false, true];
    for (event, want) in events.iter().zip(expected.iter()) {
        let fired = session.process_event(*event);
        assert_eq!(fired, None);
        assert_eq!(session.is_idle(), *want);
    }
}

#[test]
fn query_reflects_processed_prefix() {
    let opts = IdleNotifierOptions { timeout_ms: 1000, on_idled: true, on_resumed: true };
    let mut session = IdleNotifier::new(&full_globals(), &opts).unwrap();
    assert!(!session.is_idle());
    assert!(!session.is_idle());
    session.process_event(IdleEvent::Idled);
    assert!(session.is_idle());
    assert!(session.is_idle());
    session.process_event(IdleEvent::Resumed);
    assert!(!session.is_idle());
}
