//! Client-side idle detection for a compositor's idle-notification protocol.
//!
//! The library holds the verified core: the capability binder that decides,
//! from a snapshot of advertised globals, whether a session can be
//! constructed and at which versions to bind; the two-state idle machine
//! driven by `Idled` and `Resumed` wire events; and the query facade that
//! reports the current idle flag. The transport, the dispatch thread and the
//! host-side callback objects live outside the library, which hands them
//! plain decisions: which globals to bind, and which callback slot to fire
//! after each event.

mod binder;
mod machine;
mod notifier;

pub use binder::BindPlan;
pub use binder::ConstructError;
pub use binder::GlobalDescriptor;
pub use binder::find_version;
pub use binder::find_version_from;
pub use binder::has_global;
pub use binder::idle_notifier_interface;
pub use binder::lemma_has_global_exists;
pub use binder::plan_bindings;
pub use binder::seat_interface;
pub use machine::CallbackKind;
pub use machine::IdleEvent;
pub use machine::callback_for;
pub use machine::fired_after;
pub use machine::fired_by;
pub use machine::flag_after;
pub use machine::lemma_callback_order;
pub use machine::lemma_fired_append;
pub use machine::lemma_flag_is_last_event;
pub use machine::lemma_repeated_idled;
pub use machine::step_flag;
pub use notifier::IdleNotifier;
pub use notifier::IdleNotifierOptions;
