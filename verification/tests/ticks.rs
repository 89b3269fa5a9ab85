use ecs_core::change_detection::DetectChanges;
use ecs_core::change_detection::Mut;
use ecs_core::change_detection::NonSend;
use ecs_core::change_detection::NonSendMut;
use ecs_core::change_detection::Res;
use ecs_core::change_detection::ResMut;
use ecs_core::change_detection::SetChanged;
use ecs_core::tick::TickContext;
use ecs_core::tick::TickPair;

/// `added = 10` under context `(10, 20)` is not added (10 is not strictly
/// after 10); `added = 11` under the same context is.
#[test]
fn added_window_boundaries() {
    let at_boundary = TickPair { added: 10, changed: 10 };
    assert!(!at_boundary.is_added(10, 20));
    let just_after = TickPair { added: 11, changed: 10 };
    assert!(just_after.is_added(10, 20));
    // No later than the current tick: the current tick itself counts, the
    // next one does not.
    let at_current = TickPair { added: 20, changed: 10 };
    assert!(at_current.is_added(10, 20));
    let past_current = TickPair { added: 21, changed: 10 };
    assert!(!past_current.is_added(10, 20));
}

/// The comparison stays correct across a wraparound of the 32-bit counter:
/// an added tick placed shortly before the wrap still compares correctly
/// after the counter wraps past zero.
#[test]
fn added_window_across_wraparound() {
    let last = u32::MAX - 3;
    let current = 2u32; // the counter has wrapped past zero
    let before_last = TickPair { added: u32::MAX - 4, changed: 0 };
    assert!(!before_last.is_added(last, current));
    let at_last = TickPair { added: last, changed: 0 };
    assert!(!at_last.is_added(last, current));
    let shortly_before_wrap = TickPair { added: u32::MAX - 1, changed: 0 };
    assert!(shortly_before_wrap.is_added(last, current));
    let after_wrap = TickPair { added: 1, changed: 0 };
    assert!(after_wrap.is_added(last, current));
    let at_current = TickPair { added: current, changed: 0 };
    assert!(at_current.is_added(last, current));
    let past_current = TickPair { added: 3, changed: 0 };
    assert!(!past_current.is_added(last, current));
}

/// `is_changed` applies the identical window test to the changed tick, and
/// `set_changed` stamps it with the given tick, irreversibly.
#[test]
fn changed_window_and_stamp() {
    let mut ticks = TickPair::new(3);
    assert_eq!(ticks.added, 3);
    assert_eq!(ticks.changed, 3);
    assert!(!ticks.is_changed(4, 9));
    ticks.set_changed(9);
    assert!(ticks.is_changed(4, 9));
    assert_eq!(ticks.added, 3);
    assert_eq!(ticks.changed, 9);
}

/// A mutable view through the ordinary path makes `is_changed` true for
/// every later check; a shared view never does.
#[test]
fn mutable_view_flags_shared_view_does_not() {
    let ctx = TickContext { last_change_tick: 4, change_tick: 9 };
    let mut accessor = Mut::new(70u64, TickPair::new(3), ctx);
    assert!(!accessor.is_changed());
    let _shared = accessor.get();
    assert!(!accessor.is_changed());
    *accessor.get_mut() = 71;
    assert!(accessor.is_changed());
    assert_eq!(*accessor.get(), 71);
    // The flag survives into a later context whose window spans tick 9.
    let (value, ticks) = accessor.into_parts();
    let later = TickContext { last_change_tick: 8, change_tick: 12 };
    let again = Mut::new(value, ticks, later);
    assert!(again.is_changed());
}

/// The escape hatch mutates without flagging; consuming the accessor through
/// `into_inner` flags exactly once, at consumption time.
#[test]
fn untracked_and_consuming_paths() {
    let ctx = TickContext { last_change_tick: 4, change_tick: 9 };
    let mut accessor = ResMut::new(5i32, TickPair::new(3), ctx);
    *accessor.get_mut_untracked() = 6;
    assert!(!accessor.is_changed());
    assert_eq!(*accessor.get(), 6);
    let (value, ticks) = accessor.into_inner();
    assert_eq!(value, 6);
    assert_eq!(ticks.added, 3);
    assert_eq!(ticks.changed, 9);
}

/// Shared accessors answer the same window queries and can never flag; their
/// tick pair comes back unchanged.
#[test]
fn shared_accessors_never_flag() {
    let ctx = TickContext { last_change_tick: 2, change_tick: 8 };
    let res = Res::new("value", TickPair::new(5), ctx);
    assert!(res.is_added());
    assert!(res.is_changed());
    assert_eq!(*res.get(), "value");
    let (_, ticks) = res.into_parts();
    assert_eq!(ticks, TickPair::new(5));

    let non_send = NonSend::new(7u8, TickPair::new(1), ctx);
    assert!(!non_send.is_added());
    let (_, ticks) = non_send.into_parts();
    assert_eq!(ticks, TickPair::new(1));
}

/// The context-affine exclusive accessor follows identical tick semantics to
/// the ordinary one, including manual flagging.
#[test]
fn non_send_mut_same_semantics() {
    let ctx = TickContext { last_change_tick: 4, change_tick: 9 };
    let mut accessor = NonSendMut::new(vec![1u8], TickPair::new(3), ctx);
    assert!(!accessor.is_added());
    assert!(!accessor.is_changed());
    accessor.set_changed();
    assert!(accessor.is_changed());
    accessor.get_mut().push(2);
    let (value, ticks) = accessor.into_inner();
    assert_eq!(value, vec![1u8, 2u8]);
    assert_eq!(ticks.changed, 9);
}

/// A freshly created slot counts as both added and changed for a context
/// whose window spans its creation tick.
#[test]
fn fresh_pair_is_added_and_changed() {
    let ticks = TickPair::new(7);
    assert!(ticks.is_added(6, 7));
    assert!(ticks.is_changed(6, 7));
    assert!(!ticks.is_added(7, 7));
}
