use experiments::multi::{after_first_poll, FairStep, spawn_immediate, spawn_spawn, spawn_uniform, SpawnFairness, SpawnHandle};
use experiments::scoped::{scoped_set, scoped_set_if, scoped_set_some};

#[test]
fn scoped_set_then_restore() {
    let mut slot = 1u32;
    let guard = scoped_set(&mut slot, 2);
    assert_eq!(slot, 2);
    guard.restore(&mut slot);
    assert_eq!(slot, 1);
}

#[test]
fn scoped_set_if_follows_predicate() {
    let mut slot = 5u32;
    assert!(scoped_set_if(&mut slot, 6, |v: &u32| *v > 10).is_none());
    assert_eq!(slot, 5);
    let guard = scoped_set_if(&mut slot, 6, |v: &u32| *v < 10).expect("set");
    assert_eq!(slot, 6);
    guard.restore(&mut slot);
    assert_eq!(slot, 5);
}

#[test]
fn second_runtime_is_refused() {
    let mut slot: Option<u32> = None;
    let guard = scoped_set_some(&mut slot, 1).expect("first");
    assert_eq!(slot, Some(1));
    assert!(scoped_set_some(&mut slot, 2).is_none());
    assert_eq!(slot, Some(1));
    guard.restore(&mut slot);
    assert_eq!(slot, None);
}

#[test]
fn fairness_choices() {
    let mut s = spawn_immediate(5u32);
    assert!(s.poll_immediate());
    assert!(s.has_future());
    assert_eq!(s.take_future(), 5);
    assert!(!s.has_future());
    assert!(!spawn_spawn(1u8).poll_immediate());
    assert!(SpawnFairness::new(2u8, true).poll_immediate());
    assert!(SpawnFairness::poll_spawn(2u8).poll_immediate());
    assert!(!SpawnFairness::spawn(2u8).poll_immediate());
    assert!(spawn_uniform(3u8).has_future());
}

#[test]
fn ready_handle_gives_its_output_once() {
    let mut h = SpawnHandle::wrap(8u32);
    assert!(h.is_ready());
    assert!(!h.is_spawned());
    assert!(h.has_output());
    assert_eq!(h.take_ready(), 8);
    assert!(!h.has_output());
    assert!(h.is_ready());
    assert_eq!(SpawnHandle::wrap(9u32).unwrap_output(), 9);
}

#[test]
fn spawned_handle_gives_join_handle() {
    let rt = tokio::runtime::Builder::new_current_thread().build().unwrap();
    let jh = rt.spawn(async { 3u32 });
    let mut h = SpawnHandle::spawned(jh);
    assert!(h.is_spawned());
    assert!(!h.is_ready());
    let _inner = h.join_handle_mut();
    let jh = h.unwrap_join_handle();
    assert_eq!(rt.block_on(jh).unwrap(), 3);
}

#[test]
fn fair_first_step_follows_choice() {
    let mut f = SpawnFairness::new(5u8, true);
    assert!(matches!(f.first_step(), FairStep::PollFirst(5)));
    assert!(!f.has_future());
    let mut g = SpawnFairness::new(6u8, false);
    assert!(matches!(g.first_step(), FairStep::SpawnNow(6)));
    assert_eq!(after_first_poll(Some(3u8)).expect("ready").unwrap_output(), 3);
    assert!(after_first_poll::<u8>(None).is_none());
}
