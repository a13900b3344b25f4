use shared_bus::{BusMutex, CortexMMutex, HostMutex, LockError, RiscvMutex};
use shared_bus::mutex::{first_lock_observes_creation, second_lock_observes_first};

#[test]
fn construction_round_trips_the_value() {
    let mut m: HostMutex<u64> = HostMutex::create(7);
    let got = m.lock(|t| (t, t));
    assert_eq!(got, Ok(7));
}

#[test]
fn set_then_observe() {
    let mut m: HostMutex<u64> = HostMutex::create(0);
    let set = m.lock(|_t| (42, ()));
    assert_eq!(set, Ok(()));
    let got = m.lock(|t| (t, t));
    assert_eq!(got, Ok(42));
}

#[test]
fn sequence_of_locks_is_sequentially_consistent() {
    let mut m: HostMutex<u64> = HostMutex::create(1);
    let doubled = m.lock(|t| (t * 2, t * 2));
    assert_eq!(doubled, Ok(2));
    let plus_three = m.lock(|t| (t + 3, t + 3));
    assert_eq!(plus_three, Ok(5));
    let got = m.lock(|t| (t, t));
    assert_eq!(got, Ok(5));
}

#[test]
fn repeated_increments_accumulate() {
    let mut m: HostMutex<u64> = HostMutex::create(0);
    for _ in 0..100 {
        let r = m.lock(|c| (c + 1, ()));
        assert!(r.is_ok());
    }
    let got = m.lock(|t| (t, t));
    assert_eq!(got, Ok(100));
}

#[test]
fn lock_returns_the_operation_result() {
    let mut m: HostMutex<u64> = HostMutex::create(41);
    let answer = m.lock(|t| (t + 1, t >= 40));
    assert_eq!(answer, Ok(true));
}

#[test]
fn guarded_value_need_not_be_copyable() {
    let mut m: HostMutex<String> = HostMutex::create(String::from("bus"));
    let r = m.lock(|s| {
        let longer = format!("{} shared", s);
        (longer, ())
    });
    assert_eq!(r, Ok(()));
    let got = m.lock(|s| {
        let seen = s.clone();
        (s, seen)
    });
    assert_eq!(got, Ok(String::from("bus shared")));
}

#[test]
fn fresh_lock_is_not_poisoned() {
    let m: HostMutex<u64> = HostMutex::create(3);
    assert!(!m.is_poisoned());
}

#[test]
fn poisoned_lock_reports_acquisition_failure() {
    let mut m: HostMutex<u64> = HostMutex::create(5);
    m.poison();
    assert!(m.is_poisoned());
    let got = m.lock(|t| (t, t));
    assert_eq!(got, Err(LockError::Poisoned));
    // the state does not heal: the next attempt fails as well
    let again = m.lock(|t| (t, t));
    assert_eq!(again, Err(LockError::Poisoned));
}

#[test]
fn poisoned_lock_does_not_run_the_operation() {
    let mut m: HostMutex<u64> = HostMutex::create(5);
    m.poison();
    let mut ran = false;
    let got = m.lock(|t| {
        ran = true;
        (t, ())
    });
    assert_eq!(got, Err(LockError::Poisoned));
    assert!(!ran);
}

#[test]
fn independent_instances_do_not_affect_each_other() {
    let mut a: HostMutex<u64> = HostMutex::create(1);
    let mut b: HostMutex<u64> = HostMutex::create(2);
    let _ = a.lock(|_t| (10, ()));
    a.poison();
    let got = b.lock(|t| (t, t));
    assert_eq!(got, Ok(2));
}

#[test]
fn round_trip_law_on_the_host_mutex() {
    assert_eq!(first_lock_observes_creation::<u64, HostMutex<u64>>(9), Some(9));
}

#[test]
fn sequential_consistency_law_on_the_host_mutex() {
    let mut m: HostMutex<u64> = HostMutex::create(0);
    assert_eq!(second_lock_observes_first(&mut m, 37), Some(37));
    let mut p: HostMutex<u64> = HostMutex::create(0);
    p.poison();
    assert_eq!(second_lock_observes_first(&mut p, 37), None);
}

#[test]
fn cortex_m_mutex_constructs_without_allocation_failure() {
    let _m: CortexMMutex<u32> = CortexMMutex::create(11);
}

#[test]
fn riscv_mutex_constructs_without_allocation_failure() {
    let _m: RiscvMutex<u32> = RiscvMutex::create(13);
}
