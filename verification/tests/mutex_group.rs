use mutex_group::MutexGroup;
use spin::Mutex;

#[test]
fn test_mutex_group_0() {
    let mutex_0: Mutex<usize> = Mutex::new(0);
    let mutex_1: Mutex<usize> = Mutex::new(1);
    let mutex_2: Mutex<usize> = Mutex::new(2);

    let mutexes = vec![&mutex_0, &mutex_1, &mutex_2];

    let mtxgroup = MutexGroup::new(mutexes);
    let guard = mtxgroup.lock();

    let mut iter = guard.iter();
    let mut i: usize = 0;
    while let Some(value) = iter.next() {
        assert_eq!(*value, i);
        i += 1;
    }

    for (i, mut token) in guard.into_tokens().into_iter().enumerate() {
        assert_eq!(*token.read(), i);
        token.set(0xffff);
    }

    let guard = mtxgroup.lock();
    let mut iter = guard.iter();
    while let Some(value) = iter.next() {
        assert_eq!(*value, 0xffff);
    }
}

#[test]
fn test_mutex_group_1() {
    let mut mtx_list = Vec::new();
    for i in 0..10 {
        mtx_list.push(Mutex::new(i));
    }
    let mtxgroup = MutexGroup::new(mtx_list.iter().collect());
    let mtxgroup_guard = mtxgroup.lock();
    for (i, mut mtx) in mtxgroup_guard.into_tokens().into_iter().enumerate() {
        assert_eq!(*mtx.read(), i);
        mtx.set(i * i * i);
    }

    let mtxgroup_guard = mtxgroup.lock();
    for (i, mtx) in mtxgroup_guard.into_tokens().into_iter().enumerate() {
        assert_eq!(*mtx.read(), i * i * i);
    }
}

#[test]
fn empty_group_acquires_immediately() {
    let mutexes: Vec<&Mutex<u32>> = Vec::new();
    let group = MutexGroup::new(mutexes);
    assert_eq!(group.len(), 0);

    let guard = group.lock();
    assert_eq!(guard.len(), 0);
    let mut iter = guard.iter();
    assert!(iter.next().is_none());

    let guard = group.try_lock_all().expect("an empty group must acquire at once");
    assert_eq!(guard.into_tokens().len(), 0);
}

#[test]
fn iteration_keeps_construction_order() {
    let a = Mutex::new(10u64);
    let b = Mutex::new(20u64);
    let c = Mutex::new(30u64);
    let group = MutexGroup::new(vec![&c, &a, &b]);

    let guard = group.lock();
    assert_eq!(guard.len(), 3);
    assert_eq!(*guard.read_at(0), 30);
    assert_eq!(*guard.read_at(1), 10);
    assert_eq!(*guard.read_at(2), 20);

    let mut iter = guard.iter();
    let mut seen = Vec::new();
    while let Some(value) = iter.next() {
        seen.push(*value);
    }
    assert_eq!(seen, vec![30, 10, 20]);

    let mut again = guard.iter();
    assert_eq!(*again.next().unwrap(), 30);
}

#[test]
fn reacquire_many_cycles() {
    let a = Mutex::new(0u64);
    let b = Mutex::new(0u64);
    let group = MutexGroup::new(vec![&a, &b]);

    for round in 0..100u64 {
        let guard = group.lock();
        assert_eq!(*guard.read_at(0), round);
        assert_eq!(*guard.read_at(1), round);
        for mut token in guard.into_tokens() {
            let next = *token.read() + 1;
            token.set(next);
        }
    }

    let guard = group.lock();
    assert_eq!(*guard.read_at(0), 100);
    assert_eq!(*guard.read_at(1), 100);
}

#[test]
fn round_trip_mutation_via_iteration_and_decomposition() {
    let a = Mutex::new(1u32);
    let b = Mutex::new(2u32);
    let group = MutexGroup::new(vec![&a, &b]);

    let guard = group.lock();
    let mut tokens = group_values(&guard);
    assert_eq!(tokens, vec![1, 2]);

    let mut held = guard.into_tokens();
    held[0].set(7);
    held[1].set(9);
    drop(held);

    let guard = group.lock();
    tokens = group_values(&guard);
    assert_eq!(tokens, vec![7, 9]);
}

fn group_values(guard: &mutex_group::MutexGroupGuard<u32>) -> Vec<u32> {
    let mut iter = guard.iter();
    let mut out = Vec::new();
    while let Some(value) = iter.next() {
        out.push(*value);
    }
    out
}

#[test]
fn bounded_attempts_report_contention() {
    let a = Mutex::new(0u8);
    let b = Mutex::new(1u8);
    let whole = MutexGroup::new(vec![&a, &b]);
    let overlapping = MutexGroup::new(vec![&b]);

    let held = whole.lock();
    assert!(overlapping.try_lock_all().is_none());
    assert!(overlapping.lock_attempts(3).is_none());
    drop(held);

    let guard = overlapping.lock_attempts(1).expect("uncontended group must lock in one pass");
    assert_eq!(*guard.read_at(0), 1);
}

#[test]
fn failed_pass_releases_partial_acquisitions() {
    let a = Mutex::new(0u16);
    let b = Mutex::new(0u16);

    let b_only = MutexGroup::new(vec![&b]);
    let held_b = b_only.lock();

    let both = MutexGroup::new(vec![&a, &b]);
    assert!(both.try_lock_all().is_none());

    let a_only = MutexGroup::new(vec![&a]);
    assert!(
        a_only.try_lock_all().is_some(),
        "the failed pass over both mutexes must have released the first one"
    );

    drop(held_b);
    assert!(both.try_lock_all().is_some());
}

#[test]
fn zero_attempts_always_give_up() {
    let a = Mutex::new(5i32);
    let group = MutexGroup::new(vec![&a]);
    assert!(group.lock_attempts(0).is_none());

    let empty = MutexGroup::new(Vec::<&Mutex<i32>>::new());
    assert!(empty.lock_attempts(0).is_none());
    assert!(empty.lock_attempts(1).is_some());
}

#[test]
fn tokens_release_independently() {
    let a = Mutex::new(100u64);
    let b = Mutex::new(200u64);
    let group = MutexGroup::new(vec![&a, &b]);

    let mut tokens = group.lock().into_tokens();
    let second = tokens.pop().unwrap();
    let first = tokens.pop().unwrap();
    drop(first);

    let first_only = MutexGroup::new(vec![&a]);
    let guard = first_only.try_lock_all().expect("released member must be free again");
    assert_eq!(*guard.read_at(0), 100);
    drop(guard);

    let both = MutexGroup::new(vec![&a, &b]);
    assert!(both.try_lock_all().is_none());
    drop(second);
    assert!(both.try_lock_all().is_some());
}
