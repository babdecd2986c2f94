use thespis_remote::peer::{BackPressure, WaitPoll};

// Each waiting task is known by an id; a task counts how often it was handed on to be woken.
fn woken(count: &mut usize, who: Option<u64>, me: u64) {
    if who == Some(me) {
        *count += 1;
    }
}

#[test]
fn wakeup() {
    let mut count = 0;
    let mut bp = BackPressure::new(0);

    assert_eq!(bp.poll_wait(1), WaitPoll::Pending);
    assert_eq!(count, 0);
    assert_eq!(bp.available(), 0);

    let w = bp.add_slots(1);
    woken(&mut count, w, 1);

    assert_eq!(count, 1);
    assert!(matches!(bp.poll_wait(1), WaitPoll::Ready { .. }));
}

#[test]
fn wakeup2() {
    let mut count = 0;
    let mut count2 = 0;
    let mut bp = BackPressure::new(0);

    assert_eq!(bp.poll_wait(1), WaitPoll::Pending);
    assert_eq!(bp.poll_wait(2), WaitPoll::Pending);

    assert_eq!(count, 0);
    assert_eq!(count2, 0);
    assert_eq!(bp.available(), 0);

    // both should be woken up
    let w = bp.add_slots(2);
    woken(&mut count, w, 1);
    woken(&mut count2, w, 2);

    assert_eq!(count, 1);

    match bp.poll_wait(1) {
        WaitPoll::Ready { wake } => {
            woken(&mut count, wake, 1);
            woken(&mut count2, wake, 2);
        }
        WaitPoll::Pending => panic!("should be ready"),
    }
    assert_eq!(count2, 1);

    assert!(matches!(bp.poll_wait(1), WaitPoll::Ready { wake: None }));

    // We don't remove slots just by awaiting, so both are still there.
    assert_eq!(bp.available(), 2);
}

#[test]
fn remove_slots_stops_at_zero() {
    let mut bp = BackPressure::new(3);
    bp.remove_slots(1);
    assert_eq!(bp.available(), 2);
    bp.remove_slots(5);
    assert_eq!(bp.available(), 0);
    assert_eq!(bp.poll_wait(7), WaitPoll::Pending);
    // Adding to a non empty counter wakes nobody.
    let mut bp2 = BackPressure::new(1);
    assert_eq!(bp2.add_slots(1), None);
    assert_eq!(bp2.available(), 2);
}

#[test]
fn add_slots_wraps_around() {
    let mut bp = BackPressure::new(u64::MAX);
    assert_eq!(bp.add_slots(2), None);
    assert_eq!(bp.available(), 1);
}
