use recloser::{Error, Ratio, Recloser, Status, WaitStrategy};

#[test]
fn multi_errors() {
    let recl = Recloser::custom().closed_len(1).build();

    let f = || Err::<(), ()>(());
    assert!(matches!(recl.call(f), Err(Error::Inner(()))));
    assert!(recl.call_permitted_at(recl.now_ms()));

    let f = || Err::<(), usize>(12);
    assert!(matches!(recl.call(f), Err(Error::Inner(12))));
    assert!(!recl.call_permitted_at(recl.now_ms()));
}

#[test]
fn error_predicate() {
    let recl = Recloser::custom().closed_len(1).build();

    let f = || Err::<(), ()>(());
    let p = |_: &()| false;

    assert!(matches!(recl.call_with(p, f), Err(Error::Inner(()))));
    assert!(recl.call_permitted_at(recl.now_ms()));

    assert!(matches!(recl.call_with(p, f), Err(Error::Inner(()))));
    assert!(recl.call_permitted_at(recl.now_ms()));
}

//  result:  e e e x ____ ✓ e e x  ____ ✓ ✓ ✓
//   state:  c c o o      h h o o       h h c
//    flap:  - - 1 1      1 1 2 2       2 2 -
fn assert_state_transitions<S: recloser::WaitStrategy>(recl: &Recloser<S>) {
    let mut now: u64 = 0;

    // Fill the closed window
    for _ in 0..2 {
        assert!(matches!(
            recl.call_at(now, || Err::<(), ()>(())),
            Err(Error::Inner(()))
        ));
        assert!(matches!(recl.status(), Status::Closed));
    }

    // Open with flap count 1 on the next call
    assert!(matches!(
        recl.call_at(now, || Err::<(), ()>(())),
        Err(Error::Inner(()))
    ));
    assert!(matches!(recl.status(), Status::Open(_, 1)));
    assert!(matches!(
        recl.call_at(now, || Err::<(), ()>(())),
        Err(Error::Rejected)
    ));

    // Half-open with flap count 1 on the first call after the wait
    now += 1500;
    assert!(matches!(recl.call_at(now, || Ok::<(), ()>(())), Ok(())));
    assert!(matches!(recl.status(), Status::HalfOpen(1)));

    // Fill the half-open window
    assert!(matches!(
        recl.call_at(now, || Err::<(), ()>(())),
        Err(Error::Inner(()))
    ));
    assert!(matches!(recl.status(), Status::HalfOpen(1)));

    // Open with flap count 2 when the failure rate reaches the threshold
    assert!(matches!(
        recl.call_at(now, || Err::<(), ()>(())),
        Err(Error::Inner(()))
    ));
    assert!(matches!(recl.status(), Status::Open(_, 2)));

    assert!(matches!(
        recl.call_at(now, || Err::<(), ()>(())),
        Err(Error::Rejected)
    ));

    // Half-open with flap count 2 on the first call after the wait
    now += 1500;
    assert!(matches!(recl.call_at(now, || Ok::<(), ()>(())), Ok(())));
    assert!(matches!(recl.status(), Status::HalfOpen(2)));

    // Fill the half-open window
    assert!(matches!(recl.call_at(now, || Ok::<(), ()>(())), Ok(())));

    // Closed when the failure rate stays under the threshold
    assert!(matches!(recl.call_at(now, || Ok::<(), ()>(())), Ok(())));
    assert!(matches!(recl.status(), Status::Closed));
}

#[test]
fn recloser_correctness() {
    let recl = Recloser::custom()
        .error_rate(Ratio::new(1, 2))
        .closed_len(2)
        .half_open_len(2)
        .open_wait(1000)
        .build();

    assert_state_transitions(&recl);
}

#[test]
fn recloser_correctness_with_strategy() {
    let recl = Recloser::custom()
        .error_rate(Ratio::new(1, 2))
        .closed_len(2)
        .half_open_len(2)
        .open_wait(1000)
        .open_wait_strategy(|_: u32, open_wait: u64| open_wait)
        .build();

    assert_state_transitions(&recl);
}

#[test]
fn test_ring_buffer_filling_on_success() {
    let recl = Recloser::custom()
        .error_rate(Ratio::new(1, 2))
        .closed_len(10)
        .half_open_len(5)
        .open_wait(1000)
        .build();

    for _ in 0..10 {
        _ = recl.call_at(0, || Err::<(), ()>(()));
    }
    // the window is full with a failure rate of 1.0: whatever the outcome of
    // the next call, the breaker opens
    _ = recl.call_at(0, || Ok::<(), ()>(()));

    assert!(matches!(
        recl.call_at(0, || Err::<(), ()>(())),
        Err(Error::Rejected)
    ));
}

#[test]
fn test_ring_buffer_filling_on_error() {
    let recl = Recloser::custom()
        .error_rate(Ratio::new(1, 2))
        .closed_len(10)
        .half_open_len(5)
        .open_wait(1000)
        .build();

    for i in 0..10 {
        if i < 5 {
            _ = recl.call_at(0, || Ok::<(), ()>(()));
        } else {
            _ = recl.call_at(0, || Err::<(), ()>(()));
        }
    }
    // the window is full with a failure rate of 0.5: one more failure opens it
    _ = recl.call_at(0, || Err::<(), ()>(()));
    assert!(matches!(
        recl.call_at(0, || Err::<(), ()>(())),
        Err(Error::Rejected)
    ));
}

#[test]
fn test_custom_wait() {
    let open_wait: u64 = 1000;
    let strategy = |fc: u32, wait: u64| -> u64 {
        // simple exponential backoff
        let base: u64 = 2;
        let next_wait_ms = base.pow(fc) * wait;
        next_wait_ms.min(5000)
    };

    // 1, 2, 4, 5, ... 5, ..,
    assert_eq!(strategy.next_wait(0, open_wait), 1000);
    assert_eq!(strategy.next_wait(1, open_wait), 2000);
    assert_eq!(strategy.next_wait(2, open_wait), 4000);
    assert_eq!(strategy.next_wait(4, open_wait), 5000);
    assert_eq!(strategy.next_wait(10, open_wait), 5000);
}
