use recloser::rate::{reaches, within};
use recloser::{Error, Ratio, Recloser, Status};

#[test]
fn rate_comparisons_are_exact() {
    let half = Ratio::new(1, 2);
    assert!(reaches(1, 2, half));
    assert!(within(1, 2, half));
    assert!(!reaches(1, 3, half));
    assert!(within(1, 3, half));
    assert!(reaches(2, 3, half));
    assert!(!within(2, 3, half));
    let third = Ratio::new(1, 3);
    assert!(reaches(34, 100, third));
    assert!(!reaches(33, 100, third));
    assert!(reaches(usize::MAX, usize::MAX, Ratio::new(u32::MAX, u32::MAX)));
    assert!(within(0, usize::MAX, Ratio::new(0, u32::MAX)));
}

#[test]
fn default_recloser_needs_a_full_window() {
    let recl = Recloser::default();
    for _ in 0..100 {
        assert!(matches!(recl.call_at(0, || Err::<(), ()>(())), Err(Error::Inner(()))));
    }
    assert_eq!(recl.status(), Status::Closed);
    _ = recl.call_at(0, || Err::<(), ()>(()));
    assert_eq!(recl.status(), Status::Open(30_000, 1));
    assert!(!recl.call_permitted_at(30_000));
    assert!(recl.call_permitted_at(30_001));
    assert_eq!(recl.status(), Status::HalfOpen(1));
}

#[test]
fn separate_thresholds() {
    // opens at 1/4 while closed, needs all probes to fail to reopen
    let recl = Recloser::custom()
        .error_rate_closed(Ratio::new(1, 4))
        .error_rate_half_open(Ratio::new(1, 1))
        .closed_len(4)
        .half_open_len(2)
        .open_wait(10)
        .build();
    for _ in 0..4 {
        _ = recl.call_at(0, || Ok::<(), ()>(()));
    }
    _ = recl.call_at(0, || Err::<(), ()>(()));
    assert_eq!(recl.status(), Status::Open(10, 1));
    _ = recl.call_at(11, || Err::<(), ()>(()));
    _ = recl.call_at(11, || Ok::<(), ()>(()));
    // window: success, failure; 1/2 does not reach 1/1: still half-open
    _ = recl.call_at(11, || Err::<(), ()>(()));
    assert_eq!(recl.status(), Status::HalfOpen(1));
    // window: failure, success; 1/2 is under 1/1: the breaker closes
    _ = recl.call_at(11, || Ok::<(), ()>(()));
    assert_eq!(recl.status(), Status::Closed);
}

#[test]
fn max_wait_bounds_the_strategy() {
    let recl = Recloser::custom()
        .closed_len(1)
        .half_open_len(1)
        .open_wait(1000)
        .open_wait_strategy(|fc: u32, wait: u64| -> u64 { wait * 10 * fc as u64 })
        .max_wait(2500)
        .build();
    _ = recl.call_at(0, || Err::<(), ()>(()));
    _ = recl.call_at(0, || Err::<(), ()>(()));
    // closed to open: the base wait, with no strategy
    assert_eq!(recl.status(), Status::Open(1000, 1));
    _ = recl.call_at(1001, || Err::<(), ()>(()));
    _ = recl.call_at(1001, || Err::<(), ()>(()));
    // half-open to open: ten seconds from the strategy, bounded to 2.5
    assert_eq!(recl.status(), Status::Open(3501, 2));
}

fn shareable<T: Send + Sync>(_: &T) -> bool {
    true
}

#[test]
fn recloser_can_be_shared_between_threads() {
    let plain = Recloser::custom().build();
    let with_strategy = Recloser::custom()
        .open_wait_strategy(|_: u32, w: u64| -> u64 { w })
        .build();
    assert!(shareable(&plain));
    assert!(shareable(&std::sync::Arc::new(with_strategy)));
}
