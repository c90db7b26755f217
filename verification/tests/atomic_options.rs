use phoenix_cmc::atomic::{AtomicBoolOption, AtomicU8Option, AtomicI32Option, AtomicUsizeOption};
use std::sync::atomic::Ordering;

#[test]
fn test_atomic_usize_option() {
    let opt = AtomicUsizeOption::new(Some(42));
    assert_eq!(opt.load(Ordering::Relaxed), Some(42));

    opt.store(None, Ordering::Relaxed);
    assert_eq!(opt.load(Ordering::Relaxed), None);

    opt.store(Some(100), Ordering::Relaxed);
    assert_eq!(opt.swap(Some(200), Ordering::Relaxed), Some(100));
    assert_eq!(opt.load(Ordering::Relaxed), Some(200));

    assert_eq!(opt.compare_exchange(Some(200), None, Ordering::Relaxed, Ordering::Relaxed), Ok(Some(200)));
    assert_eq!(opt.compare_exchange(Some(200), Some(1), Ordering::Relaxed, Ordering::Relaxed), Err(None));
}

#[test]
fn test_atomic_bool_option() {
    let opt = AtomicBoolOption::new(Some(true));
    assert_eq!(opt.load(Ordering::Relaxed), Some(true));

    opt.store(None, Ordering::Relaxed);
    assert_eq!(opt.load(Ordering::Relaxed), None);

    opt.store(Some(false), Ordering::Relaxed);
    assert_eq!(opt.load(Ordering::Relaxed), Some(false));

    assert_eq!(opt.swap(Some(true), Ordering::Relaxed), Some(false));
    assert_eq!(opt.swap(None, Ordering::Relaxed), Some(true));
    assert_eq!(opt.swap(Some(false), Ordering::Relaxed), None);
}

#[test]
fn small_integer_options_keep_none_apart_from_values() {
    let byte = AtomicU8Option::new(None);
    assert_eq!(byte.load(Ordering::SeqCst), None);
    byte.store(Some(254), Ordering::SeqCst);
    assert_eq!(byte.load(Ordering::SeqCst), Some(254));
    assert_eq!(byte.swap(Some(0), Ordering::SeqCst), Some(254));
    assert_eq!(byte.load(Ordering::SeqCst), Some(0));

    let int = AtomicI32Option::new(Some(-5));
    assert_eq!(int.load(Ordering::SeqCst), Some(-5));
    assert_eq!(int.compare_exchange(Some(-5), None, Ordering::SeqCst, Ordering::SeqCst), Ok(Some(-5)));
    assert_eq!(int.load(Ordering::SeqCst), None);
    assert_eq!(int.compare_exchange(Some(-5), Some(7), Ordering::SeqCst, Ordering::SeqCst), Err(None));
}
