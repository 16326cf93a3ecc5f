use libwebview::error::WebViewError;
use libwebview::handle::Registry;

#[test]
fn create_then_get_returns_value() {
    let mut r: Registry<u32> = Registry::new();
    let a = r.create(7);
    let b = r.create(9);
    assert_ne!(a, b);
    assert_eq!(r.get(a).ok(), Some(&7));
    assert_eq!(r.get(b).ok(), Some(&9));
}

#[test]
fn get_mut_writes_through() {
    let mut r: Registry<u32> = Registry::new();
    let a = r.create(1);
    *r.get_mut(a).unwrap() = 5;
    assert_eq!(r.get(a).ok(), Some(&5));
}

#[test]
fn every_operation_after_release_reports_use_after_release() {
    let mut r: Registry<String> = Registry::new();
    let a = r.create("x".to_string());
    assert_eq!(r.release(a), Ok(()));
    assert_eq!(r.get(a).err(), Some(WebViewError::UseAfterRelease));
    assert_eq!(r.get_mut(a).err(), Some(WebViewError::UseAfterRelease));
    assert_eq!(r.take(a).err(), Some(WebViewError::UseAfterRelease));
    assert_eq!(r.release(a), Err(WebViewError::UseAfterRelease));
}

#[test]
fn double_release_is_reported_not_fatal() {
    let mut r: Registry<u32> = Registry::new();
    let a = r.create(3);
    let b = r.create(4);
    assert_eq!(r.release(a), Ok(()));
    assert_eq!(r.release(a), Err(WebViewError::UseAfterRelease));
    assert_eq!(r.get(b).ok(), Some(&4));
}

#[test]
fn reused_slot_does_not_revive_released_handle() {
    let mut r: Registry<u32> = Registry::new();
    let a = r.create(1);
    r.release(a).unwrap();
    let b = r.create(2);
    assert_eq!(b.index, a.index);
    assert_ne!(b.generation, a.generation);
    assert_eq!(r.get(a).err(), Some(WebViewError::UseAfterRelease));
    assert_eq!(r.get(b).ok(), Some(&2));
}

#[test]
fn take_hands_over_value_and_kills_handle() {
    let mut r: Registry<Vec<u8>> = Registry::new();
    let a = r.create(vec![1, 2]);
    assert_eq!(r.take(a), Ok(vec![1, 2]));
    assert_eq!(r.take(a), Err(WebViewError::UseAfterRelease));
}

#[test]
fn forged_handle_is_rejected() {
    let r: Registry<u32> = Registry::new();
    let h = libwebview::handle::Handle { index: 3, generation: 0 };
    assert_eq!(r.get(h).err(), Some(WebViewError::UseAfterRelease));
}

#[test]
fn clone_value_shares_and_checks_liveness() {
    let mut r: Registry<std::rc::Rc<u32>> = Registry::new();
    let a = r.create(std::rc::Rc::new(8));
    let c = r.clone_value(a).unwrap();
    assert_eq!(*c, 8);
    assert_eq!(std::rc::Rc::strong_count(&c), 2);
    r.release(a).unwrap();
    assert_eq!(r.clone_value(a).err(), Some(WebViewError::UseAfterRelease));
    assert_eq!(std::rc::Rc::strong_count(&c), 1);
}
