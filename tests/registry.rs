use kioto::handler::EventHandler;
use kioto::registry::{HandlerRegistry, StaleToken};
use std::sync::atomic::{AtomicBool, Ordering};
use std::sync::Arc;

struct Flag {
    flag: bool,
}

impl EventHandler for Flag {
    fn handle_event(&mut self, _event: u32) {
        self.flag = true;
    }
}

struct SharedFlag {
    flag: Arc<AtomicBool>,
}

impl EventHandler for SharedFlag {
    fn handle_event(&mut self, _event: u32) {
        self.flag.store(true, Ordering::SeqCst);
    }
}

struct Counter {
    count: u32,
    last: u32,
}

impl EventHandler for Counter {
    fn handle_event(&mut self, event: u32) {
        self.count += 1;
        self.last = event;
    }
}

fn counter() -> Counter {
    Counter { count: 0, last: 0 }
}

#[test]
fn event_handler_test_marshall_from_pointer() {
    let mut registry = HandlerRegistry::new();
    let v = Flag { flag: false };
    let mut ffi_ref = registry.register(v);
    let repr = ffi_ref.epoll_repr();
    assert_eq!(registry.dispatch(repr, 0), Ok(()));
    let v = registry.release(repr).unwrap();
    assert_eq!(v.flag, true);
}

#[test]
fn owned_handler_test_marshall_from_pointer() {
    let flag = Arc::new(AtomicBool::new(false));
    let v = SharedFlag { flag: Arc::clone(&flag) };
    let mut registry = HandlerRegistry::new();
    let mut owned = registry.register(v);
    let ptr = owned.epoll_repr();
    registry.dispatch(ptr, 0).unwrap();
    let result = flag.load(Ordering::SeqCst);
    assert_eq!(result, true);
}

#[test]
fn register_then_dispatch_invokes_once_with_mask() {
    let mut registry = HandlerRegistry::new();
    let t = registry.register(counter());
    assert_eq!(registry.dispatch(t.token, 5), Ok(()));
    let h = registry.release(t.token).unwrap();
    assert_eq!(h.count, 1);
    assert_eq!(h.last, 5);
}

#[test]
fn dispatch_keeps_handler_for_later_dispatches() {
    let mut registry = HandlerRegistry::new();
    let t = registry.register(counter());
    registry.dispatch(t.token, 1).unwrap();
    registry.dispatch(t.token, 4).unwrap();
    assert!(registry.is_live(t.token));
    let h = registry.release(t.token).unwrap();
    assert_eq!(h.count, 2);
    assert_eq!(h.last, 4);
}

#[test]
fn dispatch_of_unknown_token_is_stale() {
    let mut registry: HandlerRegistry<Counter> = HandlerRegistry::new();
    assert_eq!(registry.dispatch(0, 1), Err(StaleToken { token: 0 }));
    assert_eq!(registry.dispatch(u64::MAX, 1), Err(StaleToken { token: u64::MAX }));
}

#[test]
fn dispatch_after_release_is_stale() {
    let mut registry = HandlerRegistry::new();
    let t = registry.register(counter());
    assert!(registry.release(t.token).is_some());
    assert!(!registry.is_live(t.token));
    assert_eq!(registry.dispatch(t.token, 1), Err(StaleToken { token: t.token }));
    assert!(registry.release(t.token).is_none());
}

#[test]
fn tokens_are_distinct_and_freed_slots_reused() {
    let mut registry = HandlerRegistry::new();
    let a = registry.register(counter());
    let b = registry.register(counter());
    let c = registry.register(counter());
    assert_eq!((a.token, b.token, c.token), (0, 1, 2));
    registry.release(b.token).unwrap();
    let d = registry.register(counter());
    assert_eq!(d.token, 1);
    let e = registry.register(counter());
    assert_eq!(e.token, 3);
    assert_eq!(registry.len(), 4);
}

#[test]
fn dispatch_touches_only_the_named_handler() {
    let mut registry = HandlerRegistry::new();
    let a = registry.register(counter());
    let b = registry.register(counter());
    registry.dispatch(b.token, 2).unwrap();
    assert_eq!(registry.release(a.token).unwrap().count, 0);
    assert_eq!(registry.release(b.token).unwrap().count, 1);
}
