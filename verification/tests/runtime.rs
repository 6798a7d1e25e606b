use goods::cache::{after_build, after_decode, after_read, Cache, LoadTask};
use goods::channel::{Queue, Ready, Slot};
use goods::error::{Error, Report, SourceError};
use goods::handle::{BeginPoll, Handle, Poll, SharedFuture};
use goods::process::Processor;

#[test]
fn cache_gives_the_same_handle_until_removed() {
    let mut c: Cache<String> = Cache::new();
    let (a, task) = c.load_with_format("x.json", true, false);
    assert_eq!(task, Some(LoadTask { local: true, via_processor: true }));
    let (b, again) = c.load_with_format("x.json", true, false);
    assert_eq!(a, b);
    assert!(again.is_none());
    assert!(c.remove("x.json"));
    assert!(!c.remove("x.json"));
    let (d, task) = c.load_with_format("x.json", false, true);
    assert_ne!(d, a);
    assert_eq!(task, Some(LoadTask { local: false, via_processor: false }));
}

#[test]
fn cached_handle_resolves_for_every_poller() {
    let mut c: Cache<String> = Cache::new();
    let (id, _) = c.load_with_format("k", true, false);
    assert!(matches!(c.poll(id, 1), Some(Poll::Pending)));
    assert!(matches!(c.poll(id, 2), Some(Poll::Pending)));
    assert!(matches!(c.poll(id, 1), Some(Poll::Pending)));
    let wake = c.set(id, Ok("asset".to_string()));
    assert_eq!(wake, vec![1, 2]);
    match c.poll(id, 3) {
        Some(Poll::Ready(Ok(a))) => assert_eq!(a, "asset"),
        _ => panic!("handle is set"),
    }
    assert!(c.poll(id + 100, 3).is_none());
}

#[test]
fn spawn_failure_resolves_the_handle() {
    let mut c: Cache<String> = Cache::new();
    let (id, _) = c.load_with_format("k", true, false);
    c.spawn_failed(id);
    match c.poll(id, 1) {
        Some(Poll::Ready(Err(e))) => assert_eq!(e.message(), "Failed to spawn loading task"),
        _ => panic!("spawn failed"),
    }
}

#[test]
fn load_stages_map_their_errors() {
    assert_eq!(after_read(Ok(vec![1, 2])).unwrap(), vec![1, 2]);
    assert!(matches!(after_read(Err(SourceError::NotFound)), Err(Error::NotFound)));
    let e = after_read(Err(SourceError::Error(Report::new("io".to_string())))).unwrap_err();
    assert_eq!(e.message(), "Source error: io");
    let e = after_decode::<u8>(Err(Report::new("json".to_string()))).unwrap_err();
    assert_eq!(e.message(), "Format error: json");
    let e = after_build::<u8>(Err(Report::new("gpu".to_string()))).unwrap_err();
    assert_eq!(e.message(), "Asset error: gpu");
    assert_eq!(after_build::<u8>(Ok(4)).unwrap(), 4);
}

#[test]
fn processes_run_in_the_order_they_were_queued() {
    let mut p: Processor<u32> = Processor::new();
    p.with_context(1, 10);
    p.with_context(2, 20);
    p.with_context(1, 11);
    assert_eq!(p.run(1), vec![10, 11]);
    assert!(p.run(1).is_empty());
    assert_eq!(p.run(2), vec![20]);
    assert!(p.run(3).is_empty());
}

#[test]
fn slot_is_taken_once() {
    let mut s: Slot<u8> = Slot::new();
    assert!(matches!(s.poll(4), Ready::Pending));
    assert_eq!(s.set(9), Some(4));
    assert!(matches!(s.poll(5), Ready::Ready(9)));
    assert!(matches!(s.poll(5), Ready::Pending));
}

#[test]
fn queue_wakes_waiters_and_keeps_order() {
    let mut q: Queue<u8> = Queue::new();
    assert!(matches!(q.poll(1), Ready::Pending));
    assert!(matches!(q.poll(1), Ready::Pending));
    assert_eq!(q.push(5), vec![1]);
    assert!(q.push(6).is_empty());
    match q.poll(2) {
        Ready::Ready(v) => assert_eq!(v, vec![5, 6]),
        Ready::Pending => panic!("queue has items"),
    }
    assert!(q.take().is_empty());
}

#[test]
fn handle_outcome_is_set_once_and_cloned_to_pollers() {
    let mut h: Handle<u32> = Handle::new();
    assert!(h.is_pending());
    assert!(matches!(h.poll(7), Poll::Pending));
    assert_eq!(h.set(Ok(3)), vec![7]);
    assert!(h.is_ready() && h.is_ok() && !h.is_err());
    assert_eq!(h.get(), Some(&3));
    assert!(matches!(h.poll(8), Poll::Ready(Ok(3))));
    let mut e: Handle<u32> = Handle::new();
    e.set(Err(Error::NotFound));
    assert!(e.is_err());
    assert_eq!(e.get(), None);
}

#[test]
fn shared_future_is_polled_by_one_handle_at_a_time() {
    let mut f: SharedFuture<u32> = SharedFuture::new();
    let (first, slot_a) = f.begin_poll(None, 100);
    assert!(matches!(first, BeginPoll::PollFuture));
    let (second, slot_b) = f.begin_poll(None, 200);
    assert!(matches!(second, BeginPoll::Pending));
    assert_ne!(slot_a, slot_b);
    assert!(f.finish_poll(None).is_empty());
    let (third, _) = f.begin_poll(Some(slot_b), 201);
    assert!(matches!(third, BeginPoll::PollFuture));
    assert_eq!(f.finish_poll(Some(5)), vec![100, 201]);
    let (done, _) = f.begin_poll(Some(slot_a), 100);
    assert!(matches!(done, BeginPoll::Ready(5)));
}

#[test]
fn poisoned_future_stays_poisoned() {
    let mut f: SharedFuture<u32> = SharedFuture::new();
    let (_, slot) = f.begin_poll(None, 1);
    f.poison();
    let (r, _) = f.begin_poll(Some(slot), 1);
    assert!(matches!(r, BeginPoll::Poisoned));
    assert_eq!(f.wake_all(), vec![1]);
    assert!(f.wake_all().is_empty());
}
