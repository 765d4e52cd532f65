use ashpd::desktop::request::{PendingRequest, RequestPath};

fn path(text: &str) -> RequestPath {
    RequestPath::new(text)
}

#[test]
fn signal_before_the_wait_is_delivered() {
    let mut pending = PendingRequest::subscribe(path("/request/a"));
    assert!(!pending.is_ready());
    assert!(pending.deliver(&path("/request/a"), 0, "payload"));
    assert!(pending.is_ready());
    assert_eq!(pending.take(), Some((0, "payload")));
}

#[test]
fn result_is_handed_out_once() {
    let mut pending = PendingRequest::subscribe(path("/request/a"));
    assert_eq!(pending.take(), None);
    assert!(pending.is_live());
    assert!(pending.deliver(&path("/request/a"), 2, 5u8));
    assert_eq!(pending.take(), Some((2, 5)));
    assert_eq!(pending.take(), None);
    assert!(!pending.is_live());
    assert!(!pending.is_ready());
}

#[test]
fn second_signal_is_dropped() {
    let mut pending = PendingRequest::subscribe(path("/request/a"));
    assert!(pending.deliver(&path("/request/a"), 0, "first"));
    assert!(!pending.deliver(&path("/request/a"), 1, "second"));
    assert_eq!(pending.take(), Some((0, "first")));
    assert!(!pending.deliver(&path("/request/a"), 0, "third"));
    assert_eq!(pending.take(), None);
}

#[test]
fn signal_for_another_path_is_dropped() {
    let mut pending = PendingRequest::subscribe(path("/request/a"));
    assert!(!pending.deliver(&path("/request/b"), 0, "other"));
    assert!(!pending.is_ready());
    assert_eq!(pending.take(), None);
    assert!(pending.deliver(&path("/request/a"), 0, "mine"));
    assert_eq!(pending.take(), Some((0, "mine")));
}

#[test]
fn resubscribing_moves_the_request() {
    let mut pending = PendingRequest::subscribe(path("/request/predicted"));
    assert!(pending.resubscribe(path("/request/actual")));
    assert_eq!(pending.path().as_str(), "/request/actual");
    assert!(!pending.deliver(&path("/request/predicted"), 0, "stale"));
    assert!(pending.deliver(&path("/request/actual"), 0, "fresh"));
    assert_eq!(pending.take(), Some((0, "fresh")));
}

#[test]
fn resubscribing_keeps_a_result_that_arrived_before() {
    let mut pending = PendingRequest::subscribe(path("/request/predicted"));
    assert!(pending.deliver(&path("/request/predicted"), 0, "early"));
    assert!(pending.resubscribe(path("/request/actual")));
    assert!(!pending.deliver(&path("/request/actual"), 0, "late"));
    assert_eq!(pending.take(), Some((0, "early")));
}

#[test]
fn abandoning_closes_once_and_ignores_later_signals() {
    let mut pending = PendingRequest::subscribe(path("/request/a"));
    let close = pending.abandon();
    assert_eq!(close, Some(path("/request/a")));
    assert_eq!(pending.abandon(), None);
    assert!(!pending.is_live());
    assert!(!pending.deliver(&path("/request/a"), 0, "late"));
    assert!(!pending.is_ready());
    assert_eq!(pending.take(), None);
    assert_eq!(pending.abandon(), None);
}

#[test]
fn abandoning_discards_a_waiting_result() {
    let mut pending = PendingRequest::subscribe(path("/request/a"));
    assert!(pending.deliver(&path("/request/a"), 0, "unread"));
    assert_eq!(pending.abandon(), Some(path("/request/a")));
    assert_eq!(pending.take(), None);
}

#[test]
fn nothing_to_close_after_the_result_was_taken() {
    let mut pending = PendingRequest::subscribe(path("/request/a"));
    assert!(pending.deliver(&path("/request/a"), 0, "done"));
    assert_eq!(pending.take(), Some((0, "done")));
    assert_eq!(pending.abandon(), None);
    assert!(!pending.resubscribe(path("/request/b")));
    assert_eq!(pending.path().as_str(), "/request/a");
}
