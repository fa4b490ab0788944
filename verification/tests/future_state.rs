use concurrency_examples::future_state::{PollState, SharedState};

#[test]
fn pending_until_completed_then_ready() {
    let mut s: SharedState<&str> = SharedState::new();
    assert!(!s.completed);
    assert!(s.waker.is_none());
    assert_eq!(s.poll("first"), PollState::Pending);
    assert_eq!(s.waker, Some("first"));
    assert_eq!(s.poll("second"), PollState::Pending);
    assert_eq!(s.waker, Some("second"));
    assert_eq!(s.complete(), Some("second"));
    assert!(s.completed);
    assert_eq!(s.poll("third"), PollState::Ready);
    assert!(s.waker.is_none());
    assert_eq!(s.complete(), None);
}

#[test]
fn completing_before_any_poll_wakes_nobody() {
    let mut s: SharedState<u32> = SharedState::new();
    assert_eq!(s.complete(), None);
    assert_eq!(s.poll(1), PollState::Ready);
}

#[test]
fn a_ready_future_stays_ready() {
    let mut s: SharedState<u32> = SharedState::new();
    assert_eq!(s.poll(1), PollState::Pending);
    assert_eq!(s.complete(), Some(1));
    for w in 2..6 {
        assert_eq!(s.poll(w), PollState::Ready);
        assert!(s.completed);
        assert_eq!(s.complete(), None);
        assert!(s.completed);
    }
}
