use slovo::counts::{count_of, fetch_target, platform_credentials, CountsTracker, FetchOutcome, ViewerCounts};
use slovo::socket::{ClientMessage, SocketAction, SocketEvent, SocketSession};

#[test]
fn default_counts_are_empty() {
    let c = ViewerCounts::default();
    assert_eq!(c, ViewerCounts::new(None, None, None, None));
    assert_eq!(c.twitch(), None);
}

#[test]
fn outcomes_give_counts() {
    let c = ViewerCounts::from_outcomes(
        FetchOutcome::Fetched(97),
        FetchOutcome::Fetched(17232),
        FetchOutcome::Skipped,
        FetchOutcome::TimedOut,
    );
    assert_eq!(c.twitch(), Some(97));
    assert_eq!(c.kick(), Some(17232));
    assert_eq!(c.vk(), None);
    assert_eq!(c.youtube(), None);
    assert_eq!(count_of(FetchOutcome::Failed), None);
}

#[test]
fn unconfigured_platform_is_not_asked() {
    assert_eq!(fetch_target(false, Some("qadrat")), None);
    assert_eq!(fetch_target(true, None), None);
    assert_eq!(fetch_target(true, Some("qadrat")), Some("qadrat"));
}

#[test]
fn credentials_need_all_three_fields() {
    assert_eq!(platform_credentials(Some("id"), Some("s"), Some("u")), Some(("id", "s")));
    assert_eq!(platform_credentials(Some("id"), Some("s"), None), None);
    assert_eq!(platform_credentials(None, Some("s"), Some("u")), None);
    assert_eq!(platform_credentials(Some("id"), None, Some("u")), None);
}

#[test]
fn only_changes_are_shown() {
    let mut t = CountsTracker::new();
    assert!(!t.observe(ViewerCounts::default()));
    let a = ViewerCounts::new(Some(97), Some(17232), None, None);
    assert!(t.observe(a));
    assert!(!t.observe(a));
    let b = ViewerCounts::new(Some(98), Some(17232), None, None);
    assert!(t.observe(b));
    assert!(t.observe(a));
}

#[test]
fn socket_sends_only_changes() {
    let mut s = SocketSession::new(3000);
    let a = ViewerCounts::new(Some(1), None, None, None);
    assert_eq!(s.step(SocketEvent::Polled(ViewerCounts::default())), SocketAction::Wait);
    assert_eq!(s.step(SocketEvent::Polled(a)), SocketAction::Send(a));
    assert_eq!(s.step(SocketEvent::Delivered), SocketAction::Wait);
    assert_eq!(s.step(SocketEvent::Polled(a)), SocketAction::Wait);
    assert_eq!(s.step(SocketEvent::Client(ClientMessage::Other)), SocketAction::Wait);
    assert!(s.is_open());
}

#[test]
fn undelivered_counts_are_sent_again() {
    let mut s = SocketSession::new(3000);
    let a = ViewerCounts::new(None, Some(5), None, None);
    assert_eq!(s.step(SocketEvent::Polled(a)), SocketAction::Send(a));
    assert_eq!(s.step(SocketEvent::Polled(a)), SocketAction::Send(a));
}

#[test]
fn socket_finishes_on_close_and_stays_finished() {
    for m in [ClientMessage::Close, ClientMessage::Ended, ClientMessage::Error] {
        let mut s = SocketSession::new(3000);
        assert_eq!(s.step(SocketEvent::Client(m)), SocketAction::Finish);
        assert!(!s.is_open());
        let a = ViewerCounts::new(Some(1), None, None, None);
        assert_eq!(s.step(SocketEvent::Polled(a)), SocketAction::Finish);
    }
    let mut s = SocketSession::new(3000);
    let a = ViewerCounts::new(Some(1), None, None, None);
    assert_eq!(s.step(SocketEvent::Polled(a)), SocketAction::Send(a));
    assert_eq!(s.step(SocketEvent::SendFailed), SocketAction::Finish);
}

#[test]
fn polls_are_due_an_interval_apart() {
    let mut s = SocketSession::new(3000);
    assert_eq!(s.poll_wait(0), 3000);
    assert_eq!(s.poll_wait(1000), 2000);
    // a frame from the client does not put the poll off
    assert_eq!(s.step(SocketEvent::Client(ClientMessage::Other)), SocketAction::Wait);
    assert_eq!(s.poll_wait(1500), 1500);
    assert_eq!(s.poll_wait(3500), 0);
    s.poll_finished(3600);
    assert_eq!(s.poll_wait(3600), 3000);
    s.poll_finished(u64::MAX - 1);
    assert_eq!(s.poll_wait(u64::MAX - 1), 1);
}

#[test]
fn a_run_sends_each_change_once() {
    let mut s = SocketSession::new(1);
    let a = ViewerCounts::new(Some(97), Some(17232), None, None);
    let b = ViewerCounts::new(Some(98), Some(17232), None, None);
    let mut sent = Vec::new();
    for c in [ViewerCounts::default(), a, a, b, b, a] {
        if let SocketAction::Send(x) = s.step(SocketEvent::Polled(c)) {
            sent.push(x);
            assert_eq!(s.step(SocketEvent::Delivered), SocketAction::Wait);
        }
    }
    assert_eq!(sent, vec![a, b, a]);
}
