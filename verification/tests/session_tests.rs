use parrot_sessions::idle::IdleMonitor;
use parrot_sessions::queue::TrackMetadata;
use parrot_sessions::session::{
    JoinError, LeaveOutcome, QueueError, SessionManager, TickOutcome,
};

fn track(artist: &str, title: &str) -> TrackMetadata {
    TrackMetadata { artist: String::from(artist), title: String::from(title) }
}

#[test]
fn join_connects_fresh_guild() {
    let mut m = SessionManager::new();
    assert_eq!(m.join(1, 10, true), Ok(()));
    assert_eq!(m.current_channel(1), Some(10));
    assert_eq!(m.current_channel(2), None);
}

#[test]
fn join_other_channel_is_refused_and_untouched() {
    let mut m = SessionManager::new();
    assert_eq!(m.join(7, 100, true), Ok(()));
    let r = m.join(7, 200, true);
    assert_eq!(r, Err(JoinError::AlreadyConnectedElsewhere));
    assert_eq!(m.current_channel(7), Some(100));
}

#[test]
fn rejoin_same_channel_is_idempotent() {
    let mut m = SessionManager::new();
    assert_eq!(m.join(7, 100, true), Ok(()));
    assert!(m.enqueue_track(7, track("a", "t")));
    assert_eq!(m.join(7, 100, true), Ok(()));
    assert_eq!(m.current_channel(7), Some(100));
    // the queue survived the re-join: pause finds something playing
    assert_eq!(m.pause(7, true), Ok(()));
}

#[test]
fn join_transport_failure_changes_nothing() {
    let mut m = SessionManager::new();
    assert_eq!(m.join(3, 30, false), Err(JoinError::TransportFailure));
    assert_eq!(m.current_channel(3), None);
}

#[test]
fn leave_twice_tears_down_once() {
    let mut m = SessionManager::new();
    assert_eq!(m.join(1, 10, true), Ok(()));
    assert_eq!(m.leave(1), LeaveOutcome::TornDown);
    assert_eq!(m.leave(1), LeaveOutcome::NotConnected);
    assert_eq!(m.current_channel(1), None);
}

#[test]
fn leave_unknown_guild_is_noop() {
    let mut m = SessionManager::new();
    assert_eq!(m.leave(42), LeaveOutcome::NotConnected);
}

#[test]
fn pause_resume_nothing_playing() {
    let mut m = SessionManager::new();
    // no session at all
    assert_eq!(m.pause(1, true), Err(QueueError::NothingPlaying));
    assert_eq!(m.resume(1, true), Err(QueueError::NothingPlaying));
    // a session with an empty queue
    assert_eq!(m.join(1, 10, true), Ok(()));
    assert_eq!(m.pause(1, true), Err(QueueError::NothingPlaying));
    assert_eq!(m.resume(1, true), Err(QueueError::NothingPlaying));
}

#[test]
fn pause_resume_follow_queue_operation() {
    let mut m = SessionManager::new();
    assert_eq!(m.join(1, 10, true), Ok(()));
    assert!(m.enqueue_track(1, track("artist", "title")));
    assert_eq!(m.pause(1, false), Err(QueueError::OperationFailed));
    assert_eq!(m.pause(1, true), Ok(()));
    assert_eq!(m.resume(1, false), Err(QueueError::OperationFailed));
    assert_eq!(m.resume(1, true), Ok(()));
}

#[test]
fn enqueue_without_session_fails() {
    let mut m = SessionManager::new();
    assert!(!m.enqueue_track(9, track("a", "t")));
}

#[test]
fn monitor_counts_and_resets() {
    let mut mon = IdleMonitor::fresh(3);
    assert!(!mon.tick(true));
    assert!(!mon.tick(true));
    // a non-empty observation resets the counter
    assert!(!mon.tick(false));
    assert!(!mon.tick(true));
    assert!(!mon.tick(true));
    // the third consecutive empty observation fires
    assert!(mon.tick(true));
}

#[test]
fn idle_disconnects_exactly_at_the_limit_after_reset() {
    let mut m = SessionManager::new();
    assert_eq!(m.join(5, 50, true), Ok(()));
    // 599 empty-queue ticks: still connected, still counting
    for _ in 0..599 {
        assert_eq!(m.idle_tick(5), TickOutcome::Counting);
    }
    // a track starts: the 600th observation is non-empty and resets the count
    assert!(m.enqueue_track(5, track("a", "t")));
    assert_eq!(m.idle_tick(5), TickOutcome::Counting);
    // the track ends; the queue is empty again
    let store = parrot_sessions::settings::SettingsStore::new();
    let reports = m.track_end(5, &Vec::new(), &store);
    assert_eq!(reports.len(), 0);
    // 600 more empty ticks: disconnected exactly once, at the 600th
    for _ in 0..599 {
        assert_eq!(m.idle_tick(5), TickOutcome::Counting);
    }
    assert_eq!(m.idle_tick(5), TickOutcome::AutoLeft);
    assert_eq!(m.current_channel(5), None);
    // nothing left to observe or tear down
    assert_eq!(m.idle_tick(5), TickOutcome::NotConnected);
    assert_eq!(m.leave(5), LeaveOutcome::NotConnected);
}

#[test]
fn interleaved_nonempty_ticks_never_trigger() {
    let mut mon = IdleMonitor::fresh(3);
    // two empties, a reset, again and again: the limit is never reached
    for _ in 0..10 {
        assert!(!mon.tick(true));
        assert!(!mon.tick(true));
        assert!(!mon.tick(false));
    }
}
