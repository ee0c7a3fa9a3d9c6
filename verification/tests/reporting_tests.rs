use parrot_sessions::queue::TrackMetadata;
use parrot_sessions::reporting::plan_reports;
use parrot_sessions::session::SessionManager;
use parrot_sessions::settings::{GuildSettings, SettingsStore};

const GUILD: u64 = 11;
const USER_A: u64 = 1001;
const USER_B: u64 = 1002;
const USER_C: u64 = 1003;

fn settings_with_a_registered() -> GuildSettings {
    let mut s = GuildSettings::new(GUILD);
    s.add_lastfm_user(USER_A, String::from("token-a"));
    s
}

#[test]
fn fanout_reports_present_registered_users_only() {
    let settings = settings_with_a_registered();
    // A (registered) and B (unregistered) are present
    let present = vec![USER_A, USER_B];
    let reports = plan_reports(
        &String::from("Y"),
        &String::from("X"),
        &present,
        &settings,
    );
    assert_eq!(reports.len(), 1);
    assert_eq!(reports[0].user_id, USER_A);
    assert_eq!(reports[0].session_key, "token-a");
    assert_eq!(reports[0].artist, "Y");
    assert_eq!(reports[0].title, "X");
}

#[test]
fn fanout_skips_absent_users() {
    let mut settings = settings_with_a_registered();
    settings.add_lastfm_user(USER_C, String::from("token-c"));
    // C is registered but not present: no report for C
    let present = vec![USER_A];
    let reports = plan_reports(
        &String::from("Y"),
        &String::from("X"),
        &present,
        &settings,
    );
    assert_eq!(reports.len(), 1);
    assert_eq!(reports[0].user_id, USER_A);
}

#[test]
fn fanout_empty_presence_reports_nothing() {
    let settings = settings_with_a_registered();
    let present: Vec<u64> = Vec::new();
    let reports = plan_reports(
        &String::from("Y"),
        &String::from("X"),
        &present,
        &settings,
    );
    assert_eq!(reports.len(), 0);
}

#[test]
fn track_end_scenario_one_report_for_registered_present_user() {
    let mut store = SettingsStore::new();
    store.load(settings_with_a_registered());
    let mut m = SessionManager::new();
    assert_eq!(m.join(GUILD, 77, true), Ok(()));
    assert!(m.enqueue_track(
        GUILD,
        TrackMetadata { artist: String::from("Y"), title: String::from("X") },
    ));
    let present = vec![USER_A, USER_B];
    let reports = m.track_end(GUILD, &present, &store);
    assert_eq!(reports.len(), 1);
    assert_eq!(reports[0].user_id, USER_A);
    assert_eq!(reports[0].session_key, "token-a");
    assert_eq!(reports[0].artist, "Y");
    assert_eq!(reports[0].title, "X");
    // the queue advanced past the finished track: a second firing against
    // the now-empty queue reports nothing (the empty-queue race is skipped)
    let reports2 = m.track_end(GUILD, &present, &store);
    assert_eq!(reports2.len(), 0);
}

#[test]
fn track_end_without_settings_entry_reports_nothing() {
    let store = SettingsStore::new();
    let mut m = SessionManager::new();
    assert_eq!(m.join(GUILD, 77, true), Ok(()));
    assert!(m.enqueue_track(
        GUILD,
        TrackMetadata { artist: String::from("Y"), title: String::from("X") },
    ));
    let reports = m.track_end(GUILD, &vec![USER_A], &store);
    assert_eq!(reports.len(), 0);
}

#[test]
fn repeated_completions_report_again() {
    let mut store = SettingsStore::new();
    store.load(settings_with_a_registered());
    let mut m = SessionManager::new();
    assert_eq!(m.join(GUILD, 77, true), Ok(()));
    let t = TrackMetadata { artist: String::from("Y"), title: String::from("X") };
    assert!(m.enqueue_track(GUILD, t.clone()));
    assert!(m.enqueue_track(GUILD, t));
    // the same track finishing twice is two plays: no de-duplication
    assert_eq!(m.track_end(GUILD, &vec![USER_A], &store).len(), 1);
    assert_eq!(m.track_end(GUILD, &vec![USER_A], &store).len(), 1);
}
