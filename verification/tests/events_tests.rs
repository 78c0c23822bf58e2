use neatflix_mpvrs::events::is_standard_property;
use neatflix_mpvrs::events::{MpvEvent, MpvEventListener, PollSnapshot, ConnectionChange};
use neatflix_mpvrs::ipc::MpvIpcClient;
use neatflix_mpvrs::IpcConfig;

fn fresh_listener() -> MpvEventListener {
    let client =
        MpvIpcClient::connect_with_config(String::from("/tmp/sock"), IpcConfig::default());
    MpvEventListener::new(client)
}

fn snapshot() -> PollSnapshot {
    PollSnapshot {
        time_pos: None,
        percent_pos_mill: None,
        paused: None,
        eof_reached: false,
        idle_active: false,
        position_due: true,
    }
}

#[test]
fn no_property_is_registered_twice() {
    let mut l = fresh_listener();
    assert!(l.observe_property("time-pos", 1));
    assert!(l.observe_property("pause", 2));
    assert!(!l.observe_property("time-pos", 3));
    assert!(!l.observe_property("time-pos", 4));
    assert_eq!(l.observers.len(), 2);
    assert_eq!(l.observers[0].0, "time-pos");
    assert_eq!(l.observers[0].1, 1);
    assert_eq!(l.observers[1].0, "pause");
}

#[test]
fn position_updates_respect_the_threshold() {
    let mut l = fresh_listener();
    // Five-second threshold, positions in milliseconds.
    assert_eq!(l.position_threshold_ms, 5000);
    let mut emitted = 0;
    for pos in [10000i64, 10200, 10300, 20000] {
        let mut s = snapshot();
        s.time_pos = Some(pos);
        let events = l.poll_step(&s);
        for e in events {
            if let MpvEvent::TimePositionChanged(p) = e {
                emitted += 1;
                assert_eq!(p, 20000);
            }
        }
    }
    assert_eq!(emitted, 1);
    assert_eq!(l.last_time_pos, Some(20000));
}

#[test]
fn percent_updates_respect_the_threshold() {
    let mut l = fresh_listener();
    assert_eq!(l.percent_threshold_mill, 1000);
    let mut seen = Vec::new();
    for q in [10000i64, 10500, 11000, 10999] {
        let mut s = snapshot();
        s.percent_pos_mill = Some(q);
        for e in l.poll_step(&s) {
            if let MpvEvent::PercentPositionChanged(v) = e {
                seen.push(v);
            }
        }
    }
    // Baseline 10000; 10500 is under one percent; 11000 is exactly one.
    assert_eq!(seen, vec![11000]);
}

#[test]
fn position_is_not_reported_when_the_clock_says_no() {
    let mut l = fresh_listener();
    let mut s = snapshot();
    s.time_pos = Some(0);
    l.poll_step(&s); // baseline
    let mut s2 = snapshot();
    s2.time_pos = Some(60000);
    s2.position_due = false;
    assert!(l.poll_step(&s2).is_empty());
    // The baseline did not move either.
    assert_eq!(l.last_time_pos, Some(0));
}

#[test]
fn pause_events_are_edge_triggered() {
    let mut l = fresh_listener();
    let mut kinds = Vec::new();
    for paused in [false, false, true, true, false] {
        let mut s = snapshot();
        s.paused = Some(paused);
        for e in l.poll_step(&s) {
            kinds.push(match e {
                MpvEvent::PlaybackStarted => "started",
                MpvEvent::PlaybackPaused => "paused",
                MpvEvent::PlaybackResumed => "resumed",
                _ => "other",
            });
        }
    }
    assert_eq!(kinds, vec!["started", "paused", "resumed"]);
}

#[test]
fn completion_fires_once() {
    let mut l = fresh_listener();
    let mut s = snapshot();
    s.eof_reached = true;
    let first = l.poll_step(&s);
    assert!(matches!(first.as_slice(), [MpvEvent::PlaybackCompleted]));
    // Repeated end-of-file readings never fire again, nor does idle.
    assert!(l.poll_step(&s).is_empty());
    let mut s2 = snapshot();
    s2.idle_active = true;
    assert!(l.poll_step(&s2).is_empty());
}

#[test]
fn connection_transitions_are_reported() {
    let mut l = fresh_listener();
    assert_eq!(l.note_connection(true), ConnectionChange::Unchanged);
    assert_eq!(l.note_connection(false), ConnectionChange::Lost);
    assert_eq!(l.note_connection(false), ConnectionChange::Unchanged);
    assert_eq!(l.note_connection(true), ConnectionChange::Restored);
}

#[test]
fn reobservation_replays_every_tracked_property() {
    let mut l = fresh_listener();
    l.observe_property("time-pos", 1);
    l.observe_property("pause", 2);
    l.observe_property("eof-reached", 3);
    let names = l.begin_reobserve();
    assert_eq!(names, vec!["time-pos", "pause", "eof-reached"]);
    assert!(l.observers.is_empty());
    // Registering them again keeps the set free of duplicates.
    for (i, n) in names.iter().enumerate() {
        assert!(l.observe_property(n.as_str(), 10 + i as u64));
    }
    assert_eq!(l.observers.len(), 3);
}

#[test]
fn callbacks_fan_out_in_registration_order() {
    let mut l = fresh_listener();
    l.subscribe("pause", 1);
    l.subscribe("all", 2);
    l.subscribe("pause", 3);
    l.subscribe("time-pos", 4);
    assert_eq!(l.callbacks_for("pause"), vec![1, 3, 2]);
    assert_eq!(l.callbacks_for("time-pos"), vec![4, 2]);
    assert_eq!(l.callbacks_for("process"), vec![2]);
}

#[test]
fn stopping_hands_back_subscriptions_and_latches_the_client() {
    let mut l = fresh_listener();
    l.observe_property("pause", 7);
    l.observe_property("time-pos", 8);
    assert!(l.start_listening());
    assert!(!l.start_listening());
    let ids = l.stop_listening();
    assert_eq!(ids, vec![7, 8]);
    assert!(!l.is_running());
    assert!(l.client.intentionally_closed);
    // The tracked-property state is cleared with the stop.
    assert!(l.observers.is_empty());
    // A second stop changes nothing and hands back nothing.
    assert!(l.stop_listening().is_empty());
}

#[test]
fn process_exit_clears_the_tracked_properties() {
    let mut l = fresh_listener();
    l.observe_property("pause", 7);
    l.start_listening();
    l.handle_process_exit();
    assert!(!l.is_running());
    assert!(l.observers.is_empty());
    assert!(l.client.intentionally_closed);
    assert!(!l.client.connected);
}

#[test]
fn standard_properties_are_recognised() {
    for p in ["time-pos", "percent-pos", "pause", "mute", "volume", "eof-reached", "idle-active"] {
        assert!(is_standard_property(p));
    }
    assert!(!is_standard_property("process"));
    assert!(!is_standard_property("all"));
}
