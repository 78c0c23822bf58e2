use neatflix_mpvrs::ids::VideoId;
use neatflix_mpvrs::manager::{
    monitor_step, new_monitor_state, percent_mill, playback_status, MonitorDirective,
    MonitorSnapshot, PlaybackStatus, VideoEvent, VideoInstance, VideoManager,
};

fn instance(raw: u128) -> VideoInstance {
    VideoInstance {
        id: VideoId::from_raw(raw),
        socket_path: String::from("/tmp/sock"),
        has_listener: true,
    }
}

fn quiet_snapshot() -> MonitorSnapshot {
    MonitorSnapshot {
        intentionally_closed: false,
        pid_ok: true,
        status: Some(PlaybackStatus::Playing),
        position_ms: None,
        duration_ms: None,
        paused: false,
        eof_reached: false,
        idle_active: false,
    }
}

#[test]
fn close_removes_then_second_close_is_a_no_op() {
    let mut m = VideoManager::new();
    assert!(m.register_instance(instance(1)));
    assert!(m.register_instance(instance(2)));

    let first = m.close(VideoId::from_raw(1));
    assert!(first.is_some());
    assert!(!m.contains_instance(VideoId::from_raw(1)));
    assert!(m.contains_instance(VideoId::from_raw(2)));

    let second = m.close(VideoId::from_raw(1));
    assert!(second.is_none());
    assert_eq!(m.instances.len(), 1);
}

#[test]
fn closing_an_unknown_id_is_a_no_op() {
    let mut m = VideoManager::new();
    m.register_instance(instance(5));
    assert!(m.close(VideoId::from_raw(99)).is_none());
    assert_eq!(m.instances.len(), 1);
}

#[test]
fn duplicate_registration_is_refused() {
    let mut m = VideoManager::new();
    assert!(m.register_instance(instance(7)));
    assert!(!m.register_instance(instance(7)));
    assert_eq!(m.instances.len(), 1);
}

#[test]
fn terminal_events_are_delivered_at_most_once() {
    let mut m = VideoManager::new();
    let id = VideoId::from_raw(3);
    assert!(m.plan_notification(&VideoEvent::Closed { id }));
    assert!(!m.plan_notification(&VideoEvent::Closed { id }));
    assert!(!m.plan_notification(&VideoEvent::Closed { id }));
    // The other terminal kind has its own budget of one.
    assert!(m.plan_notification(&VideoEvent::Ended { id }));
    assert!(!m.plan_notification(&VideoEvent::Ended { id }));
    // Another instance is unaffected.
    let other = VideoId::from_raw(4);
    assert!(m.plan_notification(&VideoEvent::Closed { id: other }));
    // Non-terminal events always pass.
    assert!(m.plan_notification(&VideoEvent::Paused { id }));
    assert!(m.plan_notification(&VideoEvent::Paused { id }));
}

#[test]
fn two_instances_close_all_and_single_closed_each() {
    let mut m = VideoManager::new();
    let a = VideoId::new();
    let b = VideoId::new();
    assert_ne!(a.raw, b.raw);
    assert!(m.register_instance(VideoInstance {
        id: a,
        socket_path: String::from("/tmp/a"),
        has_listener: true,
    }));
    assert!(m.register_instance(VideoInstance {
        id: b,
        socket_path: String::from("/tmp/b"),
        has_listener: false,
    }));

    m.subscribe(100);
    let removed = m.close_all();
    let ids: Vec<u128> = removed.iter().map(|i| i.id.raw).collect();
    assert_eq!(ids.len(), 2);
    assert!(ids.contains(&a.raw));
    assert!(ids.contains(&b.raw));
    assert!(m.instances.is_empty());

    // On the shared stream, each instance's closed event goes out once even
    // when the teardown path and a monitor race to report it.
    let mut delivered = 0;
    for id in [a, b, a, b] {
        if m.plan_notification(&VideoEvent::Closed { id }) {
            delivered += 1;
        }
    }
    assert_eq!(delivered, 2);
}

#[test]
fn subscribers_come_and_go() {
    let mut m = VideoManager::new();
    m.subscribe(1);
    m.subscribe(2);
    m.subscribe(1);
    m.unsubscribe(1);
    assert_eq!(m.subscribers, vec![2]);
    m.unsubscribe(42);
    assert_eq!(m.subscribers, vec![2]);
}

#[test]
fn monitor_reports_progress_and_pause_transitions() {
    let id = VideoId::from_raw(9);
    let mut st = new_monitor_state();

    let mut s = quiet_snapshot();
    s.position_ms = Some(1000);
    s.duration_ms = Some(10000);
    let (events, dir) = monitor_step(&mut st, &s, id);
    assert_eq!(dir, MonitorDirective::Continue);
    assert_eq!(events.len(), 1);
    match &events[0] {
        VideoEvent::Progress { position_ms, duration_ms, percent_mill, .. } => {
            assert_eq!(*position_ms, 1000);
            assert_eq!(*duration_ms, 10000);
            assert_eq!(*percent_mill, 10000); // ten percent, in thousandths
        }
        _ => panic!("progress event expected"),
    }

    // The same position again is not repeated.
    let (events, _) = monitor_step(&mut st, &s, id);
    assert!(events.is_empty());

    // A pause flip is reported once.
    let mut s2 = s.clone();
    s2.paused = true;
    s2.status = Some(PlaybackStatus::Paused);
    let (events, _) = monitor_step(&mut st, &s2, id);
    assert_eq!(events.len(), 1);
    assert!(matches!(events[0], VideoEvent::Paused { .. }));
    let (events, _) = monitor_step(&mut st, &s2, id);
    assert!(events.is_empty());
}

#[test]
fn monitor_ends_once_on_end_of_file() {
    let id = VideoId::from_raw(9);
    let mut st = new_monitor_state();
    let mut s = quiet_snapshot();
    s.eof_reached = true;
    let (events, dir) = monitor_step(&mut st, &s, id);
    assert_eq!(dir, MonitorDirective::Stop { mark_closed: true });
    assert!(matches!(events.last(), Some(VideoEvent::Ended { .. })));
    // A tick after the terminal one emits nothing.
    let (events, dir) = monitor_step(&mut st, &s, id);
    assert!(events.is_empty());
    assert_eq!(dir, MonitorDirective::Stop { mark_closed: false });
}

#[test]
fn monitor_counts_consecutive_errors() {
    let id = VideoId::from_raw(9);
    let mut st = new_monitor_state();
    let mut s = quiet_snapshot();
    s.pid_ok = false;
    s.status = None;

    let (e1, d1) = monitor_step(&mut st, &s, id);
    assert!(e1.is_empty());
    assert_eq!(d1, MonitorDirective::Continue);
    let (e2, d2) = monitor_step(&mut st, &s, id);
    assert!(e2.is_empty());
    assert_eq!(d2, MonitorDirective::Continue);
    // The third failure reaches the limit: the player counts as exited.
    let (e3, d3) = monitor_step(&mut st, &s, id);
    assert_eq!(d3, MonitorDirective::Stop { mark_closed: true });
    assert!(matches!(e3.as_slice(), [VideoEvent::Closed { .. }]));
}

#[test]
fn one_successful_probe_resets_the_error_count() {
    let id = VideoId::from_raw(9);
    let mut st = new_monitor_state();
    let mut bad = quiet_snapshot();
    bad.pid_ok = false;
    bad.status = None;
    monitor_step(&mut st, &bad, id);
    monitor_step(&mut st, &bad, id);
    assert_eq!(st.consecutive_errors, 2);
    monitor_step(&mut st, &quiet_snapshot(), id);
    assert_eq!(st.consecutive_errors, 0);
    let (_, dir) = monitor_step(&mut st, &bad, id);
    assert_eq!(dir, MonitorDirective::Continue);
}

#[test]
fn monitor_treats_an_idle_transition_as_external_close() {
    let id = VideoId::from_raw(9);
    let mut st = new_monitor_state();
    monitor_step(&mut st, &quiet_snapshot(), id);
    let mut s = quiet_snapshot();
    s.status = Some(PlaybackStatus::Idle);
    let (events, dir) = monitor_step(&mut st, &s, id);
    assert_eq!(dir, MonitorDirective::Stop { mark_closed: true });
    assert!(matches!(events.as_slice(), [VideoEvent::Closed { .. }]));
}

#[test]
fn monitor_stops_without_marking_when_already_closed() {
    let id = VideoId::from_raw(9);
    let mut st = new_monitor_state();
    let mut s = quiet_snapshot();
    s.intentionally_closed = true;
    let (events, dir) = monitor_step(&mut st, &s, id);
    assert_eq!(dir, MonitorDirective::Stop { mark_closed: false });
    assert!(matches!(events.as_slice(), [VideoEvent::Closed { .. }]));
}

#[test]
fn percent_is_computed_in_thousandths() {
    assert_eq!(percent_mill(0, 10000), 0);
    assert_eq!(percent_mill(5000, 10000), 50000);
    assert_eq!(percent_mill(10000, 10000), 100000);
    assert_eq!(percent_mill(1, 3), 33333);
    assert_eq!(percent_mill(5000, 0), 0);
    assert_eq!(percent_mill(-1, 10000), 0);
}

#[test]
fn coarse_status_prefers_paused_over_idle() {
    assert_eq!(playback_status(true, true), PlaybackStatus::Paused);
    assert_eq!(playback_status(false, true), PlaybackStatus::Idle);
    assert_eq!(playback_status(false, false), PlaybackStatus::Playing);
}
