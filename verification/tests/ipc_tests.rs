use neatflix_mpvrs::errors::{Error, IoErrorKind};
use neatflix_mpvrs::ipc::{backoff_delays, MpvIpcClient, ReconnectOutcome, ReconnectPlan};
use neatflix_mpvrs::IpcConfig;

fn fresh_client() -> MpvIpcClient {
    MpvIpcClient::connect_with_config(String::from("/tmp/sock"), IpcConfig::default())
}

#[test]
fn backoff_doubles_up_to_the_cap() {
    let delays = backoff_delays(250, 5);
    assert_eq!(delays, vec![250, 500, 1000, 1000, 1000]);
}

#[test]
fn backoff_from_the_default_base() {
    let delays = backoff_delays(500, 4);
    assert_eq!(delays, vec![500, 1000, 1000, 1000]);
}

#[test]
fn request_ids_grow_by_one() {
    let mut c = fresh_client();
    let (id1, line1) = c.begin_request(Vec::new()).unwrap();
    let (id2, _line2) = c.begin_request(Vec::new()).unwrap();
    assert_eq!(id1, 1);
    assert_eq!(id2, 2);
    assert_eq!(line1, "{\"command\":[],\"request_id\":1}\n");
}

#[test]
fn command_after_close_fails_synchronously() {
    let mut c = fresh_client();
    c.close();
    match c.get_property_request("time-pos") {
        Err(Error::MpvError(m)) => assert_eq!(m, "Client was intentionally closed"),
        _ => panic!("closed client must refuse the request"),
    }
    // The identifier counter did not move: nothing was built or sent.
    assert_eq!(c.request_id, 1);
}

#[test]
fn close_is_idempotent() {
    let mut c = fresh_client();
    c.close();
    let after_first = (
        c.request_id,
        c.connected,
        c.intentionally_closed,
        c.reconnect_attempts,
    );
    c.close();
    let after_second = (
        c.request_id,
        c.connected,
        c.intentionally_closed,
        c.reconnect_attempts,
    );
    assert_eq!(after_first, after_second);
    assert!(c.intentionally_closed);
    assert!(!c.connected);
}

#[test]
fn closed_client_never_reconnects() {
    let mut c = fresh_client();
    c.mark_as_intentionally_closed();
    let attempts_before = c.reconnect_attempts;
    match c.reconnect_gate() {
        Err(Error::MpvError(m)) => assert_eq!(m, "Client was intentionally closed"),
        _ => panic!("closed client must refuse to reconnect"),
    }
    assert_eq!(c.reconnect_attempts, attempts_before);

    // The classifier never asks for a retry either.
    let io = Error::Io(IoErrorKind::Other, String::from("hiccup"));
    assert!(!c.should_reconnect(&io));
}

#[test]
fn terminal_errors_latch_the_client_closed() {
    for kind in [
        IoErrorKind::BrokenPipe,
        IoErrorKind::ConnectionRefused,
        IoErrorKind::ConnectionReset,
        IoErrorKind::UnexpectedEof,
        IoErrorKind::NotFound,
    ] {
        let mut c = fresh_client();
        let e = Error::Io(kind, String::from("io failure"));
        assert!(!c.should_reconnect(&e));
        assert!(c.intentionally_closed);
    }

    let mut c = fresh_client();
    let eof = Error::MpvError(String::from("End of file reached"));
    assert!(!c.should_reconnect(&eof));
    assert!(c.intentionally_closed);

    let mut c = fresh_client();
    let unavailable = Error::MpvError(String::from("property unavailable"));
    assert!(!c.should_reconnect(&unavailable));
    assert!(c.intentionally_closed);
}

#[test]
fn transient_errors_ask_for_one_retry() {
    let mut c = fresh_client();
    let e = Error::Io(IoErrorKind::TimedOut, String::from("slow"));
    assert!(c.should_reconnect(&e));
    assert!(!c.intentionally_closed);
}

#[test]
fn property_unavailable_is_transient_when_disconnected() {
    let mut c = fresh_client();
    c.handle_read_failure();
    assert!(!c.connected);
    let unavailable = Error::MpvError(String::from("property unavailable"));
    assert!(c.should_reconnect(&unavailable));
}

#[test]
fn reconnect_attempts_are_counted_and_bounded() {
    let mut c = MpvIpcClient::connect_with_config(
        String::from("/tmp/sock"),
        IpcConfig::new(5000, 100, true, 2, 500),
    );
    c.handle_read_failure();
    assert_eq!(
        c.reconnect_gate().unwrap(),
        ReconnectPlan::Attempt { min_wait_ms: 500 }
    );
    c.finish_reconnect(ReconnectOutcome::Failed);
    assert_eq!(
        c.reconnect_gate().unwrap(),
        ReconnectPlan::Attempt { min_wait_ms: 500 }
    );
    c.finish_reconnect(ReconnectOutcome::Failed);
    assert!(c.reconnect_gate().is_err());

    // A success resets the counter and restores the connection.
    let mut d = MpvIpcClient::connect_with_config(
        String::from("/tmp/sock"),
        IpcConfig::new(5000, 100, true, 2, 500),
    );
    d.handle_read_failure();
    d.reconnect_gate().unwrap();
    d.finish_reconnect(ReconnectOutcome::Connected);
    assert!(d.connected);
    assert_eq!(d.reconnect_attempts, 0);
    assert_eq!(d.reconnect_gate().unwrap(), ReconnectPlan::AlreadyConnected);
}

#[test]
fn refused_reconnect_means_the_player_is_gone() {
    let mut c = fresh_client();
    c.handle_read_failure();
    c.reconnect_gate().unwrap();
    c.finish_reconnect(ReconnectOutcome::Refused);
    assert!(c.intentionally_closed);
}

#[test]
fn send_failures_mark_the_transport_down() {
    let mut c = fresh_client();
    c.handle_send_failure(IoErrorKind::TimedOut);
    assert!(!c.connected);
    assert!(!c.intentionally_closed);

    let mut d = fresh_client();
    d.handle_send_failure(IoErrorKind::BrokenPipe);
    assert!(!d.connected);
    assert!(d.intentionally_closed);
}

#[test]
fn liveness_verdict_reads_the_probe_signals() {
    let mut c = fresh_client();
    assert!(c.is_running_verdict(true, true, true, false, false));
    assert!(!c.intentionally_closed);

    // Healthy probes beside an end-of-file indication: about to exit.
    let mut d = fresh_client();
    assert!(!d.is_running_verdict(true, false, false, false, true));
    assert!(d.intentionally_closed);

    // Every probe failed: the player is gone.
    let mut e = fresh_client();
    assert!(!e.is_running_verdict(false, false, false, false, false));
    assert!(e.intentionally_closed);

    // A closed client reports not running without touching anything.
    let mut f = fresh_client();
    f.close();
    assert!(!f.is_running_verdict(true, true, true, false, false));
}

#[test]
fn observe_request_carries_its_own_id() {
    let mut c = fresh_client();
    let (_, _) = c.begin_request(Vec::new()).unwrap();
    let (id, line) = c.observe_property_request("pause").unwrap();
    assert_eq!(id, 2);
    assert_eq!(
        line,
        "{\"command\":[\"observe_property\",2,\"pause\"],\"request_id\":2}\n"
    );
    let (id3, line3) = c.unobserve_property_request(id).unwrap();
    assert_eq!(id3, 3);
    assert_eq!(
        line3,
        "{\"command\":[\"unobserve_property\",2],\"request_id\":3}\n"
    );
}

#[test]
fn set_property_and_quit_requests() {
    let mut c = fresh_client();
    let (_, line) = c
        .set_property_request("volume", neatflix_mpvrs::protocol::JsonArg::Milli(80000))
        .unwrap();
    assert_eq!(
        line,
        "{\"command\":[\"set_property\",\"volume\",80.000],\"request_id\":1}\n"
    );
    let (_, quit) = c.quit_request().unwrap();
    assert_eq!(quit, "{\"command\":[\"quit\"],\"request_id\":2}\n");
}

#[test]
fn playback_control_requests() {
    let mut c = fresh_client();
    let (_, pause) = c.set_pause_request(true).unwrap();
    assert_eq!(
        pause,
        "{\"command\":[\"set_property\",\"pause\",true],\"request_id\":1}\n"
    );
    let (_, seek) = c.seek_request(90500).unwrap();
    assert_eq!(
        seek,
        "{\"command\":[\"seek\",90.500,\"absolute\"],\"request_id\":2}\n"
    );
    let (_, rel) = c.seek_relative_request(-10000).unwrap();
    assert_eq!(
        rel,
        "{\"command\":[\"seek\",-10.000,\"relative\"],\"request_id\":3}\n"
    );
    let (_, vol) = c.set_volume_request(80000).unwrap();
    assert_eq!(
        vol,
        "{\"command\":[\"set_property\",\"volume\",80.000],\"request_id\":4}\n"
    );
    let (_, speed) = c.set_speed_request(1500).unwrap();
    assert_eq!(
        speed,
        "{\"command\":[\"set_property\",\"speed\",1.500],\"request_id\":5}\n"
    );
    let (_, mute) = c.set_mute_request(false).unwrap();
    assert_eq!(
        mute,
        "{\"command\":[\"set_property\",\"mute\",false],\"request_id\":6}\n"
    );
    let (_, fs) = c.set_fullscreen_request(true).unwrap();
    assert_eq!(
        fs,
        "{\"command\":[\"set_property\",\"fullscreen\",true],\"request_id\":7}\n"
    );
}

#[test]
fn disconnected_without_auto_reconnect_fails_fast() {
    let mut c = MpvIpcClient::connect_with_config(
        String::from("/tmp/sock"),
        IpcConfig::without_reconnect(),
    );
    c.handle_read_failure();
    match c.begin_request(Vec::new()) {
        Err(Error::MpvError(m)) => assert_eq!(m, "Not connected to mpv"),
        _ => panic!("disconnected client without auto-reconnect must fail"),
    }
}
