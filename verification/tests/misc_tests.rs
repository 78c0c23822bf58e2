use neatflix_mpvrs::errors::Error;
use neatflix_mpvrs::ids::{generate_socket_path, is_socket_file_name, VideoId};
use neatflix_mpvrs::models::PluginError;
use neatflix_mpvrs::options::{
    spawn_options_from, update_window_commands, PlaybackOptions, WindowOptions,
};
use neatflix_mpvrs::protocol::JsonArg;
use neatflix_mpvrs::process::{apply_window_options, build_spawn_args};
use neatflix_mpvrs::{
    get_assets_path, get_mpv_config_path, initialize_default_config, version, IpcConfig,
    DEFAULT_IPC_POLL_INTERVAL_MS, DEFAULT_IPC_TIMEOUT_MS, DEFAULT_MAX_RECONNECT_ATTEMPTS,
    DEFAULT_RECONNECT_DELAY_MS,
};

#[test]
fn ipc_config_constructors() {
    let d = IpcConfig::default();
    assert_eq!(d.timeout_ms, DEFAULT_IPC_TIMEOUT_MS);
    assert_eq!(d.poll_interval_ms, DEFAULT_IPC_POLL_INTERVAL_MS);
    assert!(d.auto_reconnect);
    assert_eq!(d.max_reconnect_attempts, DEFAULT_MAX_RECONNECT_ATTEMPTS);
    assert_eq!(d.reconnect_delay_ms, DEFAULT_RECONNECT_DELAY_MS);

    let n = IpcConfig::new(1000, 50, false, 7, 125);
    assert_eq!(
        (n.timeout_ms, n.poll_interval_ms, n.auto_reconnect, n.max_reconnect_attempts,
         n.reconnect_delay_ms),
        (1000, 50, false, 7, 125)
    );

    let w = IpcConfig::without_reconnect();
    assert!(!w.auto_reconnect);
    assert_eq!(w.max_reconnect_attempts, 0);

    let a = IpcConfig::with_aggressive_reconnect();
    assert!(a.auto_reconnect);
    assert_eq!(a.max_reconnect_attempts, 10);
    assert_eq!(a.reconnect_delay_ms, 250);
}

#[test]
fn version_is_stable() {
    assert_eq!(version(), "0.1.0");
}

#[test]
fn asset_and_config_paths() {
    assert_eq!(get_assets_path("/opt/app"), "/opt/app/mpv_config");
    assert_eq!(get_mpv_config_path("/opt/app"), "/opt/app/mpv_config");
}

#[test]
fn default_config_is_written_only_when_missing() {
    assert!(initialize_default_config(true).is_none());
    let text = initialize_default_config(false).unwrap();
    assert!(text.contains("vo=libmpv"));
    assert!(text.contains("volume=80"));
    assert!(text.ends_with('\n'));
}

#[test]
fn video_ids_round_trip_through_text() {
    let id = VideoId::new();
    let s = id.to_string();
    assert_eq!(s.len(), 36);
    let back = VideoId::from_string(s.as_str()).unwrap();
    assert_eq!(back.raw, id.raw);
    assert!(VideoId::from_string("not-a-uuid").is_err());
}

#[test]
fn fresh_ids_differ() {
    let a = VideoId::new();
    let b = VideoId::new();
    assert_ne!(a.raw, b.raw);
}

#[test]
fn socket_paths_are_fresh_and_prefixed() {
    let a = generate_socket_path();
    let b = generate_socket_path();
    assert!(a.starts_with("/tmp/mpv-socket-"));
    assert_eq!(a.len(), 52);
    assert_ne!(a, b);
}

#[test]
fn socket_file_names_are_recognised() {
    assert!(is_socket_file_name("mpv-socket-123"));
    assert!(is_socket_file_name("mpv-socket-"));
    assert!(!is_socket_file_name("mpv-socket"));
    assert!(!is_socket_file_name("other-socket-123"));
}

#[test]
fn playback_options_become_spawn_flags() {
    let mut o = PlaybackOptions::default();
    assert!(o.report_progress);
    assert_eq!(o.progress_interval_ms, Some(1000));
    o.start_time_ms = Some(90500);
    o.title = Some(String::from("My Film"));
    o.extra_args = vec![String::from("--mute=yes")];
    let s = spawn_options_from(&o);
    assert_eq!(s.extra_args, vec!["--mute=yes", "--start=90.500", "--title=My Film"]);
}

#[test]
fn window_options_become_flags() {
    let w = WindowOptions {
        borderless: true,
        position: Some((100, -20)),
        size: Some((1280, 720)),
        always_on_top: true,
        opacity_mill: Some(750),
        start_hidden: true,
    };
    let mut args: Vec<String> = Vec::new();
    apply_window_options(&mut args, &w);
    assert_eq!(
        args,
        vec![
            "--border=no",
            "--no-window-decorations",
            "--geometry=1280x720+100+-20",
            "--ontop",
            "--alpha=0.750",
            "--force-window=yes",
            "--start-hidden",
        ]
    );
}

#[test]
fn opacity_is_clamped_to_opaque() {
    let w = WindowOptions {
        borderless: false,
        position: None,
        size: None,
        always_on_top: false,
        opacity_mill: Some(5000),
        start_hidden: false,
    };
    let mut args: Vec<String> = Vec::new();
    apply_window_options(&mut args, &w);
    assert_eq!(args, vec!["--alpha=1.000"]);
}

#[test]
fn spawn_args_carry_everything_in_order() {
    let preset_args = vec![String::from("--profile=gpu-hq")];
    let extra = vec![String::from("--mute=yes")];
    let args = build_spawn_args(
        "movie.mkv",
        "/tmp/mpv-socket-x",
        "/opt/app/mpv_config",
        &preset_args,
        &None,
        &extra,
    );
    assert_eq!(
        args,
        vec![
            "--msg-level=all=v",
            "--config-dir=/opt/app/mpv_config",
            "--osc=no",
            "--osd-bar=no",
            "--input-ipc-server=/tmp/mpv-socket-x",
            "--profile=gpu-hq",
            "--border=no",
            "--mute=yes",
            "movie.mkv",
        ]
    );
}

#[test]
fn spawn_args_with_window_replace_the_default_border_flag() {
    let args = build_spawn_args(
        "http://example/stream",
        "/tmp/mpv-socket-y",
        "/cfg",
        &Vec::new(),
        &Some(WindowOptions {
            borderless: false,
            position: None,
            size: Some((640, 480)),
            always_on_top: false,
            opacity_mill: None,
            start_hidden: false,
        }),
        &Vec::new(),
    );
    assert_eq!(
        args,
        vec![
            "--msg-level=all=v",
            "--config-dir=/cfg",
            "--osc=no",
            "--osd-bar=no",
            "--input-ipc-server=/tmp/mpv-socket-y",
            "--geometry=640x480",
            "http://example/stream",
        ]
    );
}

#[test]
fn window_updates_become_property_writes() {
    let w = WindowOptions {
        borderless: false,
        position: Some((100, 50)),
        size: Some((800, 600)),
        always_on_top: true,
        opacity_mill: Some(2000),
        start_hidden: true,
    };
    let cmds = update_window_commands(&w);
    assert_eq!(cmds.len(), 5);
    assert_eq!(cmds[0].0, "window-pos");
    assert!(matches!(&cmds[0].1, JsonArg::Str(s) if s == "100+50"));
    assert_eq!(cmds[1].0, "geometry");
    assert!(matches!(&cmds[1].1, JsonArg::Str(s) if s == "800x600"));
    assert_eq!(cmds[2].0, "ontop");
    assert!(matches!(cmds[2].1, JsonArg::Bool(true)));
    assert_eq!(cmds[3].0, "alpha");
    assert!(matches!(cmds[3].1, JsonArg::Milli(1000)));
    assert_eq!(cmds[4].0, "window-minimized");
    assert!(matches!(cmds[4].1, JsonArg::Bool(true)));

    let none = update_window_commands(&WindowOptions::default());
    assert!(none.is_empty());
}

#[test]
fn progress_reports_carry_the_percentage() {
    let p = neatflix_mpvrs::models::make_progress(2500, 10000, true);
    assert_eq!(p.position_ms, 2500);
    assert_eq!(p.duration_ms, 10000);
    assert_eq!(p.percent_mill, 25000);
    assert!(p.is_paused);
}

#[test]
fn plugin_errors_map_to_library_errors() {
    match PluginError::MpvError(String::from("boom")).into_error() {
        Error::MpvError(m) => assert_eq!(m, "boom"),
        _ => panic!("wrong mapping"),
    }
    match PluginError::VideoIdError(String::from("bad")).into_error() {
        Error::VideoIdError(m) => assert_eq!(m, "bad"),
        _ => panic!("wrong mapping"),
    }
}
