pub mod errors;
pub mod events;
pub mod ids;
pub mod ipc;
pub mod manager;
pub mod models;
pub mod options;
pub mod presets;
pub mod process;
pub mod protocol;
pub mod text;

use vstd::prelude::*;
use vstd::string::StringExecFns;

verus! {

/// The library's version.
pub fn version() -> (r: &'static str)
    ensures
        r@ == "0.1.0"@,
{
    let v = "0.1.0";
    proof {
        assert(v@ == "0.1.0"@);
    }
    v
}

/// The player-configuration directory under a base directory.
pub fn get_assets_path(base_dir: &str) -> (r: String)
    ensures
        r@ == base_dir@ + "/mpv_config"@,
{
    let mut path = String::new();
    path.append(base_dir);
    path.append("/mpv_config");
    proof {
        assert(path@ =~= base_dir@ + "/mpv_config"@);
    }
    path
}

/// The path of the player's configuration directory; the same directory the
/// assets live in.
pub fn get_mpv_config_path(base_dir: &str) -> (r: String)
    ensures
        r@ == base_dir@ + "/mpv_config"@,
{
    get_assets_path(base_dir)
}

/// The content of the default player configuration file.
pub open spec fn spec_default_config_text() -> Seq<char> {
    "# Auto-generated default configuration\nvo=libmpv\nhwdec=auto\naudio-channels=stereo\nvolume=80\nosc=yes\nosd-font-size=30\nosd-bar=yes\n"@
}

/// Decides the default-configuration write: a configuration file already on
/// disk is left alone; a missing one gets the default content.
pub fn initialize_default_config(mpv_conf_exists: bool) -> (r: Option<String>)
    ensures
        mpv_conf_exists ==> r is None,
        !mpv_conf_exists ==> (r matches Some(text) && text@ == spec_default_config_text()),
{
    if mpv_conf_exists {
        None
    } else {
        Some(
            String::from_str(
                "# Auto-generated default configuration\nvo=libmpv\nhwdec=auto\naudio-channels=stereo\nvolume=80\nosc=yes\nosd-font-size=30\nosd-bar=yes\n",
            ),
        )
    }
}

/// A listener over its dedicated client, ready to be started: nothing
/// observed, no callbacks registered, no edge-detection baselines yet, and
/// not running until it is started.
pub fn create_event_listener(ipc_client: ipc::MpvIpcClient) -> (r: events::MpvEventListener)
    ensures
        r.client == ipc_client,
        !r.running,
        r.observers@ =~= Seq::<(String, u64)>::empty(),
        r.callbacks@ =~= Seq::<(String, u64)>::empty(),
        r.connection_status,
        r.last_time_pos is None,
        r.last_percent_mill is None,
        r.last_pause is None,
        !r.completed_fired,
        r.position_threshold_ms == events::DEFAULT_POSITION_THRESHOLD_MS,
        r.percent_threshold_mill == events::DEFAULT_PERCENT_THRESHOLD_MILL,
{
    events::MpvEventListener::new(ipc_client)
}

/// Default timeout for a response read, in milliseconds.
pub const DEFAULT_IPC_TIMEOUT_MS: u64 = 5000;

/// Default polling interval for player state, in milliseconds.
pub const DEFAULT_IPC_POLL_INTERVAL_MS: u64 = 100;

/// Default maximum number of reconnection attempts.
pub const DEFAULT_MAX_RECONNECT_ATTEMPTS: u32 = 5;

/// Default delay between reconnection attempts, in milliseconds.
pub const DEFAULT_RECONNECT_DELAY_MS: u64 = 500;

/// Configuration for one IPC connection to the player process.
#[derive(Debug, Clone)]
pub struct IpcConfig {
    /// Budget for one blocking response read, in milliseconds.
    pub timeout_ms: u64,
    /// Interval between state polls, in milliseconds.
    pub poll_interval_ms: u64,
    /// Whether a failed request may trigger an automatic reconnect.
    pub auto_reconnect: bool,
    /// Maximum number of reconnection attempts.
    pub max_reconnect_attempts: u32,
    /// Base delay between reconnection attempts, in milliseconds.
    pub reconnect_delay_ms: u64,
}

impl IpcConfig {
    /// Creates a configuration with the given values.
    pub fn new(
        timeout_ms: u64,
        poll_interval_ms: u64,
        auto_reconnect: bool,
        max_reconnect_attempts: u32,
        reconnect_delay_ms: u64,
    ) -> (r: Self)
        ensures
            r.timeout_ms == timeout_ms,
            r.poll_interval_ms == poll_interval_ms,
            r.auto_reconnect == auto_reconnect,
            r.max_reconnect_attempts == max_reconnect_attempts,
            r.reconnect_delay_ms == reconnect_delay_ms,
    {
        IpcConfig { timeout_ms, poll_interval_ms, auto_reconnect, max_reconnect_attempts, reconnect_delay_ms }
    }

    /// Creates a configuration that never reconnects automatically.
    pub fn without_reconnect() -> (r: Self)
        ensures
            r.timeout_ms == DEFAULT_IPC_TIMEOUT_MS,
            r.poll_interval_ms == DEFAULT_IPC_POLL_INTERVAL_MS,
            !r.auto_reconnect,
            r.max_reconnect_attempts == 0,
            r.reconnect_delay_ms == DEFAULT_RECONNECT_DELAY_MS,
    {
        IpcConfig {
            timeout_ms: DEFAULT_IPC_TIMEOUT_MS,
            poll_interval_ms: DEFAULT_IPC_POLL_INTERVAL_MS,
            auto_reconnect: false,
            max_reconnect_attempts: 0,
            reconnect_delay_ms: DEFAULT_RECONNECT_DELAY_MS,
        }
    }

    /// Creates a configuration with more aggressive reconnection settings.
    pub fn with_aggressive_reconnect() -> (r: Self)
        ensures
            r.timeout_ms == DEFAULT_IPC_TIMEOUT_MS,
            r.poll_interval_ms == DEFAULT_IPC_POLL_INTERVAL_MS,
            r.auto_reconnect,
            r.max_reconnect_attempts == 10,
            r.reconnect_delay_ms == 250,
    {
        IpcConfig {
            timeout_ms: DEFAULT_IPC_TIMEOUT_MS,
            poll_interval_ms: DEFAULT_IPC_POLL_INTERVAL_MS,
            auto_reconnect: true,
            max_reconnect_attempts: 10,
            reconnect_delay_ms: 250,
        }
    }
}

impl Default for IpcConfig {
    /// The default configuration: reconnection enabled with the default budget.
    fn default() -> (r: Self)
        ensures
            r.timeout_ms == DEFAULT_IPC_TIMEOUT_MS,
            r.poll_interval_ms == DEFAULT_IPC_POLL_INTERVAL_MS,
            r.auto_reconnect,
            r.max_reconnect_attempts == DEFAULT_MAX_RECONNECT_ATTEMPTS,
            r.reconnect_delay_ms == DEFAULT_RECONNECT_DELAY_MS,
    {
        IpcConfig {
            timeout_ms: DEFAULT_IPC_TIMEOUT_MS,
            poll_interval_ms: DEFAULT_IPC_POLL_INTERVAL_MS,
            auto_reconnect: true,
            max_reconnect_attempts: DEFAULT_MAX_RECONNECT_ATTEMPTS,
            reconnect_delay_ms: DEFAULT_RECONNECT_DELAY_MS,
        }
    }
}

} // verus!
