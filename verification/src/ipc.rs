//! The IPC client's protocol engine: request-identifier assignment, the
//! sticky intentionally-closed latch, the terminal/transient error split,
//! reconnection gating with exponential backoff, and the liveness verdict.
//!
//! The engine holds every decision the client makes; the embedding program
//! owns the socket, performs each read and write the engine asks for, and
//! reports the outcome back.

use vstd::prelude::*;
use crate::IpcConfig;
use crate::errors::{
    Error, IoErrorKind, spec_is_terminal_error, is_terminal_error, spec_is_closed_error,
    spec_is_not_connected_error, intentionally_closed_error, not_connected_error,
};
use crate::protocol::{JsonArg, build_request_line, spec_request_line, spec_encode_arg};
use crate::text::{spec_json_escape, spec_u64_dec};
use vstd::string::StringExecFns;

verus! {

/// The backoff cap: no delay between reconnection attempts grows past this.
pub const BACKOFF_CAP_MS: u64 = 1000;

/// The delay before attempt `k` of a connect-retry run: the base delay,
/// doubled after every failure, capped at `BACKOFF_CAP_MS`.
pub open spec fn spec_backoff_delay(base: int, k: nat) -> int
    decreases k,
{
    if k == 0 {
        base
    } else {
        let prev = spec_backoff_delay(base, (k - 1) as nat);
        if 2 * prev > BACKOFF_CAP_MS {
            BACKOFF_CAP_MS as int
        } else {
            2 * prev
        }
    }
}

/// Reconnect backoff is monotonically non-decreasing, and from the second
/// attempt on it never exceeds the cap. (With a base delay above the cap the
/// first step falls to the cap instead; such a base is excluded here.)
pub proof fn lemma_backoff_monotone(base: int, k: nat)
    requires
        0 <= base <= BACKOFF_CAP_MS,
    ensures
        spec_backoff_delay(base, k) <= spec_backoff_delay(base, k + 1),
        spec_backoff_delay(base, k + 1) <= BACKOFF_CAP_MS,
        spec_backoff_delay(base, k) <= BACKOFF_CAP_MS,
    decreases k,
{
    if k > 0 {
        lemma_backoff_monotone(base, (k - 1) as nat);
    }
}

/// The delays of a whole connect-retry run: one entry per attempt.
pub fn backoff_delays(base: u64, attempts: u32) -> (r: Vec<u64>)
    ensures
        r@.len() == attempts,
        forall|k: int| 0 <= k < attempts ==> r@[k] == spec_backoff_delay(base as int, k as nat),
{
    let mut r: Vec<u64> = Vec::new();
    let mut d: u64 = base;
    let mut k: u32 = 0;
    while k < attempts
        invariant
            k <= attempts,
            r@.len() == k,
            d == spec_backoff_delay(base as int, k as nat),
            forall|j: int| 0 <= j < k ==> r@[j] == spec_backoff_delay(base as int, j as nat),
        decreases attempts - k,
    {
        r.push(d);
        d = if d >= BACKOFF_CAP_MS {
            BACKOFF_CAP_MS
        } else if 2 * d > BACKOFF_CAP_MS {
            BACKOFF_CAP_MS
        } else {
            2 * d
        };
        k = k + 1;
    }
    r
}

/// What the engine answers when asked whether a reconnect may proceed.
#[derive(Debug, Clone, Copy, PartialEq, Eq, Structural)]
pub enum ReconnectPlan {
    /// The transport is already up; nothing to do.
    AlreadyConnected,
    /// One attempt is granted; wait at least this long since the previous
    /// attempt before opening the transport.
    Attempt { min_wait_ms: u64 },
}

/// How a granted reconnect attempt went, as the embedding program saw it.
#[derive(Debug, Clone, Copy, PartialEq, Eq, Structural)]
pub enum ReconnectOutcome {
    /// The transport is connected again.
    Connected,
    /// The transport refused in a way that means the player is gone
    /// (connection refused, socket file absent).
    Refused,
    /// Any other failure; another attempt may be granted later.
    Failed,
}

/// The protocol state of one IPC connection to the player.
pub struct MpvIpcClient {
    /// The next request identifier to assign; grows by one per request.
    pub request_id: u64,
    /// Whether the transport is believed up.
    pub connected: bool,
    /// Sticky: once true, every send fails at once and nothing reconnects.
    pub intentionally_closed: bool,
    /// Reconnection attempts made since the last successful operation.
    pub reconnect_attempts: u32,
    /// The connection's configuration.
    pub config: IpcConfig,
    /// The path the transport connects to.
    pub socket_path: String,
}

/// The state a client reaches when it is closed: the latch is set, the
/// transport is considered down, and reconnection state is reset.
pub open spec fn spec_after_close(s: MpvIpcClient) -> MpvIpcClient {
    MpvIpcClient {
        request_id: s.request_id,
        connected: false,
        intentionally_closed: true,
        reconnect_attempts: 0,
        config: s.config,
        socket_path: s.socket_path,
    }
}

/// Closing is idempotent: a second close leaves exactly the state the
/// first one made.
pub proof fn lemma_close_idempotent(s: MpvIpcClient)
    ensures
        spec_after_close(spec_after_close(s)) == spec_after_close(s),
{
}

/// A JSON string token as it appears in a request's command array.
pub open spec fn spec_json_string(s: Seq<char>) -> Seq<char> {
    seq!['"'] + spec_json_escape(s) + seq!['"']
}

/// How one request-building call relates the client's states: a closed
/// client fails at once with the closed error and stays as it was; a
/// disconnected one without auto-reconnect fails with the not-connected
/// error; otherwise the request gets the next identifier, the identifier
/// counter grows by one, and the returned line carries exactly the given
/// command tokens and that identifier.
pub open spec fn spec_request_transition(
    pre: MpvIpcClient,
    post: MpvIpcClient,
    r: Result<(u64, String), Error>,
    parts: Seq<Seq<char>>,
) -> bool {
    &&& pre.intentionally_closed ==> (r matches Err(e) && spec_is_closed_error(e)) && post == pre
    &&& !pre.intentionally_closed && !pre.connected && !pre.config.auto_reconnect ==> (
    r matches Err(e) && spec_is_not_connected_error(e)) && post == pre
    &&& !pre.intentionally_closed && (pre.connected || pre.config.auto_reconnect) ==> (
    r matches Ok((id, line)) && id == pre.request_id && line@ == spec_request_line(
        parts,
        pre.request_id as nat,
    )) && post == (MpvIpcClient { request_id: (pre.request_id + 1) as u64, ..pre })
}

impl MpvIpcClient {
    /// The state of a client whose transport has just connected.
    pub fn connect_with_config(socket_path: String, config: IpcConfig) -> (r: Self)
        ensures
            r.request_id == 1,
            r.connected,
            !r.intentionally_closed,
            r.reconnect_attempts == 0,
            r.config == config,
            r.socket_path == socket_path,
    {
        MpvIpcClient {
            request_id: 1,
            connected: true,
            intentionally_closed: false,
            reconnect_attempts: 0,
            config,
            socket_path,
        }
    }

    /// Whether the transport is believed up.
    pub fn is_connected(&self) -> (r: bool)
        ensures
            r == self.connected,
    {
        self.connected
    }

    /// Whether the client has been intentionally closed.
    pub fn is_intentionally_closed(&self) -> (r: bool)
        ensures
            r == self.intentionally_closed,
    {
        self.intentionally_closed
    }

    /// The configured polling interval in milliseconds.
    pub fn get_poll_interval(&self) -> (r: u64)
        ensures
            r == self.config.poll_interval_ms,
    {
        self.config.poll_interval_ms
    }

    /// Latches the client closed: every later send fails at once and no
    /// reconnect is ever attempted again.
    pub fn mark_as_intentionally_closed(&mut self)
        ensures
            final(self).intentionally_closed,
            !final(self).connected,
            final(self).request_id == old(self).request_id,
            final(self).reconnect_attempts == old(self).reconnect_attempts,
            final(self).config == old(self).config,
            final(self).socket_path == old(self).socket_path,
    {
        self.intentionally_closed = true;
        self.connected = false;
    }

    /// Closes the client: sets the sticky latch, marks the transport down,
    /// and resets reconnection state. Idempotent.
    pub fn close(&mut self)
        ensures
            *final(self) == spec_after_close(*old(self)),
    {
        self.intentionally_closed = true;
        self.connected = false;
        self.reconnect_attempts = 0;
    }

    /// Assigns the next request identifier and builds the request line for
    /// the given command tokens, after the send gates: a closed client
    /// fails at once, and a disconnected one without auto-reconnect fails
    /// with the not-connected error.
    pub fn begin_request(&mut self, args: Vec<JsonArg>) -> (r: Result<(u64, String), Error>)
        requires
            old(self).request_id < u64::MAX,
        ensures
            spec_request_transition(
                *old(self),
                *final(self),
                r,
                args@.map_values(|a: JsonArg| spec_encode_arg(a)),
            ),
    {
        if self.intentionally_closed {
            return Err(intentionally_closed_error());
        }
        if !self.connected && !self.config.auto_reconnect {
            return Err(not_connected_error());
        }
        let id = self.request_id;
        self.request_id = self.request_id + 1;
        let line = build_request_line(&args, id);
        Ok((id, line))
    }

    /// Builds the request for the player command `name` with the given
    /// arguments, under the send gates.
    pub fn command_request(&mut self, name: &str, args: Vec<JsonArg>) -> (r: Result<
        (u64, String),
        Error,
    >)
        requires
            old(self).request_id < u64::MAX,
        ensures
            spec_request_transition(
                *old(self),
                *final(self),
                r,
                seq![spec_json_string(name@)] + args@.map_values(|a: JsonArg| spec_encode_arg(a)),
            ),
    {
        let ghost tail = args@.map_values(|a: JsonArg| spec_encode_arg(a));
        let mut full = args;
        full.insert(0, JsonArg::Str(String::from_str(name)));
        proof {
            assert(full@.map_values(|a: JsonArg| spec_encode_arg(a)) =~= seq![
                spec_json_string(name@),
            ] + tail);
        }
        self.begin_request(full)
    }

    /// Builds the request that reads the property `prop`.
    pub fn get_property_request(&mut self, prop: &str) -> (r: Result<(u64, String), Error>)
        requires
            old(self).request_id < u64::MAX,
        ensures
            spec_request_transition(
                *old(self),
                *final(self),
                r,
                seq![spec_json_string("get_property"@), spec_json_string(prop@)],
            ),
    {
        let args = vec![
            JsonArg::Str(String::from_str("get_property")),
            JsonArg::Str(String::from_str(prop)),
        ];
        let ghost parts = args@.map_values(|a: JsonArg| spec_encode_arg(a));
        proof {
            assert(parts =~= seq![spec_json_string("get_property"@), spec_json_string(prop@)]);
        }
        self.begin_request(args)
    }

    /// Builds the request that sets the property `prop` to `value`.
    pub fn set_property_request(&mut self, prop: &str, value: JsonArg) -> (r: Result<
        (u64, String),
        Error,
    >)
        requires
            old(self).request_id < u64::MAX,
        ensures
            spec_request_transition(
                *old(self),
                *final(self),
                r,
                seq![
                    spec_json_string("set_property"@),
                    spec_json_string(prop@),
                    spec_encode_arg(value),
                ],
            ),
    {
        let ghost v = value;
        let args = vec![
            JsonArg::Str(String::from_str("set_property")),
            JsonArg::Str(String::from_str(prop)),
            value,
        ];
        let ghost parts = args@.map_values(|a: JsonArg| spec_encode_arg(a));
        proof {
            assert(parts =~= seq![
                spec_json_string("set_property"@),
                spec_json_string(prop@),
                spec_encode_arg(v),
            ]);
        }
        self.begin_request(args)
    }

    /// Builds the request that subscribes to change reports for `prop`.
    /// The request identifier doubles as the subscription identifier, as
    /// the protocol's observe command asks.
    pub fn observe_property_request(&mut self, prop: &str) -> (r: Result<(u64, String), Error>)
        requires
            old(self).request_id < u64::MAX,
        ensures
            spec_request_transition(
                *old(self),
                *final(self),
                r,
                seq![
                    spec_json_string("observe_property"@),
                    spec_u64_dec(old(self).request_id as nat),
                    spec_json_string(prop@),
                ],
            ),
    {
        if self.intentionally_closed {
            return Err(intentionally_closed_error());
        }
        if !self.connected && !self.config.auto_reconnect {
            return Err(not_connected_error());
        }
        let id = self.request_id;
        let args = vec![
            JsonArg::Str(String::from_str("observe_property")),
            JsonArg::UInt(id),
            JsonArg::Str(String::from_str(prop)),
        ];
        let ghost parts = args@.map_values(|a: JsonArg| spec_encode_arg(a));
        proof {
            assert(parts =~= seq![
                spec_json_string("observe_property"@),
                spec_u64_dec(id as nat),
                spec_json_string(prop@),
            ]);
        }
        self.begin_request(args)
    }

    /// Builds the request that cancels the subscription `observe_id`.
    pub fn unobserve_property_request(&mut self, observe_id: u64) -> (r: Result<
        (u64, String),
        Error,
    >)
        requires
            old(self).request_id < u64::MAX,
        ensures
            spec_request_transition(
                *old(self),
                *final(self),
                r,
                seq![spec_json_string("unobserve_property"@), spec_u64_dec(observe_id as nat)],
            ),
    {
        let args = vec![
            JsonArg::Str(String::from_str("unobserve_property")),
            JsonArg::UInt(observe_id),
        ];
        let ghost parts = args@.map_values(|a: JsonArg| spec_encode_arg(a));
        proof {
            assert(parts =~= seq![
                spec_json_string("unobserve_property"@),
                spec_u64_dec(observe_id as nat),
            ]);
        }
        self.begin_request(args)
    }

    /// Builds the request that pauses or resumes playback.
    pub fn set_pause_request(&mut self, pause: bool) -> (r: Result<(u64, String), Error>)
        requires
            old(self).request_id < u64::MAX,
        ensures
            spec_request_transition(
                *old(self),
                *final(self),
                r,
                seq![
                    spec_json_string("set_property"@),
                    spec_json_string("pause"@),
                    spec_encode_arg(JsonArg::Bool(pause)),
                ],
            ),
    {
        self.set_property_request("pause", JsonArg::Bool(pause))
    }

    /// Builds the request that mutes or unmutes playback.
    pub fn set_mute_request(&mut self, mute: bool) -> (r: Result<(u64, String), Error>)
        requires
            old(self).request_id < u64::MAX,
        ensures
            spec_request_transition(
                *old(self),
                *final(self),
                r,
                seq![
                    spec_json_string("set_property"@),
                    spec_json_string("mute"@),
                    spec_encode_arg(JsonArg::Bool(mute)),
                ],
            ),
    {
        self.set_property_request("mute", JsonArg::Bool(mute))
    }

    /// Builds the request that enters or leaves fullscreen.
    pub fn set_fullscreen_request(&mut self, fullscreen: bool) -> (r: Result<
        (u64, String),
        Error,
    >)
        requires
            old(self).request_id < u64::MAX,
        ensures
            spec_request_transition(
                *old(self),
                *final(self),
                r,
                seq![
                    spec_json_string("set_property"@),
                    spec_json_string("fullscreen"@),
                    spec_encode_arg(JsonArg::Bool(fullscreen)),
                ],
            ),
    {
        self.set_property_request("fullscreen", JsonArg::Bool(fullscreen))
    }

    /// Builds the request that sets the volume, given in thousandths of a
    /// volume point (80 points are 80000).
    pub fn set_volume_request(&mut self, volume_mill: i64) -> (r: Result<(u64, String), Error>)
        requires
            old(self).request_id < u64::MAX,
        ensures
            spec_request_transition(
                *old(self),
                *final(self),
                r,
                seq![
                    spec_json_string("set_property"@),
                    spec_json_string("volume"@),
                    spec_encode_arg(JsonArg::Milli(volume_mill)),
                ],
            ),
    {
        self.set_property_request("volume", JsonArg::Milli(volume_mill))
    }

    /// Builds the request that sets the playback speed, given in thousandths
    /// (1000 is normal speed).
    pub fn set_speed_request(&mut self, speed_mill: i64) -> (r: Result<(u64, String), Error>)
        requires
            old(self).request_id < u64::MAX,
        ensures
            spec_request_transition(
                *old(self),
                *final(self),
                r,
                seq![
                    spec_json_string("set_property"@),
                    spec_json_string("speed"@),
                    spec_encode_arg(JsonArg::Milli(speed_mill)),
                ],
            ),
    {
        self.set_property_request("speed", JsonArg::Milli(speed_mill))
    }

    /// Builds the request that seeks to an absolute position.
    pub fn seek_request(&mut self, position_ms: i64) -> (r: Result<(u64, String), Error>)
        requires
            old(self).request_id < u64::MAX,
        ensures
            spec_request_transition(
                *old(self),
                *final(self),
                r,
                seq![
                    spec_json_string("seek"@),
                    spec_encode_arg(JsonArg::Milli(position_ms)),
                    spec_json_string("absolute"@),
                ],
            ),
    {
        let args = vec![
            JsonArg::Str(String::from_str("seek")),
            JsonArg::Milli(position_ms),
            JsonArg::Str(String::from_str("absolute")),
        ];
        let ghost parts = args@.map_values(|a: JsonArg| spec_encode_arg(a));
        proof {
            assert(parts =~= seq![
                spec_json_string("seek"@),
                spec_encode_arg(JsonArg::Milli(position_ms)),
                spec_json_string("absolute"@),
            ]);
        }
        self.begin_request(args)
    }

    /// Builds the request that seeks relative to the current position.
    pub fn seek_relative_request(&mut self, offset_ms: i64) -> (r: Result<(u64, String), Error>)
        requires
            old(self).request_id < u64::MAX,
        ensures
            spec_request_transition(
                *old(self),
                *final(self),
                r,
                seq![
                    spec_json_string("seek"@),
                    spec_encode_arg(JsonArg::Milli(offset_ms)),
                    spec_json_string("relative"@),
                ],
            ),
    {
        let args = vec![
            JsonArg::Str(String::from_str("seek")),
            JsonArg::Milli(offset_ms),
            JsonArg::Str(String::from_str("relative")),
        ];
        let ghost parts = args@.map_values(|a: JsonArg| spec_encode_arg(a));
        proof {
            assert(parts =~= seq![
                spec_json_string("seek"@),
                spec_encode_arg(JsonArg::Milli(offset_ms)),
                spec_json_string("relative"@),
            ]);
        }
        self.begin_request(args)
    }

    /// Builds the request that asks the player to quit. After the line is
    /// written the client should be latched closed, as the player exits.
    pub fn quit_request(&mut self) -> (r: Result<(u64, String), Error>)
        requires
            old(self).request_id < u64::MAX,
        ensures
            spec_request_transition(
                *old(self),
                *final(self),
                r,
                seq![spec_json_string("quit"@)],
            ),
    {
        let args = vec![JsonArg::Str(String::from_str("quit"))];
        let ghost parts = args@.map_values(|a: JsonArg| spec_encode_arg(a));
        proof {
            assert(parts =~= seq![spec_json_string("quit"@)]);
        }
        self.begin_request(args)
    }

    /// Classifies a failed request: answers whether one reconnect-and-retry
    /// is worth attempting. Terminal errors latch the client closed instead,
    /// and a closed client never retries.
    pub fn should_reconnect(&mut self, error: &Error) -> (retry: bool)
        ensures
            old(self).intentionally_closed ==> !retry && *final(self) == *old(self),
            !old(self).intentionally_closed && spec_is_terminal_error(*error, old(self).connected)
                ==> !retry && *final(self) == (MpvIpcClient {
                intentionally_closed: true,
                ..*old(self)
            }),
            !old(self).intentionally_closed && !spec_is_terminal_error(
                *error,
                old(self).connected,
            ) ==> retry && *final(self) == *old(self),
    {
        if self.intentionally_closed {
            return false;
        }
        if is_terminal_error(error, self.connected) {
            self.intentionally_closed = true;
            return false;
        }
        true
    }

    /// Gates one reconnect attempt: a closed client is refused at once with
    /// no attempt counted and no delay, an already-connected one needs none,
    /// and past the configured maximum the attempt is refused. Otherwise one
    /// attempt is granted and counted, with the configured minimum wait.
    pub fn reconnect_gate(&mut self) -> (r: Result<ReconnectPlan, Error>)
        ensures
            old(self).intentionally_closed ==> (r matches Err(e) && spec_is_closed_error(e))
                && *final(self) == *old(self),
            !old(self).intentionally_closed && old(self).connected ==> r == Ok::<
                ReconnectPlan,
                Error,
            >(ReconnectPlan::AlreadyConnected) && *final(self) == *old(self),
            !old(self).intentionally_closed && !old(self).connected && old(
                self,
            ).reconnect_attempts >= old(self).config.max_reconnect_attempts ==> (r matches Err(e)
                && e matches Error::MpvError(_)) && *final(self) == *old(self),
            !old(self).intentionally_closed && !old(self).connected && old(
                self,
            ).reconnect_attempts < old(self).config.max_reconnect_attempts ==> r == Ok::<
                ReconnectPlan,
                Error,
            >(ReconnectPlan::Attempt { min_wait_ms: old(self).config.reconnect_delay_ms })
                && *final(self) == (MpvIpcClient {
                reconnect_attempts: (old(self).reconnect_attempts + 1) as u32,
                ..*old(self)
            }),
    {
        if self.intentionally_closed {
            return Err(intentionally_closed_error());
        }
        if self.connected {
            return Ok(ReconnectPlan::AlreadyConnected);
        }
        if self.reconnect_attempts >= self.config.max_reconnect_attempts {
            return Err(Error::MpvError(String::from_str("Max reconnection attempts reached")));
        }
        self.reconnect_attempts = self.reconnect_attempts + 1;
        Ok(ReconnectPlan::Attempt { min_wait_ms: self.config.reconnect_delay_ms })
    }

    /// Records how a granted reconnect attempt went: success brings the
    /// connection up and resets the attempt counter; a refusal means the
    /// player is gone and latches the client closed; any other failure
    /// leaves the state for a later attempt.
    pub fn finish_reconnect(&mut self, outcome: ReconnectOutcome)
        ensures
            outcome == ReconnectOutcome::Connected ==> *final(self) == (MpvIpcClient {
                connected: true,
                reconnect_attempts: 0,
                ..*old(self)
            }),
            outcome == ReconnectOutcome::Refused ==> *final(self) == (MpvIpcClient {
                intentionally_closed: true,
                ..*old(self)
            }),
            outcome == ReconnectOutcome::Failed ==> *final(self) == *old(self),
    {
        match outcome {
            ReconnectOutcome::Connected => {
                self.connected = true;
                self.reconnect_attempts = 0;
            },
            ReconnectOutcome::Refused => {
                self.intentionally_closed = true;
            },
            ReconnectOutcome::Failed => {},
        }
    }

    /// Records a successful send: the reconnection counter starts over.
    pub fn handle_send_success(&mut self)
        ensures
            *final(self) == (MpvIpcClient { reconnect_attempts: 0, ..*old(self) }),
    {
        self.reconnect_attempts = 0;
    }

    /// Records a failed send: the transport is down, and a broken pipe or a
    /// reset means the player is gone, which latches the client closed.
    pub fn handle_send_failure(&mut self, kind: IoErrorKind)
        ensures
            *final(self) == (MpvIpcClient {
                connected: false,
                intentionally_closed: old(self).intentionally_closed || kind
                    == IoErrorKind::BrokenPipe || kind == IoErrorKind::ConnectionReset,
                ..*old(self)
            }),
    {
        if kind == IoErrorKind::BrokenPipe || kind == IoErrorKind::ConnectionReset {
            self.intentionally_closed = true;
        }
        self.connected = false;
    }

    /// Records a failed response read: the transport is down.
    pub fn handle_read_failure(&mut self)
        ensures
            *final(self) == (MpvIpcClient { connected: false, ..*old(self) }),
    {
        self.connected = false;
    }

    /// The liveness verdict from one round of probes: the basic signals
    /// (process-id readable, path readable, a trivial command answered) say
    /// the player responds, but an idle or end-of-file indication beside
    /// them means it is about to exit, so the client latches itself closed
    /// rather than waiting for the next I/O error. A client whose probes
    /// all failed latches closed too. A closed client reports not running.
    pub fn is_running_verdict(
        &mut self,
        pid_ok: bool,
        path_ok: bool,
        cmd_ok: bool,
        idle_active: bool,
        eof_reached: bool,
    ) -> (running: bool)
        ensures
            old(self).intentionally_closed ==> !running && *final(self) == *old(self),
            !old(self).intentionally_closed && (pid_ok || path_ok || cmd_ok) && (idle_active
                || eof_reached) ==> !running && *final(self) == (MpvIpcClient {
                connected: false,
                intentionally_closed: true,
                ..*old(self)
            }),
            !old(self).intentionally_closed && (pid_ok || path_ok || cmd_ok) && !(idle_active
                || eof_reached) ==> running && *final(self) == *old(self),
            !old(self).intentionally_closed && !(pid_ok || path_ok || cmd_ok) ==> !running
                && *final(self) == (MpvIpcClient {
                connected: false,
                intentionally_closed: true,
                ..*old(self)
            }),
    {
        if self.intentionally_closed {
            return false;
        }
        let basic = pid_ok || path_ok || cmd_ok;
        if basic && (idle_active || eof_reached) {
            self.mark_as_intentionally_closed();
            return false;
        }
        if basic {
            true
        } else {
            self.mark_as_intentionally_closed();
            false
        }
    }
}

} // verus!
