//! The event listener's translation engine: the observed-property set, the
//! per-listener edge-detection state, and the poll-step that turns raw
//! property values into deduplicated semantic events.
//!
//! The embedding program runs the polling loop: it reads the properties over
//! the listener's client and hands each snapshot to `poll_step`, delivering
//! whatever events come back to the registered callbacks.

use vstd::prelude::*;
use vstd::string::StringExecFns;
use crate::ipc::MpvIpcClient;
use crate::text::str_eq;

verus! {

/// A semantic playback event, derived from raw player properties.
/// Times are whole milliseconds; percentages are thousandths of a percent.
#[derive(Debug, Clone)]
pub enum MpvEvent {
    /// Playback began (first poll saw the player unpaused).
    PlaybackStarted,
    /// Playback was paused (edge-triggered).
    PlaybackPaused,
    /// Playback resumed after a pause (edge-triggered).
    PlaybackResumed,
    /// Playback reached its end or went idle (emitted once).
    PlaybackCompleted,
    /// The playback position moved past the configured threshold.
    TimePositionChanged(i64),
    /// The percent position moved past the configured threshold.
    PercentPositionChanged(i64),
    /// The volume changed.
    VolumeChanged(i32),
    /// The mute state changed.
    MuteChanged(bool),
    /// The player reported an error.
    PlaybackError(String),
    /// The player process exited with the given code.
    ProcessExited(i32),
    /// An observed property changed; carries the name and the value's text.
    PropertyChanged(String, String),
    /// The connection to the player was lost.
    ConnectionLost,
    /// The connection to the player came back.
    ConnectionRestored,
}

/// One round of property values, as read by the embedding program's poll
/// loop. A missing value means the read failed or the property was absent.
#[derive(Debug, Clone)]
pub struct PollSnapshot {
    /// The playback position, in milliseconds.
    pub time_pos: Option<i64>,
    /// The percent position, in thousandths of a percent.
    pub percent_pos_mill: Option<i64>,
    /// Whether playback is paused.
    pub paused: Option<bool>,
    /// Whether the player reports end of file reached.
    pub eof_reached: bool,
    /// Whether the player reports it is idle.
    pub idle_active: bool,
    /// Whether the coalescing clock allows a position report this round.
    pub position_due: bool,
}

/// What `note_connection` saw the connection do since the previous poll.
#[derive(Debug, Clone, Copy, PartialEq, Eq, Structural)]
pub enum ConnectionChange {
    /// No transition.
    Unchanged,
    /// The connection went down.
    Lost,
    /// The connection came back; previously observed properties must be
    /// observed again before polling resumes.
    Restored,
}

/// The names in an observed-property list.
pub open spec fn spec_observer_names(obs: Seq<(String, u64)>) -> Seq<Seq<char>> {
    obs.map_values(|p: (String, u64)| p.0@)
}

/// No property name appears twice.
pub open spec fn spec_names_distinct(names: Seq<Seq<char>>) -> bool {
    forall|i: int, j: int| 0 <= i < j < names.len() ==> names[i] != names[j]
}

/// Whether `name` appears in `names`.
pub open spec fn spec_names_contain(names: Seq<Seq<char>>, name: Seq<char>) -> bool {
    exists|i: int| 0 <= i < names.len() && names[i] == name
}

/// Registering a name for observation: already-registered names are left
/// alone, new ones are appended.
pub open spec fn spec_observe_names(names: Seq<Seq<char>>, name: Seq<char>) -> Seq<Seq<char>> {
    if spec_names_contain(names, name) {
        names
    } else {
        names.push(name)
    }
}

/// Registering keeps the names distinct.
pub proof fn lemma_observe_names_distinct(names: Seq<Seq<char>>, name: Seq<char>)
    requires
        spec_names_distinct(names),
    ensures
        spec_names_distinct(spec_observe_names(names, name)),
        spec_names_contain(spec_observe_names(names, name), name),
{
    if !spec_names_contain(names, name) {
        assert(spec_names_contain(names.push(name), name)) by {
            assert(names.push(name)[names.len() as int] == name);
        }
    }
}

/// A whole run of registrations, applied in order.
pub open spec fn spec_observe_all(names: Seq<Seq<char>>, calls: Seq<Seq<char>>) -> Seq<Seq<char>>
    decreases calls.len(),
{
    if calls.len() == 0 {
        names
    } else {
        spec_observe_all(spec_observe_names(names, calls[0]), calls.drop_first())
    }
}

/// For every sequence of registrations, the observed-property set never
/// holds a name twice: starting from distinct names (the empty set
/// included), any run of `observe_property` calls leaves them distinct.
pub proof fn lemma_no_double_registration(names: Seq<Seq<char>>, calls: Seq<Seq<char>>)
    requires
        spec_names_distinct(names),
    ensures
        spec_names_distinct(spec_observe_all(names, calls)),
    decreases calls.len(),
{
    if calls.len() > 0 {
        lemma_observe_names_distinct(names, calls[0]);
        lemma_no_double_registration(spec_observe_names(names, calls[0]), calls.drop_first());
    }
}

/// The callback handles registered under `key`, in registration order.
pub open spec fn spec_keyed_callbacks(cbs: Seq<(String, u64)>, key: Seq<char>) -> Seq<u64>
    decreases cbs.len(),
{
    if cbs.len() == 0 {
        Seq::empty()
    } else {
        (if cbs[0].0@ == key {
            seq![cbs[0].1]
        } else {
            Seq::empty()
        }) + spec_keyed_callbacks(cbs.drop_first(), key)
    }
}

proof fn lemma_keyed_callbacks_push(cbs: Seq<(String, u64)>, p: (String, u64), key: Seq<char>)
    ensures
        spec_keyed_callbacks(cbs.push(p), key) == spec_keyed_callbacks(cbs, key) + (if p.0@
            == key {
            seq![p.1]
        } else {
            Seq::<u64>::empty()
        }),
    decreases cbs.len(),
{
    let tail: Seq<u64> = if p.0@ == key {
        seq![p.1]
    } else {
        Seq::empty()
    };
    if cbs.len() == 0 {
        assert(cbs.push(p)[0] == p);
        assert(cbs.push(p).drop_first() =~= Seq::<(String, u64)>::empty());
        assert(spec_keyed_callbacks(Seq::<(String, u64)>::empty(), key)
            == Seq::<u64>::empty());
        assert(spec_keyed_callbacks(cbs.push(p), key) =~= spec_keyed_callbacks(cbs, key) + tail);
    } else {
        assert(cbs.push(p)[0] == cbs[0]);
        assert(cbs.push(p).drop_first() =~= cbs.drop_first().push(p));
        lemma_keyed_callbacks_push(cbs.drop_first(), p, key);
        assert(spec_keyed_callbacks(cbs.push(p), key) =~= spec_keyed_callbacks(cbs, key) + tail);
    }
}

fn push_keyed(out: &mut Vec<u64>, cbs: &Vec<(String, u64)>, key: &str)
    ensures
        final(out)@ == old(out)@ + spec_keyed_callbacks(cbs@, key@),
{
    let mut i: usize = 0;
    proof {
        assert(cbs@.take(0) =~= Seq::<(String, u64)>::empty());
    }
    while i < cbs.len()
        invariant
            i <= cbs@.len(),
            out@ == old(out)@ + spec_keyed_callbacks(cbs@.take(i as int), key@),
        decreases cbs@.len() - i,
    {
        if str_eq(cbs[i].0.as_str(), key) {
            out.push(cbs[i].1);
        }
        proof {
            assert(cbs@.take(i + 1) =~= cbs@.take(i as int).push(cbs@[i as int]));
            lemma_keyed_callbacks_push(cbs@.take(i as int), cbs@[i as int], key@);
            assert(out@ =~= old(out)@ + spec_keyed_callbacks(cbs@.take(i + 1), key@));
        }
        i = i + 1;
    }
    proof {
        assert(cbs@.take(cbs@.len() as int) =~= cbs@);
    }
}

/// Whether subscribing to this event type implies observing the player
/// property of the same name.
pub open spec fn spec_is_standard_property(name: Seq<char>) -> bool {
    ||| name == "time-pos"@
    ||| name == "percent-pos"@
    ||| name == "pause"@
    ||| name == "mute"@
    ||| name == "volume"@
    ||| name == "eof-reached"@
    ||| name == "idle-active"@
}

/// Whether subscribing to `event_type` implies observing the player
/// property of that name.
pub fn is_standard_property(event_type: &str) -> (r: bool)
    ensures
        r == spec_is_standard_property(event_type@),
{
    str_eq(event_type, "time-pos") || str_eq(event_type, "percent-pos") || str_eq(
        event_type,
        "pause",
    ) || str_eq(event_type, "mute") || str_eq(event_type, "volume") || str_eq(
        event_type,
        "eof-reached",
    ) || str_eq(event_type, "idle-active")
}

/// The event listener: one dedicated client, the observed-property set, the
/// registered callback keys, and the per-listener edge-detection state.
pub struct MpvEventListener {
    /// The dedicated IPC client this listener polls over.
    pub client: MpvIpcClient,
    /// Observed properties: name and subscription identifier, never a name
    /// twice.
    pub observers: Vec<(String, u64)>,
    /// Registered callbacks: event-type key and callback handle, in
    /// registration order. The key `all` receives every event.
    pub callbacks: Vec<(String, u64)>,
    /// Whether the polling loop should keep running.
    pub running: bool,
    /// The connection state seen at the previous poll.
    pub connection_status: bool,
    /// The last reported playback position, in milliseconds.
    pub last_time_pos: Option<i64>,
    /// The last reported percent position, in thousandths of a percent.
    pub last_percent_mill: Option<i64>,
    /// The pause state seen at the previous poll.
    pub last_pause: Option<bool>,
    /// Whether the one completion event has been emitted.
    pub completed_fired: bool,
    /// The least position change that is reported, in milliseconds.
    pub position_threshold_ms: i64,
    /// The least percent change that is reported, in thousandths.
    pub percent_threshold_mill: i64,
}

/// The magnitude of `a`.
pub open spec fn spec_abs(a: int) -> int {
    if a < 0 {
        -a
    } else {
        a
    }
}

/// Whether this poll reports a playback-position change: a report is due,
/// a position was read, a baseline exists, and the change since the last
/// report reaches the threshold.
pub open spec fn spec_time_event(st: MpvEventListener, snap: PollSnapshot) -> bool {
    &&& snap.position_due
    &&& snap.time_pos matches Some(p) && (st.last_time_pos matches Some(lp) && spec_abs(
        p - lp,
    ) >= st.position_threshold_ms)
}

/// Whether this poll reports a percent-position change.
pub open spec fn spec_percent_event(st: MpvEventListener, snap: PollSnapshot) -> bool {
    &&& snap.position_due
    &&& snap.percent_pos_mill matches Some(q) && (st.last_percent_mill matches Some(lq)
        && spec_abs(q - lq) >= st.percent_threshold_mill)
}

/// Whether this poll reports completion: the first one that shows
/// end-of-file or an idle player.
pub open spec fn spec_completed_event(st: MpvEventListener, snap: PollSnapshot) -> bool {
    !st.completed_fired && (snap.eof_reached || snap.idle_active)
}

/// The pause-transition events of one poll: edge-triggered, with the first
/// reading mapping to started or paused.
pub open spec fn spec_pause_events(st: MpvEventListener, snap: PollSnapshot) -> Seq<MpvEvent> {
    match snap.paused {
        None => Seq::empty(),
        Some(p) => match st.last_pause {
            None => if p {
                seq![MpvEvent::PlaybackPaused]
            } else {
                seq![MpvEvent::PlaybackStarted]
            },
            Some(lp) => if p == lp {
                Seq::empty()
            } else if p {
                seq![MpvEvent::PlaybackPaused]
            } else {
                seq![MpvEvent::PlaybackResumed]
            },
        },
    }
}

/// Every event one poll emits, in order: position reports, then the one
/// completion report, then pause transitions.
pub open spec fn spec_poll_events(st: MpvEventListener, snap: PollSnapshot) -> Seq<MpvEvent> {
    (if spec_time_event(st, snap) {
        seq![MpvEvent::TimePositionChanged(snap.time_pos->0)]
    } else {
        Seq::empty()
    }) + (if spec_percent_event(st, snap) {
        seq![MpvEvent::PercentPositionChanged(snap.percent_pos_mill->0)]
    } else {
        Seq::empty()
    }) + (if spec_completed_event(st, snap) {
        seq![MpvEvent::PlaybackCompleted]
    } else {
        Seq::empty()
    }) + spec_pause_events(st, snap)
}

/// The position baseline after one poll: set by the first value seen, and
/// moved only when a change was reported.
pub open spec fn spec_next_time_baseline(st: MpvEventListener, snap: PollSnapshot) -> Option<
    i64,
> {
    if snap.position_due && snap.time_pos is Some && (st.last_time_pos is None
        || spec_time_event(st, snap)) {
        snap.time_pos
    } else {
        st.last_time_pos
    }
}

/// The percent baseline after one poll.
pub open spec fn spec_next_percent_baseline(st: MpvEventListener, snap: PollSnapshot) -> Option<
    i64,
> {
    if snap.position_due && snap.percent_pos_mill is Some && (st.last_percent_mill is None
        || spec_percent_event(st, snap)) {
        snap.percent_pos_mill
    } else {
        st.last_percent_mill
    }
}

/// The default position-report threshold: five seconds.
pub const DEFAULT_POSITION_THRESHOLD_MS: i64 = 5000;

/// The default percent-report threshold: one percent.
pub const DEFAULT_PERCENT_THRESHOLD_MILL: i64 = 1000;

impl MpvEventListener {
    /// A fresh listener over the given client: nothing observed, nothing
    /// registered, not yet running, the connection assumed up.
    pub fn new(ipc_client: MpvIpcClient) -> (r: Self)
        ensures
            r.client == ipc_client,
            r.observers@ =~= Seq::<(String, u64)>::empty(),
            r.callbacks@ =~= Seq::<(String, u64)>::empty(),
            !r.running,
            r.connection_status,
            r.last_time_pos is None,
            r.last_percent_mill is None,
            r.last_pause is None,
            !r.completed_fired,
            r.position_threshold_ms == DEFAULT_POSITION_THRESHOLD_MS,
            r.percent_threshold_mill == DEFAULT_PERCENT_THRESHOLD_MILL,
    {
        MpvEventListener {
            client: ipc_client,
            observers: Vec::new(),
            callbacks: Vec::new(),
            running: false,
            connection_status: true,
            last_time_pos: None,
            last_percent_mill: None,
            last_pause: None,
            completed_fired: false,
            position_threshold_ms: DEFAULT_POSITION_THRESHOLD_MS,
            percent_threshold_mill: DEFAULT_PERCENT_THRESHOLD_MILL,
        }
    }

    /// Whether `property` is already registered for observation.
    pub fn is_observed(&self, property: &str) -> (r: bool)
        ensures
            r == spec_names_contain(spec_observer_names(self.observers@), property@),
    {
        let mut i: usize = 0;
        while i < self.observers.len()
            invariant
                i <= self.observers@.len(),
                forall|k: int|
                    0 <= k < i ==> #[trigger] self.observers@[k].0@ != property@,
            decreases self.observers@.len() - i,
        {
            if str_eq(self.observers[i].0.as_str(), property) {
                proof {
                    assert(spec_observer_names(self.observers@)[i as int] == property@);
                }
                return true;
            }
            i = i + 1;
        }
        proof {
            assert forall|k: int|
                0 <= k < spec_observer_names(self.observers@).len() implies #[trigger]
            spec_observer_names(self.observers@)[k] != property@ by {
                assert(self.observers@[k].0@ != property@);
            }
        }
        false
    }

    /// Registers `property` for observation under `sub_id`. A name already
    /// registered is never registered twice: the call is then a no-op.
    pub fn observe_property(&mut self, property: &str, sub_id: u64) -> (added: bool)
        ensures
            added == !spec_names_contain(
                spec_observer_names(old(self).observers@),
                property@,
            ),
            spec_observer_names(final(self).observers@) == spec_observe_names(
                spec_observer_names(old(self).observers@),
                property@,
            ),
            spec_names_distinct(spec_observer_names(old(self).observers@))
                ==> spec_names_distinct(spec_observer_names(final(self).observers@)),
            spec_names_contain(spec_observer_names(final(self).observers@), property@),
            !added ==> final(self).observers@ == old(self).observers@,
            added ==> final(self).observers@.len() == old(self).observers@.len() + 1
                && final(self).observers@.last().0@ == property@
                && final(self).observers@.last().1 == sub_id,
            final(self).client == old(self).client,
            final(self).callbacks == old(self).callbacks,
            final(self).running == old(self).running,
            final(self).connection_status == old(self).connection_status,
            final(self).last_time_pos == old(self).last_time_pos,
            final(self).last_percent_mill == old(self).last_percent_mill,
            final(self).last_pause == old(self).last_pause,
            final(self).completed_fired == old(self).completed_fired,
            final(self).position_threshold_ms == old(self).position_threshold_ms,
            final(self).percent_threshold_mill == old(self).percent_threshold_mill,
    {
        if self.is_observed(property) {
            return false;
        }
        self.observers.push((String::from_str(property), sub_id));
        proof {
            let names = spec_observer_names(old(self).observers@);
            assert(spec_observer_names(self.observers@) =~= names.push(property@));
            assert(spec_observer_names(self.observers@)[names.len() as int] == property@);
            if spec_names_distinct(names) {
                lemma_observe_names_distinct(names, property@);
            }
        }
        true
    }

    /// Registers a callback handle under an event-type key. Callbacks under
    /// one key are invoked in registration order; the key `all` receives
    /// every event.
    pub fn subscribe(&mut self, event_type: &str, callback_id: u64)
        ensures
            final(self).callbacks@.len() == old(self).callbacks@.len() + 1,
            final(self).callbacks@.take(old(self).callbacks@.len() as int) == old(
                self,
            ).callbacks@,
            final(self).callbacks@.last().0@ == event_type@,
            final(self).callbacks@.last().1 == callback_id,
            final(self).client == old(self).client,
            final(self).observers == old(self).observers,
            final(self).running == old(self).running,
            final(self).connection_status == old(self).connection_status,
            final(self).last_time_pos == old(self).last_time_pos,
            final(self).last_percent_mill == old(self).last_percent_mill,
            final(self).last_pause == old(self).last_pause,
            final(self).completed_fired == old(self).completed_fired,
            final(self).position_threshold_ms == old(self).position_threshold_ms,
            final(self).percent_threshold_mill == old(self).percent_threshold_mill,
    {
        self.callbacks.push((String::from_str(event_type), callback_id));
        proof {
            assert(self.callbacks@.take(old(self).callbacks@.len() as int) =~= old(
                self,
            ).callbacks@);
        }
    }

    /// The callback handles to invoke for an event of type `event_type`:
    /// those registered under that key, then those registered under `all`,
    /// each group in registration order.
    pub fn callbacks_for(&self, event_type: &str) -> (r: Vec<u64>)
        ensures
            r@ == spec_keyed_callbacks(self.callbacks@, event_type@) + spec_keyed_callbacks(
                self.callbacks@,
                "all"@,
            ),
    {
        let mut r: Vec<u64> = Vec::new();
        push_keyed(&mut r, &self.callbacks, event_type);
        push_keyed(&mut r, &self.callbacks, "all");
        r
    }

    /// Records the connection state this poll saw, and names the transition:
    /// a restored connection asks the caller to observe every tracked
    /// property again before polling resumes.
    pub fn note_connection(&mut self, is_connected: bool) -> (c: ConnectionChange)
        ensures
            *final(self) == (MpvEventListener { connection_status: is_connected, ..*old(self) }),
            c == ConnectionChange::Restored <==> !old(self).connection_status && is_connected,
            c == ConnectionChange::Lost <==> old(self).connection_status && !is_connected,
            c == ConnectionChange::Unchanged <==> old(self).connection_status == is_connected,
    {
        let was = self.connection_status;
        self.connection_status = is_connected;
        if was == is_connected {
            ConnectionChange::Unchanged
        } else if is_connected {
            ConnectionChange::Restored
        } else {
            ConnectionChange::Lost
        }
    }

    /// Starts re-observation after a reconnect: clears the tracked set and
    /// hands back every property name, so the caller can register each one
    /// again and record the fresh subscription identifiers.
    pub fn begin_reobserve(&mut self) -> (names: Vec<String>)
        ensures
            names@.map_values(|s: String| s@) == spec_observer_names(old(self).observers@),
            final(self).observers@ =~= Seq::<(String, u64)>::empty(),
            final(self).client == old(self).client,
            final(self).callbacks == old(self).callbacks,
            final(self).running == old(self).running,
            final(self).connection_status == old(self).connection_status,
            final(self).last_time_pos == old(self).last_time_pos,
            final(self).last_percent_mill == old(self).last_percent_mill,
            final(self).last_pause == old(self).last_pause,
            final(self).completed_fired == old(self).completed_fired,
            final(self).position_threshold_ms == old(self).position_threshold_ms,
            final(self).percent_threshold_mill == old(self).percent_threshold_mill,
    {
        let ghost orig = self.observers@;
        let mut names: Vec<String> = Vec::new();
        let mut i: usize = 0;
        proof {
            assert(names@.map_values(|s: String| s@) =~= spec_observer_names(orig.take(0)));
        }
        while i < self.observers.len()
            invariant
                i <= orig.len(),
                self.observers@ == orig,
                names@.map_values(|s: String| s@) == spec_observer_names(orig.take(i as int)),
        decreases orig.len() - i,
        {
            let name = self.observers[i].0.clone();
            let ghost prepush = names@;
            names.push(name);
            proof {
                assert(orig.take(i + 1) =~= orig.take(i as int).push(orig[i as int]));
                assert(prepush.map_values(|s: String| s@).len() == prepush.len());
                assert(spec_observer_names(orig.take(i as int)).len() == i);
                assert(prepush.len() == i);
                let lhs = names@.map_values(|s: String| s@);
                let rhs = spec_observer_names(orig.take(i + 1));
                assert forall|k: int| 0 <= k < lhs.len() implies #[trigger] lhs[k] == rhs[k] by {
                    if k < i {
                        assert(prepush.map_values(|s: String| s@)[k] == prepush[k]@);
                        assert(names@[k] == prepush[k]);
                        assert(rhs[k] == orig.take(i + 1)[k].0@);
                    } else {
                        assert(names@[k]@ == orig[i as int].0@);
                    }
                }
                assert(lhs =~= rhs);
            }
            i = i + 1;
        }
        proof {
            assert(orig.take(orig.len() as int) =~= orig);
        }
        self.observers.clear();
        names
    }

    /// Turns one round of property values into the events it warrants, and
    /// advances the edge-detection state. Pause events fire only on a
    /// pause-state transition; position events only when the change since
    /// the last report reaches the configured threshold (the first value
    /// seen only sets the baseline); the completion event fires once, on
    /// the first poll that shows end-of-file or an idle player.
    pub fn poll_step(&mut self, snap: &PollSnapshot) -> (events: Vec<MpvEvent>)
        ensures
            events@ == spec_poll_events(*old(self), *snap),
            *final(self) == (MpvEventListener {
                last_time_pos: spec_next_time_baseline(*old(self), *snap),
                last_percent_mill: spec_next_percent_baseline(*old(self), *snap),
                last_pause: if snap.paused is Some {
                    snap.paused
                } else {
                    old(self).last_pause
                },
                completed_fired: old(self).completed_fired || snap.eof_reached
                    || snap.idle_active,
                ..*old(self)
            }),
    {
        let mut events: Vec<MpvEvent> = Vec::new();
        if snap.position_due {
            if let Some(p) = snap.time_pos {
                match self.last_time_pos {
                    None => {
                        self.last_time_pos = Some(p);
                    },
                    Some(lp) => {
                        let d: i128 = (p as i128) - (lp as i128);
                        let a: i128 = if d < 0 {
                            -d
                        } else {
                            d
                        };
                        if a >= self.position_threshold_ms as i128 {
                            events.push(MpvEvent::TimePositionChanged(p));
                            self.last_time_pos = Some(p);
                        }
                    },
                }
            }
            if let Some(q) = snap.percent_pos_mill {
                match self.last_percent_mill {
                    None => {
                        self.last_percent_mill = Some(q);
                    },
                    Some(lq) => {
                        let d: i128 = (q as i128) - (lq as i128);
                        let a: i128 = if d < 0 {
                            -d
                        } else {
                            d
                        };
                        if a >= self.percent_threshold_mill as i128 {
                            events.push(MpvEvent::PercentPositionChanged(q));
                            self.last_percent_mill = Some(q);
                        }
                    },
                }
            }
        }
        if (snap.eof_reached || snap.idle_active) && !self.completed_fired {
            events.push(MpvEvent::PlaybackCompleted);
            self.completed_fired = true;
        } else if snap.eof_reached || snap.idle_active {
            self.completed_fired = true;
        }
        if let Some(p) = snap.paused {
            match self.last_pause {
                None => {
                    if p {
                        events.push(MpvEvent::PlaybackPaused);
                    } else {
                        events.push(MpvEvent::PlaybackStarted);
                    }
                },
                Some(lp) => {
                    if p != lp {
                        if p {
                            events.push(MpvEvent::PlaybackPaused);
                        } else {
                            events.push(MpvEvent::PlaybackResumed);
                        }
                    }
                },
            }
            self.last_pause = Some(p);
        }
        proof {
            assert(events@ =~= spec_poll_events(*old(self), *snap));
        }
        events
    }

    /// Stops the listener: the poll loop ends at its next iteration, the
    /// caller gets every subscription identifier to cancel (best-effort),
    /// the tracked-property state is cleared, and the client is latched
    /// closed so nothing reconnects afterwards. Safe to call again: a second
    /// call changes nothing and hands back nothing.
    pub fn stop_listening(&mut self) -> (to_unobserve: Vec<u64>)
        ensures
            !final(self).running,
            !old(self).running ==> *final(self) == *old(self) && to_unobserve@
                == Seq::<u64>::empty(),
            old(self).running ==> to_unobserve@ == old(self).observers@.map_values(
                |p: (String, u64)| p.1,
            ),
            old(self).running ==> final(self).observers@ =~= Seq::<(String, u64)>::empty(),
            old(self).running ==> final(self).client == (crate::ipc::MpvIpcClient {
                connected: false,
                intentionally_closed: true,
                ..old(self).client
            }),
            final(self).callbacks == old(self).callbacks,
            final(self).connection_status == old(self).connection_status,
            final(self).last_time_pos == old(self).last_time_pos,
            final(self).last_percent_mill == old(self).last_percent_mill,
            final(self).last_pause == old(self).last_pause,
            final(self).completed_fired == old(self).completed_fired,
            final(self).position_threshold_ms == old(self).position_threshold_ms,
            final(self).percent_threshold_mill == old(self).percent_threshold_mill,
    {
        if !self.running {
            return Vec::new();
        }
        self.running = false;
        let mut ids: Vec<u64> = Vec::new();
        let mut i: usize = 0;
        while i < self.observers.len()
            invariant
                i <= self.observers@.len(),
                ids@ == self.observers@.take(i as int).map_values(|p: (String, u64)| p.1),
            decreases self.observers@.len() - i,
        {
            ids.push(self.observers[i].1);
            proof {
                assert(self.observers@.take(i + 1) =~= self.observers@.take(i as int).push(
                    self.observers@[i as int],
                ));
                assert(ids@ =~= self.observers@.take(i + 1).map_values(
                    |p: (String, u64)| p.1,
                ));
            }
            i = i + 1;
        }
        proof {
            assert(self.observers@.take(self.observers@.len() as int) =~= self.observers@);
        }
        self.observers.clear();
        self.client.mark_as_intentionally_closed();
        ids
    }

    /// Handles the player process having exited: the loop stops, the client
    /// is latched closed, and the tracked properties are cleared so nothing
    /// touches them again.
    pub fn handle_process_exit(&mut self)
        ensures
            !final(self).running,
            final(self).observers@ =~= Seq::<(String, u64)>::empty(),
            final(self).client == crate::ipc::spec_after_close(old(self).client),
            final(self).callbacks == old(self).callbacks,
            final(self).connection_status == old(self).connection_status,
            final(self).last_time_pos == old(self).last_time_pos,
            final(self).last_percent_mill == old(self).last_percent_mill,
            final(self).last_pause == old(self).last_pause,
            final(self).completed_fired == old(self).completed_fired,
            final(self).position_threshold_ms == old(self).position_threshold_ms,
            final(self).percent_threshold_mill == old(self).percent_threshold_mill,
    {
        self.running = false;
        self.client.close();
        self.observers.clear();
    }

    /// Whether the listener is marked running.
    pub fn is_running(&self) -> (r: bool)
        ensures
            r == self.running,
    {
        self.running
    }

    /// Marks the listener running, so the embedding program's loop polls.
    /// Answers whether it was newly started.
    pub fn start_listening(&mut self) -> (started: bool)
        ensures
            started == !old(self).running,
            *final(self) == (MpvEventListener { running: true, ..*old(self) }),
    {
        let was = self.running;
        self.running = true;
        !was
    }
}

} // verus!
