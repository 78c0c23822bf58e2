//! The instance manager's bookkeeping: the registry of live instances, the
//! subscriber list, and the process-wide deduplication of terminal events,
//! with the monitoring loop's decision core.
//!
//! The embedding program owns the player processes, threads and channels; it
//! keys them by the same instance identifiers and consults this state for
//! every lifecycle decision.

use vstd::prelude::*;
use crate::ids::VideoId;

verus! {

/// An event delivered to subscribers. Times are whole milliseconds;
/// percentages are thousandths of a percent.
#[derive(Debug, Clone)]
pub enum VideoEvent {
    /// A progress update.
    Progress { id: VideoId, position_ms: i64, duration_ms: i64, percent_mill: i64 },
    /// The instance started playing.
    Started { id: VideoId },
    /// Playback was paused.
    Paused { id: VideoId },
    /// Playback resumed.
    Resumed { id: VideoId },
    /// Playback reached its end. Delivered at most once per instance.
    Ended { id: VideoId },
    /// The instance was closed. Delivered at most once per instance.
    Closed { id: VideoId },
    /// The instance reported an error.
    Error { id: VideoId, message: String },
}

/// The two terminal event kinds, which reach subscribers at most once per
/// instance however many detection paths fire.
#[derive(Debug, Clone, Copy, PartialEq, Eq, Hash, Structural)]
pub enum TerminalKind {
    /// The instance was closed.
    Closed,
    /// Playback ended.
    Ended,
}

/// The terminal kind of an event, if it has one.
pub open spec fn spec_terminal_kind(e: VideoEvent) -> Option<TerminalKind> {
    match e {
        VideoEvent::Closed { .. } => Some(TerminalKind::Closed),
        VideoEvent::Ended { .. } => Some(TerminalKind::Ended),
        _ => None,
    }
}

/// The instance an event speaks of.
pub open spec fn spec_event_id(e: VideoEvent) -> VideoId {
    match e {
        VideoEvent::Progress { id, .. } => id,
        VideoEvent::Started { id } => id,
        VideoEvent::Paused { id } => id,
        VideoEvent::Resumed { id } => id,
        VideoEvent::Ended { id } => id,
        VideoEvent::Closed { id } => id,
        VideoEvent::Error { id, .. } => id,
    }
}

fn terminal_kind(e: &VideoEvent) -> (r: Option<TerminalKind>)
    ensures
        r == spec_terminal_kind(*e),
{
    match e {
        VideoEvent::Closed { .. } => Some(TerminalKind::Closed),
        VideoEvent::Ended { .. } => Some(TerminalKind::Ended),
        _ => None,
    }
}

fn event_id(e: &VideoEvent) -> (r: VideoId)
    ensures
        r == spec_event_id(*e),
{
    match e {
        VideoEvent::Progress { id, .. } => *id,
        VideoEvent::Started { id } => *id,
        VideoEvent::Paused { id } => *id,
        VideoEvent::Resumed { id } => *id,
        VideoEvent::Ended { id } => *id,
        VideoEvent::Closed { id } => *id,
        VideoEvent::Error { id, .. } => *id,
    }
}

/// Whether the terminal kind `k` has already been delivered for instance
/// `id`.
pub open spec fn spec_noted(notes: Seq<(u128, TerminalKind)>, id: u128, k: TerminalKind) -> bool {
    exists|i: int| 0 <= i < notes.len() && notes[i] == (id, k)
}

/// Recording a terminal delivery: the record it adds, and whether the event
/// may be delivered (only the first attempt per instance and kind may).
pub open spec fn spec_note(
    notes: Seq<(u128, TerminalKind)>,
    id: u128,
    k: TerminalKind,
) -> (Seq<(u128, TerminalKind)>, bool) {
    if spec_noted(notes, id, k) {
        (notes, false)
    } else {
        (notes.push((id, k)), true)
    }
}

/// A recorded delivery stays recorded, whatever is recorded after it.
pub proof fn lemma_noted_monotone(
    notes: Seq<(u128, TerminalKind)>,
    id: u128,
    k: TerminalKind,
    id2: u128,
    k2: TerminalKind,
)
    requires
        spec_noted(notes, id, k),
    ensures
        spec_noted(spec_note(notes, id2, k2).0, id, k),
{
    let i = choose|i: int| 0 <= i < notes.len() && notes[i] == (id, k);
    assert(spec_note(notes, id2, k2).0[i] == (id, k));
}

/// At most one delivery per instance and terminal kind: an allowed delivery
/// leaves the pair recorded, and a recorded pair is never delivered again.
/// With `lemma_noted_monotone`, any run of deliveries for any instances lets
/// each (instance, kind) pair through at most once.
pub proof fn lemma_terminal_once(notes: Seq<(u128, TerminalKind)>, id: u128, k: TerminalKind)
    ensures
        spec_note(notes, id, k).1 ==> spec_noted(spec_note(notes, id, k).0, id, k),
        spec_noted(notes, id, k) ==> !spec_note(notes, id, k).1,
{
    if spec_note(notes, id, k).1 {
        let n = notes.len() as int;
        assert(spec_note(notes, id, k).0[n] == (id, k));
    }
}

/// One live instance's record: the identifier, the socket path both of its
/// connections use, and whether it has an event listener attached.
#[derive(Debug, Clone)]
pub struct VideoInstance {
    /// The instance's identifier.
    pub id: VideoId,
    /// The socket path its player process listens on.
    pub socket_path: String,
    /// Whether an event listener (and a monitoring task) is attached.
    pub has_listener: bool,
}

/// The identifiers of a registry's entries.
pub open spec fn spec_instance_ids(v: Seq<VideoInstance>) -> Seq<u128> {
    v.map_values(|i: VideoInstance| i.id.raw)
}

/// No identifier appears twice.
pub open spec fn spec_ids_distinct(v: Seq<VideoInstance>) -> bool {
    forall|i: int, j: int|
        0 <= i < j < v.len() ==> spec_instance_ids(v)[i] != spec_instance_ids(v)[j]
}

/// Whether the registry holds an instance under `id`.
pub open spec fn spec_has_instance(v: Seq<VideoInstance>, id: u128) -> bool {
    exists|i: int| 0 <= i < v.len() && v[i].id.raw == id
}

/// Removing an instance: the first entry under `id` leaves, the rest stay
/// in order.
pub open spec fn spec_close(v: Seq<VideoInstance>, id: u128) -> Seq<VideoInstance>
    decreases v.len(),
{
    if v.len() == 0 {
        v
    } else if v[0].id.raw == id {
        v.drop_first()
    } else {
        seq![v[0]] + spec_close(v.drop_first(), id)
    }
}

/// With distinct identifiers, a closed instance is gone: nothing under its
/// identifier remains, so closing again changes nothing. Every other
/// instance stays, and the identifiers stay distinct.
#[verifier::rlimit(80)]
pub proof fn lemma_close_removes(v: Seq<VideoInstance>, id: u128)
    requires
        spec_ids_distinct(v),
    ensures
        !spec_has_instance(spec_close(v, id), id),
        spec_close(spec_close(v, id), id) == spec_close(v, id),
        spec_ids_distinct(spec_close(v, id)),
        forall|x: u128|
            x != id ==> (spec_has_instance(spec_close(v, id), x) == spec_has_instance(v, x)),
    decreases v.len(),
{
    let r = spec_close(v, id);
    if v.len() == 0 {
        lemma_close_absent(r, id);
    } else if v[0].id.raw == id {
        assert forall|k: int| 0 <= k < v.drop_first().len() implies #[trigger] v.drop_first(
        )[k].id.raw != id by {
            assert(v.drop_first()[k] == v[k + 1]);
            assert(spec_instance_ids(v)[0] != spec_instance_ids(v)[k + 1]);
        }
        assert(spec_ids_distinct(v.drop_first())) by {
            assert forall|i: int, j: int|
                0 <= i < j < v.drop_first().len() implies spec_instance_ids(v.drop_first())[i]
                != spec_instance_ids(v.drop_first())[j] by {
                assert(spec_instance_ids(v)[i + 1] != spec_instance_ids(v)[j + 1]);
            }
        }
        lemma_close_absent(r, id);
        assert forall|x: u128| x != id implies (spec_has_instance(r, x) == spec_has_instance(
            v,
            x,
        )) by {
            if spec_has_instance(v, x) {
                let i = choose|i: int| 0 <= i < v.len() && v[i].id.raw == x;
                assert(i != 0);
                assert(v.drop_first()[i - 1] == v[i]);
                assert(r[i - 1].id.raw == x);
            }
            if spec_has_instance(r, x) {
                let i = choose|i: int| 0 <= i < r.len() && r[i].id.raw == x;
                assert(v.drop_first()[i] == v[i + 1]);
                assert(v[i + 1].id.raw == x);
            }
        }
    } else {
        assert(spec_ids_distinct(v.drop_first())) by {
            assert forall|i: int, j: int|
                0 <= i < j < v.drop_first().len() implies spec_instance_ids(v.drop_first())[i]
                != spec_instance_ids(v.drop_first())[j] by {
                assert(spec_instance_ids(v)[i + 1] != spec_instance_ids(v)[j + 1]);
            }
        }
        lemma_close_removes(v.drop_first(), id);
        let tail = spec_close(v.drop_first(), id);
        assert(r == seq![v[0]] + tail);
        assert(r[0] == v[0]);
        assert forall|k: int| 0 <= k < tail.len() implies r[k + 1] == tail[k] by {}
        assert(!spec_has_instance(r, id)) by {
            assert forall|i: int| 0 <= i < r.len() implies #[trigger] r[i].id.raw != id by {
                if i > 0 {
                    assert(r[i] == tail[i - 1]);
                    assert(!spec_has_instance(tail, id));
                }
            }
        }
        lemma_close_absent(r, id);
        assert(spec_ids_distinct(r)) by {
            lemma_close_membership(v.drop_first(), id);
            assert forall|i: int, j: int|
                0 <= i < j < r.len() implies spec_instance_ids(r)[i] != spec_instance_ids(
                r,
            )[j] by {
                if i == 0 {
                    assert(r[j] == tail[j - 1]);
                    let orig = choose|m: int|
                        0 <= m < v.drop_first().len() && v.drop_first()[m] == tail[j - 1];
                    assert(spec_instance_ids(v)[0] != spec_instance_ids(v)[orig + 1]);
                } else {
                    assert(r[i] == tail[i - 1]);
                    assert(r[j] == tail[j - 1]);
                    assert(spec_instance_ids(tail)[i - 1] != spec_instance_ids(tail)[j - 1]);
                }
            }
        }
        assert forall|x: u128| x != id implies (spec_has_instance(r, x) == spec_has_instance(
            v,
            x,
        )) by {
            assert(spec_has_instance(tail, x) == spec_has_instance(v.drop_first(), x));
            if spec_has_instance(v, x) {
                let i = choose|i: int| 0 <= i < v.len() && v[i].id.raw == x;
                if i == 0 {
                    assert(r[0].id.raw == x);
                } else {
                    assert(v.drop_first()[i - 1] == v[i]);
                    assert(spec_has_instance(v.drop_first(), x));
                    let m = choose|m: int| 0 <= m < tail.len() && tail[m].id.raw == x;
                    assert(r[m + 1] == tail[m]);
                    assert(r[m + 1].id.raw == x);
                }
            }
            if spec_has_instance(r, x) {
                let i = choose|i: int| 0 <= i < r.len() && r[i].id.raw == x;
                if i == 0 {
                    assert(v[0].id.raw == x);
                } else {
                    assert(r[i] == tail[i - 1]);
                    assert(spec_has_instance(tail, x));
                    let m = choose|m: int| 0 <= m < v.drop_first().len() && v.drop_first(
                    )[m].id.raw == x;
                    assert(v.drop_first()[m] == v[m + 1]);
                    assert(v[m + 1].id.raw == x);
                }
            }
        }
    }
}

/// Closing an identifier that is absent changes nothing.
pub proof fn lemma_close_absent(v: Seq<VideoInstance>, id: u128)
    requires
        !spec_has_instance(v, id),
    ensures
        spec_close(v, id) == v,
    decreases v.len(),
{
    if v.len() > 0 {
        assert(v[0].id.raw != id);
        assert forall|i: int| 0 <= i < v.drop_first().len() implies #[trigger] v.drop_first(
        )[i].id.raw != id by {
            assert(v.drop_first()[i] == v[i + 1]);
        }
        lemma_close_absent(v.drop_first(), id);
        assert(spec_close(v, id) =~= v);
    }
}

/// Every entry of a closed registry came from the one it was made from.
proof fn lemma_close_membership(v: Seq<VideoInstance>, id: u128)
    ensures
        forall|k: int|
            0 <= k < spec_close(v, id).len() ==> exists|m: int|
                0 <= m < v.len() && v[m] == #[trigger] spec_close(v, id)[k],
    decreases v.len(),
{
    let r = spec_close(v, id);
    if v.len() == 0 {
    } else if v[0].id.raw == id {
        assert forall|k: int| 0 <= k < r.len() implies exists|m: int|
            0 <= m < v.len() && v[m] == #[trigger] r[k] by {
            assert(v[k + 1] == r[k]);
        }
    } else {
        lemma_close_membership(v.drop_first(), id);
        let tail = spec_close(v.drop_first(), id);
        assert forall|k: int| 0 <= k < r.len() implies exists|m: int|
            0 <= m < v.len() && v[m] == #[trigger] r[k] by {
            if k == 0 {
                assert(v[0] == r[0]);
            } else {
                assert(r[k] == tail[k - 1]);
                let m = choose|m: int|
                    0 <= m < v.drop_first().len() && v.drop_first()[m] == tail[k - 1];
                assert(v[m + 1] == r[k]);
            }
        }
    }
}

/// The manager's bookkeeping state: the registry of live instances, the
/// subscriber list, and the record of delivered terminal events. The three
/// are independent, so event delivery never waits on instance mutation.
pub struct VideoManager {
    /// The live instances, identifiers distinct.
    pub instances: Vec<VideoInstance>,
    /// The subscribers' identifiers, in subscription order.
    pub subscribers: Vec<u128>,
    /// The (instance, kind) pairs whose terminal event already went out.
    pub notified: Vec<(u128, TerminalKind)>,
}

impl VideoManager {
    /// A fresh manager: nothing registered, nobody subscribed.
    pub fn new() -> (r: Self)
        ensures
            r.instances@ =~= Seq::<VideoInstance>::empty(),
            r.subscribers@ =~= Seq::<u128>::empty(),
            r.notified@ =~= Seq::<(u128, TerminalKind)>::empty(),
    {
        VideoManager { instances: Vec::new(), subscribers: Vec::new(), notified: Vec::new() }
    }

    /// Whether an instance is registered under `id`.
    pub fn contains_instance(&self, id: VideoId) -> (r: bool)
        ensures
            r == spec_has_instance(self.instances@, id.raw),
    {
        let mut i: usize = 0;
        while i < self.instances.len()
            invariant
                i <= self.instances@.len(),
                forall|k: int| 0 <= k < i ==> #[trigger] self.instances@[k].id.raw != id.raw,
            decreases self.instances@.len() - i,
        {
            if self.instances[i].id.raw == id.raw {
                return true;
            }
            i = i + 1;
        }
        false
    }

    /// Registers a freshly launched instance. An identifier already present
    /// is refused, so the identifiers stay distinct.
    pub fn register_instance(&mut self, inst: VideoInstance) -> (added: bool)
        ensures
            added == !spec_has_instance(old(self).instances@, inst.id.raw),
            !added ==> *final(self) == *old(self),
            added ==> final(self).instances@ == old(self).instances@.push(inst),
            spec_ids_distinct(old(self).instances@) ==> spec_ids_distinct(
                final(self).instances@,
            ),
            added ==> spec_has_instance(final(self).instances@, inst.id.raw),
            final(self).subscribers == old(self).subscribers,
            final(self).notified == old(self).notified,
    {
        if self.contains_instance(inst.id) {
            return false;
        }
        let ghost pre = self.instances@;
        let ghost raw = inst.id.raw;
        self.instances.push(inst);
        proof {
            assert(self.instances@.last().id.raw == raw);
            if spec_ids_distinct(pre) {
                assert forall|i: int, j: int|
                    0 <= i < j < self.instances@.len() implies spec_instance_ids(
                    self.instances@,
                )[i] != spec_instance_ids(self.instances@)[j] by {
                    if j < pre.len() {
                        assert(spec_instance_ids(pre)[i] != spec_instance_ids(pre)[j]);
                        assert(self.instances@[i] == pre[i]);
                        assert(self.instances@[j] == pre[j]);
                    } else {
                        assert(self.instances@[i] == pre[i]);
                        assert(pre[i].id.raw != raw);
                    }
                }
            }
        }
        true
    }

    /// Closes an instance: removes it from the registry before any teardown,
    /// so a concurrent lookup never sees a half-torn-down instance. Closing
    /// an identifier that is absent is a no-op, not an error: a race between
    /// the monitoring loop's self-detected closure and an explicit close is
    /// expected. With distinct identifiers the instance is gone when the
    /// call returns, so a second close changes nothing.
    pub fn close(&mut self, id: VideoId) -> (found: Option<VideoInstance>)
        ensures
            (found is Some) == spec_has_instance(old(self).instances@, id.raw),
            found matches Some(inst) ==> inst.id.raw == id.raw,
            final(self).instances@ == spec_close(old(self).instances@, id.raw),
            found is None ==> final(self).instances@ == old(self).instances@,
            final(self).subscribers == old(self).subscribers,
            final(self).notified == old(self).notified,
    {
        let ghost pre = self.instances@;
        let mut i: usize = 0;
        while i < self.instances.len()
            invariant
                pre == old(self).instances@,
                self.instances@ == pre,
                self.subscribers == old(self).subscribers,
                self.notified == old(self).notified,
                i <= pre.len(),
                forall|k: int| 0 <= k < i ==> #[trigger] pre[k].id.raw != id.raw,
            decreases pre.len() - i,
        {
            if self.instances[i].id.raw == id.raw {
                proof {
                    assert(spec_has_instance(pre, id.raw));
                }
                let inst = self.instances.remove(i);
                proof {
                    lemma_close_at(pre, id.raw, i as int);
                }
                return Some(inst);
            }
            i = i + 1;
        }
        proof {
            assert(!spec_has_instance(pre, id.raw));
            lemma_close_absent(pre, id.raw);
        }
        None
    }

    /// Empties the registry for shutdown, handing back every instance so the
    /// caller can tear each one down.
    pub fn close_all(&mut self) -> (removed: Vec<VideoInstance>)
        ensures
            removed@ == old(self).instances@,
            final(self).instances@ =~= Seq::<VideoInstance>::empty(),
            final(self).subscribers == old(self).subscribers,
            final(self).notified == old(self).notified,
    {
        let mut removed: Vec<VideoInstance> = Vec::new();
        let ghost pre = self.instances@;
        proof {
            assert(removed@ + self.instances@ =~= pre);
        }
        while self.instances.len() > 0
            invariant
                pre == old(self).instances@,
                removed@ + self.instances@ == pre,
                self.subscribers == old(self).subscribers,
                self.notified == old(self).notified,
            decreases self.instances@.len(),
        {
            let inst = self.instances.remove(0);
            removed.push(inst);
            proof {
                assert(removed@ + self.instances@ =~= pre);
            }
        }
        proof {
            assert(self.instances@ =~= Seq::<VideoInstance>::empty());
            assert(removed@ + self.instances@ =~= removed@);
        }
        removed
    }

    /// Adds a subscriber.
    pub fn subscribe(&mut self, sub_id: u128)
        ensures
            final(self).subscribers@ == old(self).subscribers@.push(sub_id),
            final(self).instances == old(self).instances,
            final(self).notified == old(self).notified,
    {
        self.subscribers.push(sub_id);
    }

    /// Removes a subscriber; every entry under the identifier leaves.
    pub fn unsubscribe(&mut self, sub_id: u128)
        ensures
            final(self).subscribers@ == old(self).subscribers@.filter(
                |s: u128| s != sub_id,
            ),
            final(self).instances == old(self).instances,
            final(self).notified == old(self).notified,
    {
        let ghost pre = self.subscribers@;
        let mut kept: Vec<u128> = Vec::new();
        let mut i: usize = 0;
        proof {
            assert(pre.take(0).filter(|s: u128| s != sub_id) =~= Seq::<u128>::empty());
        }
        while i < self.subscribers.len()
            invariant
                self.subscribers@ == pre,
                i <= pre.len(),
                kept@ == pre.take(i as int).filter(|s: u128| s != sub_id),
            decreases pre.len() - i,
        {
            let s = self.subscribers[i];
            proof {
                assert(pre.take(i + 1).drop_last() =~= pre.take(i as int));
                assert(pre.take(i + 1).last() == pre[i as int]);
                reveal(Seq::filter);
            }
            if s != sub_id {
                kept.push(s);
            }
            i = i + 1;
        }
        proof {
            assert(pre.take(pre.len() as int) =~= pre);
        }
        self.subscribers = kept;
    }

    /// Decides whether an event reaches subscribers: terminal events pass at
    /// most once per instance and kind, however many detection paths raise
    /// them; every other event always passes.
    pub fn plan_notification(&mut self, event: &VideoEvent) -> (deliver: bool)
        ensures
            final(self).instances == old(self).instances,
            final(self).subscribers == old(self).subscribers,
            (match spec_terminal_kind(*event) {
                None => deliver && final(self).notified == old(self).notified,
                Some(k) => {
                    let (notes, allow) = spec_note(
                        old(self).notified@,
                        spec_event_id(*event).raw,
                        k,
                    );
                    deliver == allow && final(self).notified@ == notes
                },
            }),
    {
        let kind = terminal_kind(event);
        match kind {
            None => true,
            Some(k) => {
                let id = event_id(event);
                let mut i: usize = 0;
                while i < self.notified.len()
                    invariant
                        *self == *old(self),
                        id == spec_event_id(*event),
                        Some(k) == spec_terminal_kind(*event),
                        i <= self.notified@.len(),
                        forall|m: int|
                            0 <= m < i ==> #[trigger] self.notified@[m] != (id.raw, k),
                    decreases self.notified@.len() - i,
                {
                    let (nid, nk) = self.notified[i];
                    if nid == id.raw && nk == k {
                        proof {
                            assert(self.notified@[i as int] == (id.raw, k));
                        }
                        return false;
                    }
                    i = i + 1;
                }
                proof {
                    assert(!spec_noted(self.notified@, id.raw, k));
                }
                self.notified.push((id.raw, k));
                true
            },
        }
    }
}

/// The player's coarse playback status, derived from its pause and idle
/// properties: paused wins, then idle, else playing.
#[derive(Debug, Clone, Copy, PartialEq, Eq, Hash, Structural)]
pub enum PlaybackStatus {
    /// A file is playing.
    Playing,
    /// Playback is paused.
    Paused,
    /// No file is playing; the player waits for commands.
    Idle,
}

/// The status the pause and idle properties denote.
pub open spec fn spec_playback_status(paused: bool, idle_active: bool) -> PlaybackStatus {
    if paused {
        PlaybackStatus::Paused
    } else if idle_active {
        PlaybackStatus::Idle
    } else {
        PlaybackStatus::Playing
    }
}

/// Derives the coarse playback status from the pause and idle properties.
pub fn playback_status(paused: bool, idle_active: bool) -> (r: PlaybackStatus)
    ensures
        r == spec_playback_status(paused, idle_active),
{
    if paused {
        PlaybackStatus::Paused
    } else if idle_active {
        PlaybackStatus::Idle
    } else {
        PlaybackStatus::Playing
    }
}

/// The playback position as thousandths of a percent of the duration,
/// clamped to the representable range; zero when the duration is not
/// positive or the position is negative.
pub open spec fn spec_percent_mill(pos: int, dur: int) -> int {
    if dur > 0 && pos >= 0 {
        let v = pos * 100000 / dur;
        if v > i64::MAX as int {
            i64::MAX as int
        } else {
            v
        }
    } else {
        0
    }
}

/// Computes the position as thousandths of a percent of the duration.
pub fn percent_mill(position_ms: i64, duration_ms: i64) -> (r: i64)
    ensures
        r as int == spec_percent_mill(position_ms as int, duration_ms as int),
{
    if duration_ms > 0 && position_ms >= 0 {
        let v: u128 = (position_ms as u128) * 100000 / (duration_ms as u128);
        if v > i64::MAX as u128 {
            i64::MAX
        } else {
            v as i64
        }
    } else {
        0
    }
}

/// Consecutive failed liveness probes after which the monitoring loop treats
/// the player as exited.
pub const MAX_CONSECUTIVE_ERRORS: u32 = 3;

/// The monitoring loop's per-instance state: the edge-detection baselines
/// and the error counter, owned by one task, never shared.
pub struct MonitorState {
    /// The last position a progress event reported.
    pub last_position_ms: Option<i64>,
    /// The pause state seen at the previous tick.
    pub last_paused: bool,
    /// Consecutive failed liveness probes.
    pub consecutive_errors: u32,
    /// The playback status seen at the previous tick.
    pub last_status: Option<PlaybackStatus>,
    /// Whether a terminal event has been emitted; the loop then never emits
    /// another.
    pub done: bool,
}

/// A fresh monitoring state: nothing seen yet.
pub fn new_monitor_state() -> (r: MonitorState)
    ensures
        r.last_position_ms is None,
        !r.last_paused,
        r.consecutive_errors == 0,
        r.last_status is None,
        !r.done,
{
    MonitorState {
        last_position_ms: None,
        last_paused: false,
        consecutive_errors: 0,
        last_status: None,
        done: false,
    }
}

/// One tick's readings, as the monitoring loop's owner polled them. A
/// missing value means the read failed.
#[derive(Debug, Clone)]
pub struct MonitorSnapshot {
    /// Whether the instance's client is already latched closed.
    pub intentionally_closed: bool,
    /// Whether the liveness probe (reading the process id) succeeded.
    pub pid_ok: bool,
    /// The coarse playback status.
    pub status: Option<PlaybackStatus>,
    /// The playback position, in milliseconds.
    pub position_ms: Option<i64>,
    /// The duration, in milliseconds.
    pub duration_ms: Option<i64>,
    /// Whether playback is paused (false when the read failed).
    pub paused: bool,
    /// Whether end of file was reached.
    pub eof_reached: bool,
    /// Whether the player reports it is idle.
    pub idle_active: bool,
}

/// What the monitoring loop's owner must do after one tick.
#[derive(Debug, Clone, Copy, PartialEq, Eq, Structural)]
pub enum MonitorDirective {
    /// Keep polling.
    Continue,
    /// Stop the loop; when `mark_closed` holds, latch the instance's client
    /// closed first so nothing reconnects.
    Stop { mark_closed: bool },
}

/// One tick of the monitoring loop. The cases, in the order they are
/// decided: a client already latched closed ends the loop with one closed
/// event; a failed liveness probe counts an error, and reaching the limit
/// ends the loop as a closure; a transition of the coarse status into idle
/// (the player closed through its own controls) ends the loop as a closure;
/// otherwise pause transitions and position changes become events, and an
/// end-of-file or idle reading ends the loop with one ended or closed
/// event. A loop that has emitted its terminal event emits nothing more.
pub open spec fn spec_monitor_step(st: MonitorState, snap: MonitorSnapshot, id: VideoId) -> (
    MonitorState,
    Seq<VideoEvent>,
    MonitorDirective,
) {
    if st.done {
        (st, Seq::empty(), MonitorDirective::Stop { mark_closed: false })
    } else if snap.intentionally_closed {
        (
            MonitorState { done: true, ..st },
            seq![VideoEvent::Closed { id }],
            MonitorDirective::Stop { mark_closed: false },
        )
    } else if !snap.pid_ok {
        if st.consecutive_errors + 1 >= MAX_CONSECUTIVE_ERRORS {
            (
                MonitorState { done: true, ..st },
                seq![VideoEvent::Closed { id }],
                MonitorDirective::Stop { mark_closed: true },
            )
        } else {
            (
                MonitorState { consecutive_errors: (st.consecutive_errors + 1) as u32, ..st },
                Seq::empty(),
                MonitorDirective::Continue,
            )
        }
    } else if snap.status matches Some(s) && st.last_status != Some(s) && s
        == PlaybackStatus::Idle {
        (
            MonitorState { consecutive_errors: 0, done: true, ..st },
            seq![VideoEvent::Closed { id }],
            MonitorDirective::Stop { mark_closed: true },
        )
    } else {
        let st1 = MonitorState {
            consecutive_errors: 0,
            last_status: if snap.status is Some {
                snap.status
            } else {
                st.last_status
            },
            last_paused: snap.paused,
            last_position_ms: if spec_progress_due(st, snap) {
                snap.position_ms
            } else {
                st.last_position_ms
            },
            ..st
        };
        let evts = spec_pause_transition(st, snap, id) + spec_progress_events(st, snap, id);
        if snap.eof_reached {
            (
                MonitorState { done: true, ..st1 },
                evts + seq![VideoEvent::Ended { id }],
                MonitorDirective::Stop { mark_closed: true },
            )
        } else if snap.idle_active {
            (
                MonitorState { done: true, ..st1 },
                evts + seq![VideoEvent::Closed { id }],
                MonitorDirective::Stop { mark_closed: true },
            )
        } else {
            (st1, evts, MonitorDirective::Continue)
        }
    }
}

/// Whether this tick reports progress: both position and duration were
/// read, and the position differs from the last reported one.
pub open spec fn spec_progress_due(st: MonitorState, snap: MonitorSnapshot) -> bool {
    snap.position_ms is Some && snap.duration_ms is Some && st.last_position_ms
        != snap.position_ms
}

/// The pause-transition event of one tick, if the pause state flipped.
pub open spec fn spec_pause_transition(st: MonitorState, snap: MonitorSnapshot, id: VideoId) -> Seq<
    VideoEvent,
> {
    if snap.paused != st.last_paused {
        if snap.paused {
            seq![VideoEvent::Paused { id }]
        } else {
            seq![VideoEvent::Resumed { id }]
        }
    } else {
        Seq::empty()
    }
}

/// The progress event of one tick, if one is due.
pub open spec fn spec_progress_events(st: MonitorState, snap: MonitorSnapshot, id: VideoId) -> Seq<
    VideoEvent,
> {
    if spec_progress_due(st, snap) {
        seq![
            VideoEvent::Progress {
                id,
                position_ms: snap.position_ms->0,
                duration_ms: snap.duration_ms->0,
                percent_mill: spec_percent_mill(
                    snap.position_ms->0 as int,
                    snap.duration_ms->0 as int,
                ) as i64,
            },
        ]
    } else {
        Seq::empty()
    }
}

/// Runs one tick of the monitoring loop over its state: hands back the
/// events to fan out (through `plan_notification`, which deduplicates the
/// terminal ones) and the directive for the loop's owner.
pub fn monitor_step(st: &mut MonitorState, snap: &MonitorSnapshot, id: VideoId) -> (r: (
    Vec<VideoEvent>,
    MonitorDirective,
))
    ensures
        ({
            let (nst, evts, dir) = spec_monitor_step(*old(st), *snap, id);
            *final(st) == nst && r.0@ == evts && r.1 == dir
        }),
{
    let mut events: Vec<VideoEvent> = Vec::new();
    if st.done {
        return (events, MonitorDirective::Stop { mark_closed: false });
    }
    if snap.intentionally_closed {
        st.done = true;
        events.push(VideoEvent::Closed { id });
        proof {
            assert(events@ =~= spec_monitor_step(*old(st), *snap, id).1);
        }
        return (events, MonitorDirective::Stop { mark_closed: false });
    }
    if !snap.pid_ok {
        if st.consecutive_errors >= MAX_CONSECUTIVE_ERRORS - 1 {
            st.done = true;
            events.push(VideoEvent::Closed { id });
            proof {
                assert(events@ =~= spec_monitor_step(*old(st), *snap, id).1);
            }
            return (events, MonitorDirective::Stop { mark_closed: true });
        }
        st.consecutive_errors = st.consecutive_errors + 1;
        return (events, MonitorDirective::Continue);
    }
    st.consecutive_errors = 0;
    if let Some(s) = snap.status {
        let changed = match st.last_status {
            Some(ls) => ls != s,
            None => true,
        };
        if changed && s == PlaybackStatus::Idle {
            st.done = true;
            events.push(VideoEvent::Closed { id });
            proof {
                assert(events@ =~= spec_monitor_step(*old(st), *snap, id).1);
            }
            return (events, MonitorDirective::Stop { mark_closed: true });
        }
        st.last_status = Some(s);
    }
    if snap.paused != st.last_paused {
        if snap.paused {
            events.push(VideoEvent::Paused { id });
        } else {
            events.push(VideoEvent::Resumed { id });
        }
    }
    st.last_paused = snap.paused;
    if let (Some(p), Some(d)) = (snap.position_ms, snap.duration_ms) {
        let same = match st.last_position_ms {
            Some(lp) => lp == p,
            None => false,
        };
        if !same {
            events.push(
                VideoEvent::Progress {
                    id,
                    position_ms: p,
                    duration_ms: d,
                    percent_mill: percent_mill(p, d),
                },
            );
            st.last_position_ms = Some(p);
        }
    }
    if snap.eof_reached {
        st.done = true;
        events.push(VideoEvent::Ended { id });
        proof {
            assert(events@ =~= spec_monitor_step(*old(st), *snap, id).1);
        }
        return (events, MonitorDirective::Stop { mark_closed: true });
    }
    if snap.idle_active {
        st.done = true;
        events.push(VideoEvent::Closed { id });
        proof {
            assert(events@ =~= spec_monitor_step(*old(st), *snap, id).1);
        }
        return (events, MonitorDirective::Stop { mark_closed: true });
    }
    proof {
        assert(events@ =~= spec_monitor_step(*old(st), *snap, id).1);
    }
    (events, MonitorDirective::Continue)
}

/// Removing the first match at a known index: everything before it and
/// after it stays.
proof fn lemma_close_at(v: Seq<VideoInstance>, id: u128, i: int)
    requires
        0 <= i < v.len(),
        v[i].id.raw == id,
        forall|k: int| 0 <= k < i ==> #[trigger] v[k].id.raw != id,
    ensures
        spec_close(v, id) == v.remove(i),
    decreases i,
{
    if i == 0 {
        assert(spec_close(v, id) =~= v.remove(0));
    } else {
        assert forall|k: int| 0 <= k < i - 1 implies #[trigger] v.drop_first()[k].id.raw
            != id by {
            assert(v.drop_first()[k] == v[k + 1]);
        }
        assert(v.drop_first()[i - 1] == v[i]);
        lemma_close_at(v.drop_first(), id, i - 1);
        assert(spec_close(v, id) =~= v.remove(i));
    }
}

} // verus!
