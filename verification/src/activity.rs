//! Projection of Agent stream activity: per-turn counters, the coalescing of
//! liveness checkpoints, the final response of the latest model round, and
//! the classification of turn failures.

use vstd::prelude::*;

use crate::ports::LoopxAgentTurnStatus;
use crate::text::{chars_of, push_str, str_eq, string_from_chars, trim, trim_chars};

verus! {

/// Checkpoints of one turn are at least this many milliseconds apart, unless forced.
pub const ACTIVITY_PERSIST_INTERVAL_MS: i64 = 2000;

/// The final response keeps at most this many characters (its tail).
pub const MAX_FINAL_RESPONSE_CHARS: usize = 16000;

/// The last `n` characters of `s` (all of them when there are fewer).
pub open spec fn tail_chars(s: Seq<char>, n: nat) -> Seq<char> {
    if s.len() > n {
        s.skip(s.len() - n)
    } else {
        s
    }
}

/// Appends `text` to `buffer`, keeping only the last `max_chars` characters:
/// a structured summary is emitted at the end of a response, so the tail is
/// what must survive the bound.
pub fn append_bounded_text(buffer: &mut String, text: &str, max_chars: usize)
    ensures
        final(buffer)@ == tail_chars(old(buffer)@ + text@, max_chars as nat),
{
    push_str(buffer, text);
    let chars = chars_of(buffer.as_str());
    let total = chars.len();
    if total > max_chars {
        let skip = total - max_chars;
        let kept = crate::text::string_from_range(&chars, skip, total);
        assert(chars@.subrange(skip as int, total as int) =~= chars@.skip(skip as int));
        *buffer = kept;
    }
}

/// The activity of one Agent turn.
#[derive(Debug)]
pub struct TurnActivity {
    pub turn_id: String,
    pub last_persisted: Option<i64>,
    pub stream_events: u64,
    pub suppressed_tool_events: u64,
    pub tool_lifecycle_events: u64,
    pub persisted_checkpoints: u64,
    pub latest_round_id: Option<String>,
    pub latest_attempt_id: Option<String>,
    pub latest_round_text: String,
}

/// Mathematical value of a turn's activity.
pub struct TurnActivityModel {
    pub last_persisted: Option<i64>,
    pub stream_events: u64,
    pub suppressed_tool_events: u64,
    pub tool_lifecycle_events: u64,
    pub persisted_checkpoints: u64,
    pub latest_round_id: Option<Seq<char>>,
    pub latest_attempt_id: Option<Seq<char>>,
    pub latest_round_text: Seq<char>,
}

/// The view of an optional string.
pub open spec fn opt_view(o: Option<String>) -> Option<Seq<char>> {
    match o {
        Some(s) => Some(s@),
        None => None,
    }
}

/// The view of an optional string slice.
pub open spec fn opt_str_view(o: Option<&str>) -> Option<Seq<char>> {
    match o {
        Some(s) => Some(s@),
        None => None,
    }
}

impl View for TurnActivity {
    type V = TurnActivityModel;

    open spec fn view(&self) -> TurnActivityModel {
        TurnActivityModel {
            last_persisted: self.last_persisted,
            stream_events: self.stream_events,
            suppressed_tool_events: self.suppressed_tool_events,
            tool_lifecycle_events: self.tool_lifecycle_events,
            persisted_checkpoints: self.persisted_checkpoints,
            latest_round_id: opt_view(self.latest_round_id),
            latest_attempt_id: opt_view(self.latest_attempt_id),
            latest_round_text: self.latest_round_text@,
        }
    }
}

/// A turn with no recorded activity.
pub open spec fn fresh_activity() -> TurnActivityModel {
    TurnActivityModel {
        last_persisted: None,
        stream_events: 0,
        suppressed_tool_events: 0,
        tool_lifecycle_events: 0,
        persisted_checkpoints: 0,
        latest_round_id: None,
        latest_attempt_id: None,
        latest_round_text: Seq::empty(),
    }
}

/// `n + 1`, saturating.
pub open spec fn bump(n: u64) -> u64 {
    if n == u64::MAX {
        u64::MAX
    } else {
        (n + 1) as u64
    }
}

/// Whether a checkpoint is due: forced, never persisted, or the interval has
/// elapsed since the last one.
pub open spec fn checkpoint_due(a: TurnActivityModel, now_ms: i64, force: bool) -> bool {
    force || match a.last_persisted {
        None => true,
        Some(last) => now_ms - last >= ACTIVITY_PERSIST_INTERVAL_MS,
    }
}

/// Whether the persist interval has elapsed from `last` to `now_ms`.
fn interval_elapsed(now_ms: i64, last: i64) -> (res: bool)
    ensures
        res == (now_ms - last >= ACTIVITY_PERSIST_INTERVAL_MS),
{
    (now_ms as i128) - (last as i128) >= (ACTIVITY_PERSIST_INTERVAL_MS as i128)
}

/// A recorded stream chunk.
pub open spec fn after_stream(a: TurnActivityModel, now_ms: i64, force: bool) -> TurnActivityModel {
    let due = checkpoint_due(a, now_ms, force);
    TurnActivityModel {
        stream_events: bump(a.stream_events),
        last_persisted: if due {
            Some(now_ms)
        } else {
            a.last_persisted
        },
        persisted_checkpoints: if due {
            bump(a.persisted_checkpoints)
        } else {
            a.persisted_checkpoints
        },
        ..a
    }
}

/// A recorded suppressed tool event.
pub open spec fn after_suppressed_tool(a: TurnActivityModel, now_ms: i64) -> TurnActivityModel {
    let due = checkpoint_due(a, now_ms, false);
    TurnActivityModel {
        suppressed_tool_events: bump(a.suppressed_tool_events),
        last_persisted: if due {
            Some(now_ms)
        } else {
            a.last_persisted
        },
        persisted_checkpoints: if due {
            bump(a.persisted_checkpoints)
        } else {
            a.persisted_checkpoints
        },
        ..a
    }
}

/// A recorded tool lifecycle event: always a checkpoint.
pub open spec fn after_tool_lifecycle(a: TurnActivityModel, now_ms: i64) -> TurnActivityModel {
    TurnActivityModel {
        last_persisted: Some(now_ms),
        tool_lifecycle_events: bump(a.tool_lifecycle_events),
        persisted_checkpoints: bump(a.persisted_checkpoints),
        ..a
    }
}

/// A model round starting: a new round id clears the round's attempt and text.
pub open spec fn after_round_start(a: TurnActivityModel, round_id: Seq<char>) -> TurnActivityModel {
    if a.latest_round_id != Some(round_id) {
        TurnActivityModel {
            latest_round_id: Some(round_id),
            latest_attempt_id: None,
            latest_round_text: Seq::empty(),
            ..a
        }
    } else {
        a
    }
}

/// A text chunk: a new round, or a new attempt of the same round, restarts
/// the text; the text keeps its last `MAX_FINAL_RESPONSE_CHARS` characters.
pub open spec fn after_text(
    a: TurnActivityModel,
    round_id: Seq<char>,
    attempt_id: Option<Seq<char>>,
    text: Seq<char>,
) -> TurnActivityModel {
    let round_changed = a.latest_round_id != Some(round_id);
    let attempt_changed = !round_changed && (attempt_id matches Some(incoming) && (
    a.latest_attempt_id matches Some(current) && current != incoming));
    let base = if round_changed || attempt_changed {
        TurnActivityModel {
            latest_round_id: Some(round_id),
            latest_attempt_id: attempt_id,
            latest_round_text: Seq::empty(),
            ..a
        }
    } else if a.latest_attempt_id is None {
        TurnActivityModel { latest_attempt_id: attempt_id, ..a }
    } else {
        a
    };
    TurnActivityModel {
        latest_round_text: tail_chars(
            base.latest_round_text + text,
            MAX_FINAL_RESPONSE_CHARS as nat,
        ),
        ..base
    }
}

/// The counters and final response of a finished turn.
#[derive(Debug, Default, PartialEq, Eq)]
pub struct ActivitySummary {
    pub stream_events: u64,
    pub suppressed_tool_events: u64,
    pub tool_lifecycle_events: u64,
    pub persisted_checkpoints: u64,
    pub final_response: Option<String>,
}

/// The summary of a turn's activity: its counters, and the trimmed text of
/// the latest round when it is not blank.
pub open spec fn summary_of(a: TurnActivityModel, s: ActivitySummary) -> bool {
    &&& s.stream_events == a.stream_events
    &&& s.suppressed_tool_events == a.suppressed_tool_events
    &&& s.tool_lifecycle_events == a.tool_lifecycle_events
    &&& s.persisted_checkpoints == a.persisted_checkpoints
    &&& opt_view(s.final_response) == (if trim(a.latest_round_text).len() > 0 {
        Some(trim(a.latest_round_text))
    } else {
        None
    })
}

/// The activity of every live turn, keyed by turn id, and the monotonic
/// instant its clock counts from.
pub struct ActivityGate {
    turns: Vec<TurnActivity>,
    origin: std::time::Instant,
}

/// The model of a list of turn activities; a later entry for an id wins.
pub open spec fn turns_model(turns: Seq<TurnActivity>) -> Map<Seq<char>, TurnActivityModel>
    decreases turns.len(),
{
    if turns.len() == 0 {
        Map::empty()
    } else {
        turns_model(turns.drop_last()).insert(turns.last().turn_id@, turns.last()@)
    }
}

/// Distinct turn ids.
pub open spec fn distinct_turns(turns: Seq<TurnActivity>) -> bool {
    forall|i: int, j: int| 0 <= i < j < turns.len() ==> turns[i].turn_id@ != turns[j].turn_id@
}

proof fn lemma_turns_model_lookup(turns: Seq<TurnActivity>, i: int)
    requires
        distinct_turns(turns),
        0 <= i < turns.len(),
    ensures
        turns_model(turns).contains_key(turns[i].turn_id@),
        turns_model(turns)[turns[i].turn_id@] == turns[i]@,
    decreases turns.len(),
{
    if i < turns.len() - 1 {
        lemma_turns_model_lookup(turns.drop_last(), i);
    }
}

proof fn lemma_turns_model_absent(turns: Seq<TurnActivity>, id: Seq<char>)
    requires
        forall|i: int| 0 <= i < turns.len() ==> (#[trigger] turns[i]).turn_id@ != id,
    ensures
        !turns_model(turns).contains_key(id),
    decreases turns.len(),
{
    if turns.len() > 0 {
        lemma_turns_model_absent(turns.drop_last(), id);
    }
}

proof fn lemma_turns_model_update(turns: Seq<TurnActivity>, i: int, x: TurnActivity)
    requires
        distinct_turns(turns),
        0 <= i < turns.len(),
        x.turn_id@ == turns[i].turn_id@,
    ensures
        distinct_turns(turns.update(i, x)),
        turns_model(turns.update(i, x)) =~= turns_model(turns).insert(x.turn_id@, x@),
    decreases turns.len(),
{
    let t = turns.update(i, x);
    if i == turns.len() - 1 {
        assert(t.drop_last() =~= turns.drop_last());
        if turns.len() > 1 {
            lemma_turns_model_absent(turns.drop_last(), x.turn_id@);
        }
    } else {
        assert(t.drop_last() =~= turns.drop_last().update(i, x));
        lemma_turns_model_update(turns.drop_last(), i, x);
    }
}

proof fn lemma_turns_model_remove(turns: Seq<TurnActivity>, i: int)
    requires
        distinct_turns(turns),
        0 <= i < turns.len(),
    ensures
        distinct_turns(turns.remove(i)),
        turns_model(turns.remove(i)) =~= turns_model(turns).remove(turns[i].turn_id@),
    decreases turns.len(),
{
    let id = turns[i].turn_id@;
    let t = turns.remove(i);
    if i == turns.len() - 1 {
        assert(t =~= turns.drop_last());
        lemma_turns_model_absent(turns.drop_last(), id);
    } else {
        assert(t.drop_last() =~= turns.drop_last().remove(i));
        lemma_turns_model_remove(turns.drop_last(), i);
    }
}

impl Default for ActivityGate {
    /// A gate with no activity.
    fn default() -> (res: Self)
        ensures
            res.wf(),
            res.model() == Map::<Seq<char>, TurnActivityModel>::empty(),
    {
        ActivityGate::new()
    }
}

impl ActivityGate {
    /// Activity by turn id.
    pub closed spec fn model(&self) -> Map<Seq<char>, TurnActivityModel> {
        turns_model(self.turns@)
    }

    /// The activity of a turn, or a fresh one.
    pub open spec fn activity(&self, turn_id: Seq<char>) -> TurnActivityModel {
        if self.model().contains_key(turn_id) {
            self.model()[turn_id]
        } else {
            fresh_activity()
        }
    }

    /// Distinct turn ids.
    pub closed spec fn wf(&self) -> bool {
        distinct_turns(self.turns@)
    }

    /// Milliseconds elapsed on the monotonic clock since this activity
    /// record was created. Checkpoint intervals are measured on it, so a
    /// system clock that steps backwards does not stall them.
    pub fn clock_ms(&self) -> (res: i64)
        ensures
            res >= 0,
    {
        elapsed_ms(&self.origin)
    }

    /// A gate with no activity.
    pub fn new() -> (res: Self)
        ensures
            res.wf(),
            res.model() == Map::<Seq<char>, TurnActivityModel>::empty(),
    {
        ActivityGate { turns: Vec::new(), origin: instant_now() }
    }

    /// The index of a turn's activity, created fresh when absent.
    fn entry(&mut self, turn_id: &str) -> (res: usize)
        requires
            old(self).wf(),
        ensures
            final(self).wf(),
            res < final(self).turns@.len(),
            final(self).turns@[res as int].turn_id@ == turn_id@,
            final(self).turns@[res as int]@ == old(self).activity(turn_id@),
            final(self).model() == old(self).model().insert(turn_id@, old(self).activity(turn_id@)),
    {
        let mut i: usize = 0;
        while i < self.turns.len()
            invariant
                i <= self.turns@.len(),
                self.turns@ == old(self).turns@,
                distinct_turns(self.turns@),
                forall|k: int| 0 <= k < i ==> (#[trigger] self.turns@[k]).turn_id@ != turn_id@,
            decreases self.turns@.len() - i,
        {
            if str_eq(self.turns[i].turn_id.as_str(), turn_id) {
                proof {
                    lemma_turns_model_lookup(self.turns@, i as int);
                    assert(self.model() =~= self.model().insert(turn_id@, self.activity(turn_id@)));
                }
                return i;
            }
            i = i + 1;
        }
        proof {
            lemma_turns_model_absent(self.turns@, turn_id@);
        }
        let mut id = String::new();
        push_str(&mut id, turn_id);
        self.turns.push(
            TurnActivity {
                turn_id: id,
                last_persisted: None,
                stream_events: 0,
                suppressed_tool_events: 0,
                tool_lifecycle_events: 0,
                persisted_checkpoints: 0,
                latest_round_id: None,
                latest_attempt_id: None,
                latest_round_text: String::new(),
            },
        );
        proof {
            let n = self.turns@.len() - 1;
            assert(self.turns@.drop_last() =~= old(self).turns@);
            assert(self.turns@[n]@ =~= fresh_activity());
            assert(distinct_turns(self.turns@)) by {
                assert forall|a: int, b: int| 0 <= a < b < self.turns@.len() implies self.turns@[a].turn_id@
                    != self.turns@[b].turn_id@ by {
                    if b == n {
                        assert(old(self).turns@[a].turn_id@ != turn_id@);
                    } else {
                        assert(old(self).turns@[a] == self.turns@[a]);
                        assert(old(self).turns@[b] == self.turns@[b]);
                    }
                }
            }
        }
        self.turns.len() - 1
    }

    /// A model round started: a new round id clears the round's attempt and text.
    pub fn start_round(&mut self, turn_id: &str, round_id: &str)
        requires
            old(self).wf(),
        ensures
            final(self).wf(),
            final(self).model() == old(self).model().insert(
                turn_id@,
                after_round_start(old(self).activity(turn_id@), round_id@),
            ),
    {
        let i = self.entry(turn_id);
        let ghost mid = self.turns@;
        let a = &mut self.turns[i];
        let same = match &a.latest_round_id {
            Some(r) => str_eq(r.as_str(), round_id),
            None => false,
        };
        if !same {
            let mut r = String::new();
            push_str(&mut r, round_id);
            a.latest_round_id = Some(r);
            a.latest_attempt_id = None;
            a.latest_round_text = String::new();
        }
        proof {
            assert(self.turns@[i as int]@ == after_round_start(mid[i as int]@, round_id@));
            lemma_turns_model_update(mid, i as int, self.turns@[i as int]);
        }
    }

    /// Records a text chunk of a round (and attempt) of the turn.
    pub fn record_text(&mut self, turn_id: &str, round_id: &str, attempt_id: Option<&str>, text: &str)
        requires
            old(self).wf(),
        ensures
            final(self).wf(),
            final(self).model() == old(self).model().insert(
                turn_id@,
                after_text(old(self).activity(turn_id@), round_id@, opt_str_view(attempt_id), text@),
            ),
    {
        let i = self.entry(turn_id);
        let ghost mid = self.turns@;
        let ghost before = mid[i as int]@;
        let a = &mut self.turns[i];
        let round_changed = match &a.latest_round_id {
            Some(r) => !str_eq(r.as_str(), round_id),
            None => true,
        };
        let attempt_changed = !round_changed && match attempt_id {
            Some(incoming) => match &a.latest_attempt_id {
                Some(current) => !str_eq(current.as_str(), incoming),
                None => false,
            },
            None => false,
        };
        let attempt_copy = match attempt_id {
            Some(s) => {
                let mut c = String::new();
                push_str(&mut c, s);
                Some(c)
            },
            None => None,
        };
        if round_changed || attempt_changed {
            let mut r = String::new();
            push_str(&mut r, round_id);
            a.latest_round_id = Some(r);
            a.latest_attempt_id = attempt_copy;
            a.latest_round_text = String::new();
        } else if a.latest_attempt_id.is_none() {
            a.latest_attempt_id = attempt_copy;
        }
        append_bounded_text(&mut a.latest_round_text, text, MAX_FINAL_RESPONSE_CHARS);
        proof {
            assert(self.turns@[i as int]@ == after_text(before, round_id@, opt_str_view(attempt_id), text@));
            lemma_turns_model_update(mid, i as int, self.turns@[i as int]);
        }
    }

    /// Records a stream chunk at `now_ms`; returns whether a liveness
    /// checkpoint is due (forced, first, or the interval has elapsed).
    pub fn record_stream_at(&mut self, turn_id: &str, now_ms: i64, force: bool) -> (res: bool)
        requires
            old(self).wf(),
        ensures
            final(self).wf(),
            res == checkpoint_due(old(self).activity(turn_id@), now_ms, force),
            final(self).model() == old(self).model().insert(
                turn_id@,
                after_stream(old(self).activity(turn_id@), now_ms, force),
            ),
    {
        let i = self.entry(turn_id);
        let ghost mid = self.turns@;
        let a = &mut self.turns[i];
        a.stream_events = a.stream_events.saturating_add(1);
        let due = force || match a.last_persisted {
            None => true,
            Some(last) => interval_elapsed(now_ms, last),
        };
        if due {
            a.last_persisted = Some(now_ms);
            a.persisted_checkpoints = a.persisted_checkpoints.saturating_add(1);
        }
        proof {
            lemma_turns_model_update(mid, i as int, self.turns@[i as int]);
        }
        due
    }

    /// Records a stream chunk now.
    pub fn record_stream(&mut self, turn_id: &str, force: bool) -> (res: bool)
        requires
            old(self).wf(),
        ensures
            final(self).wf(),
            exists|now_ms: i64|
                {
                    &&& res == checkpoint_due(old(self).activity(turn_id@), now_ms, force)
                    &&& final(self).model() == old(self).model().insert(
                        turn_id@,
                        after_stream(old(self).activity(turn_id@), now_ms, force),
                    )
                },
    {
        let now = self.clock_ms();
        self.record_stream_at(turn_id, now, force)
    }

    /// Records a tool event that is not projected; returns whether a
    /// liveness checkpoint is due.
    pub fn record_suppressed_tool_event_at(&mut self, turn_id: &str, now_ms: i64) -> (res: bool)
        requires
            old(self).wf(),
        ensures
            final(self).wf(),
            res == checkpoint_due(old(self).activity(turn_id@), now_ms, false),
            final(self).model() == old(self).model().insert(
                turn_id@,
                after_suppressed_tool(old(self).activity(turn_id@), now_ms),
            ),
    {
        let i = self.entry(turn_id);
        let ghost mid = self.turns@;
        let a = &mut self.turns[i];
        a.suppressed_tool_events = a.suppressed_tool_events.saturating_add(1);
        let due = match a.last_persisted {
            None => true,
            Some(last) => interval_elapsed(now_ms, last),
        };
        if due {
            a.last_persisted = Some(now_ms);
            a.persisted_checkpoints = a.persisted_checkpoints.saturating_add(1);
        }
        proof {
            lemma_turns_model_update(mid, i as int, self.turns@[i as int]);
        }
        due
    }

    /// Records a suppressed tool event now.
    pub fn record_suppressed_tool_event(&mut self, turn_id: &str) -> (res: bool)
        requires
            old(self).wf(),
        ensures
            final(self).wf(),
            exists|now_ms: i64|
                {
                    &&& res == checkpoint_due(old(self).activity(turn_id@), now_ms, false)
                    &&& final(self).model() == old(self).model().insert(
                        turn_id@,
                        after_suppressed_tool(old(self).activity(turn_id@), now_ms),
                    )
                },
    {
        let now = self.clock_ms();
        self.record_suppressed_tool_event_at(turn_id, now)
    }

    /// Records a projected tool lifecycle event at `now_ms`: always a checkpoint.
    pub fn record_tool_lifecycle_at(&mut self, turn_id: &str, now_ms: i64)
        requires
            old(self).wf(),
        ensures
            final(self).wf(),
            final(self).model() == old(self).model().insert(
                turn_id@,
                after_tool_lifecycle(old(self).activity(turn_id@), now_ms),
            ),
    {
        let i = self.entry(turn_id);
        let ghost mid = self.turns@;
        let a = &mut self.turns[i];
        a.last_persisted = Some(now_ms);
        a.tool_lifecycle_events = a.tool_lifecycle_events.saturating_add(1);
        a.persisted_checkpoints = a.persisted_checkpoints.saturating_add(1);
        proof {
            lemma_turns_model_update(mid, i as int, self.turns@[i as int]);
        }
    }

    /// Records a projected tool lifecycle event now.
    pub fn record_tool_lifecycle(&mut self, turn_id: &str)
        requires
            old(self).wf(),
        ensures
            final(self).wf(),
            exists|now_ms: i64|
                final(self).model() == old(self).model().insert(
                    turn_id@,
                    after_tool_lifecycle(old(self).activity(turn_id@), now_ms),
                ),
    {
        let now = self.clock_ms();
        self.record_tool_lifecycle_at(turn_id, now)
    }

    /// Ends a turn: removes its activity and returns its summary.
    pub fn finish(&mut self, turn_id: &str) -> (res: Option<ActivitySummary>)
        requires
            old(self).wf(),
        ensures
            final(self).wf(),
            final(self).model() == old(self).model().remove(turn_id@),
            res is Some <==> old(self).model().contains_key(turn_id@),
            res matches Some(s) ==> summary_of(old(self).model()[turn_id@], s),
    {
        let mut i: usize = 0;
        while i < self.turns.len()
            invariant
                i <= self.turns@.len(),
                self.turns@ == old(self).turns@,
                distinct_turns(self.turns@),
                forall|k: int| 0 <= k < i ==> (#[trigger] self.turns@[k]).turn_id@ != turn_id@,
            decreases self.turns@.len() - i,
        {
            if str_eq(self.turns[i].turn_id.as_str(), turn_id) {
                proof {
                    lemma_turns_model_lookup(self.turns@, i as int);
                    lemma_turns_model_remove(self.turns@, i as int);
                }
                let a = self.turns.remove(i);
                let text = chars_of(a.latest_round_text.as_str());
                let trimmed = trim_chars(&text);
                let final_response = if trimmed.len() > 0 {
                    Some(string_from_chars(&trimmed))
                } else {
                    None
                };
                return Some(
                    ActivitySummary {
                        stream_events: a.stream_events,
                        suppressed_tool_events: a.suppressed_tool_events,
                        tool_lifecycle_events: a.tool_lifecycle_events,
                        persisted_checkpoints: a.persisted_checkpoints,
                        final_response,
                    },
                );
            }
            i = i + 1;
        }
        proof {
            lemma_turns_model_absent(self.turns@, turn_id@);
            assert(self.model() =~= self.model().remove(turn_id@));
        }
        None
    }
}

/// Stream chunks coalesce: once a checkpoint is taken at `t1`, an unforced
/// chunk at `t2` is due exactly when the interval has elapsed since `t1`.
pub proof fn lemma_stream_checkpoints_coalesce(a: TurnActivityModel, t1: i64, force: bool, t2: i64)
    requires
        checkpoint_due(a, t1, force),
    ensures
        checkpoint_due(after_stream(a, t1, force), t2, false) <==> t2 - t1
            >= ACTIVITY_PERSIST_INTERVAL_MS,
        checkpoint_due(after_stream(a, t1, force), t2, true),
{
}

/// A turn with no recorded activity (a finished turn's id used again) takes
/// its first checkpoint immediately.
pub proof fn lemma_fresh_turn_checkpoints_immediately(now_ms: i64, force: bool)
    ensures
        checkpoint_due(fresh_activity(), now_ms, force),
{
}

/// The final text of a round holds only text recorded in that round: after a
/// new round starts, the text is what that round recorded.
pub proof fn lemma_new_round_drops_earlier_text(
    a: TurnActivityModel,
    round_id: Seq<char>,
    attempt_id: Option<Seq<char>>,
    text: Seq<char>,
)
    requires
        a.latest_round_id != Some(round_id),
    ensures
        after_text(after_round_start(a, round_id), round_id, attempt_id, text).latest_round_text
            == tail_chars(text, MAX_FINAL_RESPONSE_CHARS as nat),
{
    assert(Seq::<char>::empty() + text =~= text);
}

/// A superseded attempt of a round leaks no text: the first chunk of a new
/// attempt starts the text afresh.
pub proof fn lemma_new_attempt_drops_partial_text(
    a: TurnActivityModel,
    round_id: Seq<char>,
    attempt_id: Seq<char>,
    text: Seq<char>,
)
    requires
        a.latest_round_id == Some(round_id),
        a.latest_attempt_id matches Some(current) && current != attempt_id,
    ensures
        after_text(a, round_id, Some(attempt_id), text).latest_round_text == tail_chars(
            text,
            MAX_FINAL_RESPONSE_CHARS as nat,
        ),
{
    assert(Seq::<char>::empty() + text =~= text);
}

// ---------------------------------------------------------------------------
// Turn failures.
// ---------------------------------------------------------------------------

/// The category of an AI failure.
#[derive(Debug, Clone, Copy, PartialEq, Eq, Structural)]
pub enum ErrorCategory {
    Network,
    Auth,
    RateLimit,
    Timeout,
    ProviderQuota,
    ProviderBilling,
    ProviderUnavailable,
    Permission,
    InvalidRequest,
    ModelError,
    /// Any other category.
    Other,
}

/// The structured detail of an AI failure, as far as the projection reads it.
#[derive(Debug, Clone, PartialEq, Eq)]
pub struct AiErrorDetail {
    pub category: ErrorCategory,
    pub provider_message: Option<String>,
}

/// The failure text shown for a failed turn: the provider's message when it
/// is not blank, else the error, cut to its first 1000 characters.
pub open spec fn spec_failure_summary(error: Seq<char>, detail: Option<AiErrorDetail>) -> Seq<char> {
    let chosen = match detail {
        Some(d) => match d.provider_message {
            Some(m) => if trim(m@).len() > 0 {
                m@
            } else {
                error
            },
            None => error,
        },
        None => error,
    };
    if chosen.len() > 1000 {
        chosen.take(1000)
    } else {
        chosen
    }
}

pub fn failure_summary(error: &str, detail: Option<&AiErrorDetail>) -> (res: String)
    ensures
        res@ == spec_failure_summary(
            error@,
            match detail {
                Some(d) => Some(*d),
                None => None,
            },
        ),
{
    let chosen: &str = match detail {
        Some(d) => match &d.provider_message {
            Some(m) => if crate::text::str_is_blank(m.as_str()) {
                error
            } else {
                m.as_str()
            },
            None => error,
        },
        None => error,
    };
    let chars = chars_of(chosen);
    let n = if chars.len() > 1000 {
        1000
    } else {
        chars.len()
    };
    let res = crate::text::string_from_range(&chars, 0, n);
    assert(chars@.subrange(0, n as int) =~= (if chars@.len() > 1000 {
        chars@.take(1000)
    } else {
        chars@
    }));
    res
}

/// Categories that block the repository: failures of the provider or the
/// request, which the next task of the repository would hit as well.
pub open spec fn is_blocking_category(c: ErrorCategory) -> bool {
    c != ErrorCategory::Other
}

pub fn failure_blocks_repository(category: Option<&ErrorCategory>, detail: Option<&AiErrorDetail>) -> (res:
    bool)
    ensures
        res == match category {
            Some(c) => is_blocking_category(*c),
            None => match detail {
                Some(d) => is_blocking_category(d.category),
                None => false,
            },
        },
{
    let chosen: Option<ErrorCategory> = match category {
        Some(c) => Some(*c),
        None => match detail {
            Some(d) => Some(d.category),
            None => None,
        },
    };
    match chosen {
        Some(
            ErrorCategory::Network
            | ErrorCategory::Auth
            | ErrorCategory::RateLimit
            | ErrorCategory::Timeout
            | ErrorCategory::ProviderQuota
            | ErrorCategory::ProviderBilling
            | ErrorCategory::ProviderUnavailable
            | ErrorCategory::Permission
            | ErrorCategory::InvalidRequest
            | ErrorCategory::ModelError,
        ) => true,
        _ => false,
    }
}

// ---------------------------------------------------------------------------
// Agent events.
// ---------------------------------------------------------------------------

/// The Agent events the LoopX projection reacts to.
#[derive(Debug)]
pub enum LoopxAgentEvent {
    TextChunk { turn_id: String, round_id: String, attempt_id: Option<String>, text: String },
    ThinkingChunk { turn_id: String },
    ModelRoundStarted { turn_id: String, round_id: String },
    /// A tool event; `projected` tells whether it maps to a task tool activity.
    ToolEvent { turn_id: String, projected: bool },
    DialogTurnCompleted { turn_id: String, success: Option<bool>, has_final_response: Option<bool> },
    DialogTurnFailed {
        turn_id: String,
        error: String,
        error_category: Option<ErrorCategory>,
        error_detail: Option<AiErrorDetail>,
    },
    DialogTurnCancelled { turn_id: String },
    DialogTurnInterrupted { turn_id: String },
    Other,
}

/// What the controller is asked to do for an Agent event.
#[derive(Debug, PartialEq, Eq)]
pub enum LoopxSubscriberAction {
    Nothing,
    /// Persist a liveness checkpoint of the turn.
    Activity { turn_id: String },
    /// Record the projected tool activity of the turn.
    ToolActivity { turn_id: String },
    /// Settle the turn.
    Terminal {
        turn_id: String,
        status: LoopxAgentTurnStatus,
        summary: Option<String>,
        blocks_repository: bool,
    },
}

/// The final response handed over when a turn completes: the finished
/// activity's response, unless the event says the turn has none.
pub open spec fn completed_summary(
    finished: Option<ActivitySummary>,
    has_final_response: Option<bool>,
) -> Option<String> {
    match finished {
        Some(s) => if has_final_response != Some(false) {
            s.final_response
        } else {
            None
        },
        None => None,
    }
}

/// Projects one Agent event at `now_ms`: updates the turn's activity and
/// says what the controller must do.
pub fn on_agent_event(gate: &mut ActivityGate, event: LoopxAgentEvent, now_ms: i64) -> (res:
    LoopxSubscriberAction)
    requires
        old(gate).wf(),
    ensures
        final(gate).wf(),
        match event {
            LoopxAgentEvent::TextChunk { turn_id, round_id, attempt_id, text } => {
                let a = after_text(
                    old(gate).activity(turn_id@),
                    round_id@,
                    opt_view(attempt_id),
                    text@,
                );
                let due = checkpoint_due(a, now_ms, false);
                &&& final(gate).model() == old(gate).model().insert(
                    turn_id@,
                    after_stream(a, now_ms, false),
                )
                &&& res == (if due {
                    LoopxSubscriberAction::Activity { turn_id }
                } else {
                    LoopxSubscriberAction::Nothing
                })
            },
            LoopxAgentEvent::ThinkingChunk { turn_id } => {
                let a = old(gate).activity(turn_id@);
                &&& final(gate).model() == old(gate).model().insert(
                    turn_id@,
                    after_stream(a, now_ms, false),
                )
                &&& res == (if checkpoint_due(a, now_ms, false) {
                    LoopxSubscriberAction::Activity { turn_id }
                } else {
                    LoopxSubscriberAction::Nothing
                })
            },
            LoopxAgentEvent::ModelRoundStarted { turn_id, round_id } => {
                let a = after_round_start(old(gate).activity(turn_id@), round_id@);
                &&& final(gate).model() == old(gate).model().insert(
                    turn_id@,
                    after_stream(a, now_ms, true),
                )
                &&& res == LoopxSubscriberAction::Activity { turn_id }
            },
            LoopxAgentEvent::ToolEvent { turn_id, projected } => {
                let a = old(gate).activity(turn_id@);
                if projected {
                    &&& final(gate).model() == old(gate).model().insert(
                        turn_id@,
                        after_tool_lifecycle(a, now_ms),
                    )
                    &&& res == LoopxSubscriberAction::ToolActivity { turn_id }
                } else {
                    &&& final(gate).model() == old(gate).model().insert(
                        turn_id@,
                        after_suppressed_tool(a, now_ms),
                    )
                    &&& res == (if checkpoint_due(a, now_ms, false) {
                        LoopxSubscriberAction::Activity { turn_id }
                    } else {
                        LoopxSubscriberAction::Nothing
                    })
                }
            },
            LoopxAgentEvent::DialogTurnCompleted { turn_id, success, has_final_response } => {
                &&& final(gate).model() == old(gate).model().remove(turn_id@)
                &&& res matches LoopxSubscriberAction::Terminal {
                    turn_id: t,
                    status,
                    summary,
                    blocks_repository,
                }
                &&& t == turn_id
                &&& status == (if success == Some(false) {
                    LoopxAgentTurnStatus::Failed
                } else {
                    LoopxAgentTurnStatus::Completed
                })
                &&& !blocks_repository
                &&& (summary is Some ==> old(gate).model().contains_key(turn_id@))
                &&& (old(gate).model().contains_key(turn_id@) ==> exists|s: ActivitySummary|
                    summary_of(old(gate).model()[turn_id@], s) && summary == completed_summary(
                        Some(s),
                        has_final_response,
                    ))
            },
            LoopxAgentEvent::DialogTurnFailed { turn_id, error, error_category, error_detail } => {
                &&& final(gate).model() == old(gate).model().remove(turn_id@)
                &&& res matches LoopxSubscriberAction::Terminal {
                    turn_id: t,
                    status,
                    summary,
                    blocks_repository,
                }
                &&& t == turn_id
                &&& status == LoopxAgentTurnStatus::Failed
                &&& summary matches Some(text) && text@ == spec_failure_summary(error@, error_detail)
                &&& blocks_repository == match error_category {
                    Some(c) => is_blocking_category(c),
                    None => match error_detail {
                        Some(d) => is_blocking_category(d.category),
                        None => false,
                    },
                }
            },
            LoopxAgentEvent::DialogTurnCancelled { turn_id } => {
                &&& final(gate).model() == old(gate).model().remove(turn_id@)
                &&& res == LoopxSubscriberAction::Terminal {
                    turn_id,
                    status: LoopxAgentTurnStatus::Cancelled,
                    summary: None,
                    blocks_repository: false,
                }
            },
            LoopxAgentEvent::DialogTurnInterrupted { turn_id } => {
                &&& final(gate).model() == old(gate).model().remove(turn_id@)
                &&& res == LoopxSubscriberAction::Terminal {
                    turn_id,
                    status: LoopxAgentTurnStatus::Interrupted,
                    summary: None,
                    blocks_repository: false,
                }
            },
            LoopxAgentEvent::Other => {
                &&& final(gate).model() == old(gate).model()
                &&& res == LoopxSubscriberAction::Nothing
            },
        },
{
    match event {
        LoopxAgentEvent::TextChunk { turn_id, round_id, attempt_id, text } => {
            let attempt = match &attempt_id {
                Some(a) => Some(a.as_str()),
                None => None,
            };
            gate.record_text(turn_id.as_str(), round_id.as_str(), attempt, text.as_str());
            if gate.record_stream_at(turn_id.as_str(), now_ms, false) {
                LoopxSubscriberAction::Activity { turn_id }
            } else {
                LoopxSubscriberAction::Nothing
            }
        },
        LoopxAgentEvent::ThinkingChunk { turn_id } => {
            if gate.record_stream_at(turn_id.as_str(), now_ms, false) {
                LoopxSubscriberAction::Activity { turn_id }
            } else {
                LoopxSubscriberAction::Nothing
            }
        },
        LoopxAgentEvent::ModelRoundStarted { turn_id, round_id } => {
            gate.start_round(turn_id.as_str(), round_id.as_str());
            let _ = gate.record_stream_at(turn_id.as_str(), now_ms, true);
            LoopxSubscriberAction::Activity { turn_id }
        },
        LoopxAgentEvent::ToolEvent { turn_id, projected } => {
            if projected {
                gate.record_tool_lifecycle_at(turn_id.as_str(), now_ms);
                LoopxSubscriberAction::ToolActivity { turn_id }
            } else if gate.record_suppressed_tool_event_at(turn_id.as_str(), now_ms) {
                LoopxSubscriberAction::Activity { turn_id }
            } else {
                LoopxSubscriberAction::Nothing
            }
        },
        LoopxAgentEvent::DialogTurnCompleted { turn_id, success, has_final_response } => {
            let finished = gate.finish(turn_id.as_str());
            let summary = match finished {
                Some(s) => {
                    let keep = match has_final_response {
                        Some(false) => false,
                        _ => true,
                    };
                    if keep {
                        s.final_response
                    } else {
                        None
                    }
                },
                None => None,
            };
            let status = match success {
                Some(false) => LoopxAgentTurnStatus::Failed,
                _ => LoopxAgentTurnStatus::Completed,
            };
            LoopxSubscriberAction::Terminal { turn_id, status, summary, blocks_repository: false }
        },
        LoopxAgentEvent::DialogTurnFailed { turn_id, error, error_category, error_detail } => {
            let _ = gate.finish(turn_id.as_str());
            let summary = failure_summary(error.as_str(), error_detail.as_ref());
            let blocks = failure_blocks_repository(error_category.as_ref(), error_detail.as_ref());
            LoopxSubscriberAction::Terminal {
                turn_id,
                status: LoopxAgentTurnStatus::Failed,
                summary: Some(summary),
                blocks_repository: blocks,
            }
        },
        LoopxAgentEvent::DialogTurnCancelled { turn_id } => {
            let _ = gate.finish(turn_id.as_str());
            LoopxSubscriberAction::Terminal {
                turn_id,
                status: LoopxAgentTurnStatus::Cancelled,
                summary: None,
                blocks_repository: false,
            }
        },
        LoopxAgentEvent::DialogTurnInterrupted { turn_id } => {
            let _ = gate.finish(turn_id.as_str());
            LoopxSubscriberAction::Terminal {
                turn_id,
                status: LoopxAgentTurnStatus::Interrupted,
                summary: None,
                blocks_repository: false,
            }
        },
        LoopxAgentEvent::Other => LoopxSubscriberAction::Nothing,
    }
}

/// `std::time::Instant`, a reading of the monotonic clock.
#[verifier::external_type_specification]
#[verifier::external_body]
pub struct ExInstant(std::time::Instant);

/// The current instant of the monotonic clock (`Instant::now`); nothing is
/// claimed of the value.
#[verifier::external_body]
fn instant_now() -> std::time::Instant {
    std::time::Instant::now()
}

/// Milliseconds elapsed since `origin` on the monotonic clock
/// (`Instant::elapsed`), saturated to `i64`; the contract claims only that
/// the value is not negative.
#[verifier::external_body]
fn elapsed_ms(origin: &std::time::Instant) -> (res: i64)
    ensures
        res >= 0,
{
    i64::try_from(origin.elapsed().as_millis()).unwrap_or(i64::MAX)
}

/// The current time in milliseconds since the Unix epoch, read from the
/// system clock; nothing is claimed of the value.
#[verifier::external_body]
pub fn now_ms() -> (res: i64) {
    std::time::SystemTime::now()
        .duration_since(std::time::UNIX_EPOCH)
        .map(|duration| duration.as_millis() as i64)
        .unwrap_or_default()
}

} // verus!
