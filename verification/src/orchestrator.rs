//! The tick loop's state machine: what one tick computes, persists and
//! reports, given what the external service returned for it.
//!
//! The surrounding loop performs the two external calls, hands their
//! outcomes in as a [`TickEvent`], carries out the requested writes and
//! prints the returned line; every decision in between — when a composite
//! score is computed, which snapshots are replaced, which line is emitted —
//! is made and stated here. Each call's failure is independent: a weights
//! failure does not prevent persisting a split obtained in the same tick,
//! and no failure ever touches the snapshot of the other kind, or any
//! previously persisted snapshot.

use vstd::prelude::*;
use crate::scoring::{Scores, Weights, composite, dot};
use crate::snapshot::{ScoreSnapshot, SplitSnapshot, Telemetry, VaultSplit};
use crate::render::{dec_of, micro_of, pad3_of, pico_of, push_char, push_micro, push_pad3, push_pico, push_uint};
use crate::clock::current_timestamp;

verus! {

/// What one tick obtained from the external service: the weight vector if
/// the weights call succeeded, the treasury split if the split call
/// succeeded.
#[derive(Clone, Copy)]
pub struct TickEvent {
    pub weights: Option<Weights>,
    pub split: Option<VaultSplit>,
}

/// The durable per-node state as the tick loop sees it: the latest
/// successfully persisted snapshot of each kind, if any tick has produced
/// one yet.
pub struct NodeState {
    pub score_snapshot: Option<ScoreSnapshot>,
    pub split_snapshot: Option<SplitSnapshot>,
}

impl NodeState {
    /// The state of a freshly started node: no snapshot of either kind.
    pub fn new() -> (r: NodeState)
        ensures
            r.score_snapshot is None,
            r.split_snapshot is None,
    {
        NodeState { score_snapshot: None, split_snapshot: None }
    }
}

/// What one tick asks its surroundings to do: the snapshot of each kind to
/// write, if that kind was obtained this tick, and the progress line to
/// emit. `degraded` marks the line as the degraded-mode notice.
pub struct TickOutput {
    pub timestamp: String,
    pub score_write: Option<ScoreSnapshot>,
    pub split_write: Option<SplitSnapshot>,
    pub log_line: String,
    pub degraded: bool,
}

/// The durable state after one tick's requested writes are carried out: each
/// kind is replaced when the tick obtained it and kept as it was when the
/// tick did not.
pub open spec fn applied(state: NodeState, out: TickOutput) -> NodeState {
    NodeState {
        score_snapshot: if out.score_write is Some {
            out.score_write
        } else {
            state.score_snapshot
        },
        split_snapshot: if out.split_write is Some {
            out.split_write
        } else {
            state.split_snapshot
        },
    }
}

/// The opening of every per-tick line: timestamp, node identity and the
/// tick number padded to three digits.
pub open spec fn line_prefix_text(ts: Seq<char>, id: char, tick: nat) -> Seq<char> {
    "["@ + ts + "] ["@ + seq![id] + "] tick "@ + pad3_of(tick) + "  "@
}

/// The degraded-mode notice emitted when either external call of a tick
/// failed: the node continues with the last known values.
pub open spec fn degraded_line_text(ts: Seq<char>, id: char, tick: nat) -> Seq<char> {
    line_prefix_text(ts, id, tick) + "AIFA request failed - continuing with last known values"@
}

/// The weight list of a progress line.
pub open spec fn weights_list_text(w: Weights) -> Seq<char> {
    "weights=("@ + micro_of(w.w0 as int)
        + ","@ + micro_of(w.w1 as int)
        + ","@ + micro_of(w.w2 as int)
        + ","@ + micro_of(w.w3 as int)
        + ","@ + micro_of(w.w4 as int)
        + ")"@
}

/// The progress line of a fully successful tick: the weights obtained, the
/// composite score computed from them, and the treasury split obtained.
pub open spec fn progress_line_text(
    ts: Seq<char>,
    id: char,
    tick: nat,
    w: Weights,
    score: int,
    sp: VaultSplit,
) -> Seq<char> {
    line_prefix_text(ts, id, tick) + weights_list_text(w)
        + " dyn="@ + pico_of(score)
        + " split=("@ + dec_of(sp.innovation as nat)
        + "/"@ + dec_of(sp.governance as nat)
        + ")"@
}

/// Appends the opening of a per-tick line.
fn push_line_prefix(s: &mut String, ts: &str, id: char, tick: u32)
    ensures
        final(s)@ == old(s)@ + line_prefix_text(ts@, id, tick as nat),
{
    s.append("[");
    s.append(ts);
    s.append("] [");
    push_char(s, id);
    s.append("] tick ");
    push_pad3(s, tick);
    s.append("  ");
    proof {
        assert(s@ =~= old(s)@ + line_prefix_text(ts@, id, tick as nat));
    }
}

/// Appends the weight list of a progress line.
#[verifier::rlimit(60)]
fn push_weights_list(s: &mut String, w: &Weights)
    requires
        w.bounded(),
    ensures
        final(s)@ == old(s)@ + weights_list_text(*w),
{
    s.append("weights=(");
    push_micro(s, w.w0);
    s.append(",");
    push_micro(s, w.w1);
    s.append(",");
    push_micro(s, w.w2);
    let ghost mid = s@;
    proof {
        assert(mid =~= old(s)@ + "weights=("@ + micro_of(w.w0 as int) + ","@
            + micro_of(w.w1 as int) + ","@ + micro_of(w.w2 as int));
    }
    s.append(",");
    push_micro(s, w.w3);
    s.append(",");
    push_micro(s, w.w4);
    s.append(")");
    proof {
        assert(s@ =~= mid + ","@ + micro_of(w.w3 as int) + ","@ + micro_of(w.w4 as int)
            + ")"@);
        assert(s@ =~= old(s)@ + weights_list_text(*w));
    }
}

/// Renders the degraded-mode notice of a tick.
fn render_degraded_line(ts: &str, id: char, tick: u32) -> (r: String)
    ensures
        r@ == degraded_line_text(ts@, id, tick as nat),
{
    let mut s = String::new();
    push_line_prefix(&mut s, ts, id, tick);
    s.append("AIFA request failed - continuing with last known values");
    proof {
        assert(s@ =~= degraded_line_text(ts@, id, tick as nat));
    }
    s
}

/// Renders the progress line of a fully successful tick.
#[verifier::rlimit(60)]
fn render_progress_line(ts: &str, id: char, tick: u32, w: &Weights, score: i128, sp: &VaultSplit)
    -> (r: String)
    requires
        w.bounded(),
        score > i128::MIN,
    ensures
        r@ == progress_line_text(ts@, id, tick as nat, *w, score as int, *sp),
{
    let mut s = String::new();
    push_line_prefix(&mut s, ts, id, tick);
    push_weights_list(&mut s, w);
    s.append(" dyn=");
    push_pico(&mut s, score);
    let ghost mid = s@;
    proof {
        assert(mid =~= line_prefix_text(ts@, id, tick as nat) + weights_list_text(*w)
            + " dyn="@ + pico_of(score as int));
    }
    s.append(" split=(");
    push_uint(&mut s, sp.innovation as u128);
    s.append("/");
    push_uint(&mut s, sp.governance as u128);
    s.append(")");
    proof {
        assert(s@ =~= mid + " split=("@ + dec_of(sp.innovation as nat) + "/"@
            + dec_of(sp.governance as nat) + ")"@);
        assert(s@ =~= progress_line_text(ts@, id, tick as nat, *w, score as int, *sp));
    }
    s
}

/// One tick of the scoring loop, against a given timestamp.
///
/// When the weights call succeeded, the composite score is computed and a
/// scoring snapshot carrying this tick's timestamp replaces the persisted
/// one; when the split call succeeded, a split snapshot carrying the same
/// timestamp replaces its kind likewise. A failed call leaves the persisted
/// snapshot of its kind exactly as it was, and never touches the other
/// kind. A tick in which both calls succeeded requests exactly two writes
/// and reports the obtained values; any other tick reports the
/// degraded-mode notice.
pub fn apply_tick(
    state: &mut NodeState,
    id: char,
    tick: u32,
    mode: &str,
    telemetry: &Telemetry,
    scores: &Scores,
    ev: TickEvent,
    timestamp: String,
) -> (out: TickOutput)
    requires
        scores.bounded(),
        telemetry.bounded(),
        ev.weights matches Some(w) ==> w.bounded(),
    ensures
        out.timestamp@ == timestamp@,
        *final(state) == applied(*old(state), out),
        ev.weights matches Some(w) ==> (out.score_write matches Some(sn)
            && sn.timestamp@ == timestamp@
            && sn.node == id
            && sn.telemetry == *telemetry
            && sn.weights == w
            && sn.score as int == dot(*scores, w)),
        ev.weights is None ==> out.score_write is None
            && final(state).score_snapshot == old(state).score_snapshot,
        ev.split matches Some(sp) ==> (out.split_write matches Some(sn)
            && sn.timestamp@ == timestamp@
            && sn.node == id
            && sn.mode@ == mode@
            && sn.split == sp),
        ev.split is None ==> out.split_write is None
            && final(state).split_snapshot == old(state).split_snapshot,
        out.degraded == !(ev.weights is Some && ev.split is Some),
        out.degraded ==> out.log_line@ == degraded_line_text(timestamp@, id, tick as nat),
        ev.weights matches Some(w) ==> ev.split matches Some(sp) ==> out.log_line@
            == progress_line_text(timestamp@, id, tick as nat, w, dot(*scores, w), sp),
{
    let score_write: Option<ScoreSnapshot> = match ev.weights {
        Some(w) => {
            let score = composite(scores, &w);
            Some(
                ScoreSnapshot {
                    timestamp: timestamp.clone(),
                    node: id,
                    telemetry: *telemetry,
                    weights: w,
                    score,
                },
            )
        },
        None => None,
    };
    let split_write: Option<SplitSnapshot> = match ev.split {
        Some(sp) => Some(
            SplitSnapshot {
                timestamp: timestamp.clone(),
                node: id,
                mode: String::from_str(mode),
                split: sp,
            },
        ),
        None => None,
    };
    let log_line: String = match (&score_write, &split_write) {
        (Some(ssn), Some(spn)) => render_progress_line(
            timestamp.as_str(),
            id,
            tick,
            &ssn.weights,
            ssn.score,
            &spn.split,
        ),
        _ => render_degraded_line(timestamp.as_str(), id, tick),
    };
    let degraded = !(score_write.is_some() && split_write.is_some());
    if let Some(sn) = &score_write {
        state.score_snapshot = Some(sn.clone());
    }
    if let Some(sn) = &split_write {
        state.split_snapshot = Some(sn.clone());
    }
    TickOutput { timestamp, score_write, split_write, log_line, degraded }
}

/// One tick of the scoring loop, stamped with the moment it runs.
///
/// Reads the clock for the tick's timestamp and applies the tick: both
/// snapshots a fully successful tick writes carry that one timestamp, a
/// failed call leaves its kind's persisted snapshot untouched, and the
/// returned line reports the obtained values or the degraded-mode notice.
pub fn run_tick_now(
    state: &mut NodeState,
    id: char,
    tick: u32,
    mode: &str,
    telemetry: &Telemetry,
    scores: &Scores,
    ev: TickEvent,
) -> (out: TickOutput)
    requires
        scores.bounded(),
        telemetry.bounded(),
        ev.weights matches Some(w) ==> w.bounded(),
    ensures
        *final(state) == applied(*old(state), out),
        ev.weights matches Some(w) ==> (out.score_write matches Some(sn)
            && sn.timestamp@ == out.timestamp@
            && sn.node == id
            && sn.telemetry == *telemetry
            && sn.weights == w
            && sn.score as int == dot(*scores, w)),
        ev.weights is None ==> out.score_write is None
            && final(state).score_snapshot == old(state).score_snapshot,
        ev.split matches Some(sp) ==> (out.split_write matches Some(sn)
            && sn.timestamp@ == out.timestamp@
            && sn.node == id
            && sn.mode@ == mode@
            && sn.split == sp),
        ev.split is None ==> out.split_write is None
            && final(state).split_snapshot == old(state).split_snapshot,
        out.degraded == !(ev.weights is Some && ev.split is Some),
        out.degraded ==> out.log_line@ == degraded_line_text(out.timestamp@, id, tick as nat),
        ev.weights matches Some(w) ==> ev.split matches Some(sp) ==> out.log_line@
            == progress_line_text(out.timestamp@, id, tick as nat, w, dot(*scores, w), sp),
{
    let ts = current_timestamp();
    apply_tick(state, id, tick, mode, telemetry, scores, ev, ts)
}

/// The completion line emitted when a bounded run ends normally.
pub open spec fn completion_line_text(id: char, ticks: nat) -> Seq<char> {
    "Node "@ + seq![id] + " exiting after "@ + dec_of(ticks) + " ticks."@
}

/// Renders the completion line of a bounded run.
pub fn render_completion_line(id: char, ticks: u32) -> (r: String)
    ensures
        r@ == completion_line_text(id, ticks as nat),
{
    let mut s = String::new();
    s.append("Node ");
    push_char(&mut s, id);
    s.append(" exiting after ");
    push_uint(&mut s, ticks as u128);
    s.append(" ticks.");
    proof {
        assert(s@ =~= completion_line_text(id, ticks as nat));
    }
    s
}

/// The durable state after a whole run: each tick's requested writes
/// carried out in order.
pub open spec fn run_applied(state: NodeState, outs: Seq<TickOutput>) -> NodeState
    decreases outs.len(),
{
    if outs.len() == 0 {
        state
    } else {
        run_applied(applied(state, outs.first()), outs.drop_first())
    }
}

/// A run of any length in which no tick obtained anything — an
/// always-failing external service — writes no snapshot of either kind and
/// leaves every previously persisted snapshot exactly as it was; each of its
/// ticks reported the degraded-mode notice on the way (an ensures of
/// [`apply_tick`]).
pub proof fn lemma_failing_run_writes_nothing(state: NodeState, outs: Seq<TickOutput>)
    requires
        forall|i: int| 0 <= i < outs.len() ==> (#[trigger] outs[i]).score_write is None
            && outs[i].split_write is None,
    ensures
        run_applied(state, outs) == state,
    decreases outs.len(),
{
    if outs.len() > 0 {
        assert(applied(state, outs.first()) == state);
        assert(forall|i: int| 0 <= i < outs.drop_first().len()
            ==> (#[trigger] outs.drop_first()[i]) == outs[i + 1]);
        lemma_failing_run_writes_nothing(state, outs.drop_first());
    }
}

} // verus!
