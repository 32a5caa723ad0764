//! Per-tick records and their durable form: the telemetry submitted to the
//! external service, the treasury split it returns, the two snapshot kinds a
//! node persists, the exact text each snapshot serializes to, and the
//! per-node file each kind lives in.
//!
//! A snapshot file always holds the latest successfully obtained record of
//! its kind; each write fully replaces the prior content. The writing itself
//! is done outside the library; what is written, and to which file, is
//! stated here exactly.

use vstd::prelude::*;
use crate::scoring::Weights;
use crate::render::{dec_of, micro_of, pico_of, push_char, push_micro, push_pico, push_uint};

verus! {

/// The four real-valued inputs describing current conditions, in
/// micro-units: constructed fresh each tick, submitted to the external
/// weighting service, never mutated.
#[derive(Clone, Copy, Debug, PartialEq, Eq, Structural)]
pub struct Telemetry {
    pub volatility: i64,
    pub congestion: i64,
    pub uptime_variance: i64,
    pub treasury_health: i64,
}

impl Telemetry {
    /// Every field within the magnitude bound shared with scores and
    /// weights.
    pub open spec fn bounded(self) -> bool {
        &&& -crate::scoring::FIELD_BOUND <= self.volatility <= crate::scoring::FIELD_BOUND
        &&& -crate::scoring::FIELD_BOUND <= self.congestion <= crate::scoring::FIELD_BOUND
        &&& -crate::scoring::FIELD_BOUND <= self.uptime_variance <= crate::scoring::FIELD_BOUND
        &&& -crate::scoring::FIELD_BOUND <= self.treasury_health <= crate::scoring::FIELD_BOUND
    }
}

/// Decides whether a telemetry record is within the magnitude bound;
/// callers establish the tick's precondition with it.
pub fn telemetry_in_bounds(t: &Telemetry) -> (b: bool)
    ensures
        b == t.bounded(),
{
    -crate::scoring::FIELD_BOUND <= t.volatility && t.volatility <= crate::scoring::FIELD_BOUND
        && -crate::scoring::FIELD_BOUND <= t.congestion && t.congestion <= crate::scoring::FIELD_BOUND
        && -crate::scoring::FIELD_BOUND <= t.uptime_variance && t.uptime_variance <= crate::scoring::FIELD_BOUND
        && -crate::scoring::FIELD_BOUND <= t.treasury_health && t.treasury_health <= crate::scoring::FIELD_BOUND
}

/// The two non-negative integer percentages the external service recommends
/// for a market mode. Nothing forces them to sum to one hundred: whatever is
/// received is persisted.
#[derive(Clone, Copy, Debug, PartialEq, Eq, Structural)]
pub struct VaultSplit {
    pub innovation: u32,
    pub governance: u32,
}

/// A timestamped record of the most recent successfully obtained weight
/// vector, the telemetry that earned it, and the composite score computed
/// from it, for one node.
pub struct ScoreSnapshot {
    pub timestamp: String,
    pub node: char,
    pub telemetry: Telemetry,
    pub weights: Weights,
    pub score: i128,
}

/// A timestamped record of the most recent successfully obtained treasury
/// split for one node and market mode.
pub struct SplitSnapshot {
    pub timestamp: String,
    pub node: char,
    pub mode: String,
    pub split: VaultSplit,
}

impl Clone for ScoreSnapshot {
    fn clone(&self) -> (r: Self)
        ensures
            r == *self,
    {
        ScoreSnapshot {
            timestamp: self.timestamp.clone(),
            node: self.node,
            telemetry: self.telemetry,
            weights: self.weights,
            score: self.score,
        }
    }
}

impl Clone for SplitSnapshot {
    fn clone(&self) -> (r: Self)
        ensures
            r == *self,
    {
        SplitSnapshot {
            timestamp: self.timestamp.clone(),
            node: self.node,
            mode: self.mode.clone(),
            split: self.split,
        }
    }
}

/// The object text of a telemetry record, each field a micro-unit decimal.
pub open spec fn telemetry_text(t: Telemetry) -> Seq<char> {
    "{\"volatility\":"@ + micro_of(t.volatility as int)
        + ",\"congestion\":"@ + micro_of(t.congestion as int)
        + ",\"uptime_variance\":"@ + micro_of(t.uptime_variance as int)
        + ",\"treasury_health\":"@ + micro_of(t.treasury_health as int)
        + "}"@
}

/// The object text of a weight vector, each coefficient a micro-unit
/// decimal.
pub open spec fn weights_text(w: Weights) -> Seq<char> {
    "{\"w0\":"@ + micro_of(w.w0 as int)
        + ",\"w1\":"@ + micro_of(w.w1 as int)
        + ",\"w2\":"@ + micro_of(w.w2 as int)
        + ",\"w3\":"@ + micro_of(w.w3 as int)
        + ",\"w4\":"@ + micro_of(w.w4 as int)
        + "}"@
}

/// The full serialized text of a scoring snapshot.
pub open spec fn score_snapshot_text(s: ScoreSnapshot) -> Seq<char> {
    "{\"timestamp\":\""@ + s.timestamp@
        + "\",\"node\":\""@ + seq![s.node]
        + "\",\"telemetry\":"@ + telemetry_text(s.telemetry)
        + ",\"weights\":"@ + weights_text(s.weights)
        + ",\"score\":"@ + pico_of(s.score as int)
        + "}"@
}

/// The full serialized text of a treasury-split snapshot.
pub open spec fn split_snapshot_text(s: SplitSnapshot) -> Seq<char> {
    "{\"timestamp\":\""@ + s.timestamp@
        + "\",\"node\":\""@ + seq![s.node]
        + "\",\"mode\":\""@ + s.mode@
        + "\",\"split\":{\"innovation\":"@ + dec_of(s.split.innovation as nat)
        + ",\"governance\":"@ + dec_of(s.split.governance as nat)
        + "}}"@
}

/// Appends the object text of a telemetry record.
fn push_telemetry(s: &mut String, t: &Telemetry)
    requires
        t.bounded(),
    ensures
        final(s)@ == old(s)@ + telemetry_text(*t),
{
    s.append("{\"volatility\":");
    push_micro(s, t.volatility);
    s.append(",\"congestion\":");
    push_micro(s, t.congestion);
    s.append(",\"uptime_variance\":");
    push_micro(s, t.uptime_variance);
    s.append(",\"treasury_health\":");
    push_micro(s, t.treasury_health);
    s.append("}");
    proof {
        assert(s@ =~= old(s)@ + telemetry_text(*t));
    }
}

/// Appends the object text of a weight vector.
#[verifier::rlimit(60)]
fn push_weights(s: &mut String, w: &Weights)
    requires
        w.bounded(),
    ensures
        final(s)@ == old(s)@ + weights_text(*w),
{
    s.append("{\"w0\":");
    push_micro(s, w.w0);
    s.append(",\"w1\":");
    push_micro(s, w.w1);
    s.append(",\"w2\":");
    push_micro(s, w.w2);
    let ghost mid = s@;
    proof {
        assert(mid =~= old(s)@ + "{\"w0\":"@ + micro_of(w.w0 as int) + ",\"w1\":"@
            + micro_of(w.w1 as int) + ",\"w2\":"@ + micro_of(w.w2 as int));
    }
    s.append(",\"w3\":");
    push_micro(s, w.w3);
    s.append(",\"w4\":");
    push_micro(s, w.w4);
    s.append("}");
    proof {
        assert(s@ =~= mid + ",\"w3\":"@ + micro_of(w.w3 as int) + ",\"w4\":"@
            + micro_of(w.w4 as int) + "}"@);
        assert(s@ =~= old(s)@ + weights_text(*w));
    }
}

impl ScoreSnapshot {
    /// The record's numeric fields are within the bounds under which it was
    /// computed, so it has a rendering.
    pub open spec fn wf(self) -> bool {
        &&& self.telemetry.bounded()
        &&& self.weights.bounded()
        &&& self.score > i128::MIN
    }

    /// Serializes the snapshot to the exact human-readable text that
    /// replaces the prior content of its file.
    pub fn render(&self) -> (r: String)
        requires
            self.wf(),
        ensures
            r@ == score_snapshot_text(*self),
    {
        let mut s = String::new();
        s.append("{\"timestamp\":\"");
        s.append(self.timestamp.as_str());
        s.append("\",\"node\":\"");
        push_char(&mut s, self.node);
        s.append("\",\"telemetry\":");
        let ghost mid = s@;
        proof {
            assert(mid =~= "{\"timestamp\":\""@ + self.timestamp@ + "\",\"node\":\""@
                + seq![self.node] + "\",\"telemetry\":"@);
        }
        push_telemetry(&mut s, &self.telemetry);
        s.append(",\"weights\":");
        push_weights(&mut s, &self.weights);
        s.append(",\"score\":");
        push_pico(&mut s, self.score);
        s.append("}");
        proof {
            assert(s@ =~= score_snapshot_text(*self));
        }
        s
    }
}

impl SplitSnapshot {
    /// Serializes the snapshot to the exact human-readable text that
    /// replaces the prior content of its file.
    pub fn render(&self) -> (r: String)
        ensures
            r@ == split_snapshot_text(*self),
    {
        let mut s = String::new();
        s.append("{\"timestamp\":\"");
        s.append(self.timestamp.as_str());
        s.append("\",\"node\":\"");
        push_char(&mut s, self.node);
        s.append("\",\"mode\":\"");
        s.append(self.mode.as_str());
        s.append("\",\"split\":{\"innovation\":");
        let ghost mid = s@;
        proof {
            assert(mid =~= "{\"timestamp\":\""@ + self.timestamp@ + "\",\"node\":\""@
                + seq![self.node] + "\",\"mode\":\""@ + self.mode@
                + "\",\"split\":{\"innovation\":"@);
        }
        push_uint(&mut s, self.split.innovation as u128);
        s.append(",\"governance\":");
        push_uint(&mut s, self.split.governance as u128);
        s.append("}}");
        proof {
            assert(s@ =~= split_snapshot_text(*self));
        }
        s
    }
}

/// The per-node state directory: `state/nodes/<id>/`.
pub open spec fn state_dir_text(id: char) -> Seq<char> {
    "state/nodes/"@ + seq![id] + "/"@
}

/// The file holding the latest scoring snapshot of a node.
pub open spec fn score_snapshot_path_text(id: char) -> Seq<char> {
    state_dir_text(id) + "aifa_latest.json"@
}

/// The file holding the latest treasury-split snapshot of a node.
pub open spec fn split_snapshot_path_text(id: char) -> Seq<char> {
    state_dir_text(id) + "ctp_latest.json"@
}

/// The append-only inbox log file of a node.
pub open spec fn inbox_path_text(id: char) -> Seq<char> {
    state_dir_text(id) + "p2p_inbox.log"@
}

/// Renders the per-node state directory path.
pub fn render_state_dir(id: char) -> (r: String)
    ensures
        r@ == state_dir_text(id),
{
    let mut s = String::new();
    s.append("state/nodes/");
    push_char(&mut s, id);
    s.append("/");
    proof {
        assert(s@ =~= state_dir_text(id));
    }
    s
}

/// Renders the path of the scoring-snapshot file of a node.
pub fn render_score_snapshot_path(id: char) -> (r: String)
    ensures
        r@ == score_snapshot_path_text(id),
{
    let mut s = render_state_dir(id);
    s.append("aifa_latest.json");
    s
}

/// Renders the path of the treasury-split snapshot file of a node.
pub fn render_split_snapshot_path(id: char) -> (r: String)
    ensures
        r@ == split_snapshot_path_text(id),
{
    let mut s = render_state_dir(id);
    s.append("ctp_latest.json");
    s
}

/// Renders the path of the inbox log file of a node.
pub fn render_inbox_path(id: char) -> (r: String)
    ensures
        r@ == inbox_path_text(id),
{
    let mut s = render_state_dir(id);
    s.append("p2p_inbox.log");
    s
}

/// The three files of one node are pairwise distinct, so the heartbeat loop
/// and the tick loop write to disjoint files and need no lock between them.
pub proof fn lemma_node_files_disjoint(id: char)
    ensures
        score_snapshot_path_text(id) != split_snapshot_path_text(id),
        score_snapshot_path_text(id) != inbox_path_text(id),
        split_snapshot_path_text(id) != inbox_path_text(id),
{
    reveal_strlit("aifa_latest.json");
    reveal_strlit("ctp_latest.json");
    reveal_strlit("p2p_inbox.log");
    assert(score_snapshot_path_text(id).len() != split_snapshot_path_text(id).len());
    assert(score_snapshot_path_text(id).len() != inbox_path_text(id).len());
    assert(split_snapshot_path_text(id).len() != inbox_path_text(id).len());
}

} // verus!
