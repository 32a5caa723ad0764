use thinkos_node::client::classify_response;
use thinkos_node::orchestrator::{apply_tick, render_completion_line, run_tick_now, NodeState, TickEvent};
use thinkos_node::scoring::{Scores, Weights};
use thinkos_node::snapshot::{Telemetry, VaultSplit};

fn fixed_scores() -> Scores {
    Scores {
        continuity: 900_000,
        cognition: 800_000,
        synergy: 700_000,
        adaptation: 600_000,
        integrity: 850_000,
    }
}

fn fixed_telemetry() -> Telemetry {
    Telemetry {
        volatility: 230_000,
        congestion: 180_000,
        uptime_variance: 30_000,
        treasury_health: 880_000,
    }
}

fn reference_weights() -> Weights {
    Weights { w0: 250_000, w1: 300_000, w2: 200_000, w3: 150_000, w4: 100_000 }
}

#[test]
fn successful_tick_writes_both_snapshots_with_its_timestamp() {
    let mut state = NodeState::new();
    let ev = TickEvent {
        weights: Some(reference_weights()),
        split: Some(VaultSplit { innovation: 60, governance: 40 }),
    };
    let out = apply_tick(
        &mut state,
        'A',
        1,
        "neutral",
        &fixed_telemetry(),
        &fixed_scores(),
        ev,
        String::from("2026-01-02T03:04:05+00:00"),
    );
    assert!(!out.degraded);
    let score_write = out.score_write.expect("weights succeeded, so a scoring write is owed");
    let split_write = out.split_write.expect("split succeeded, so a split write is owed");
    assert_eq!(score_write.timestamp, "2026-01-02T03:04:05+00:00");
    assert_eq!(split_write.timestamp, "2026-01-02T03:04:05+00:00");
    assert_eq!(score_write.node, 'A');
    assert_eq!(split_write.mode, "neutral");
    // 0.25*0.9 + 0.30*0.8 + 0.20*0.7 + 0.15*0.6 + 0.10*0.85 = 0.78
    assert_eq!(score_write.score, 780_000_000_000);
    assert!(state.score_snapshot.is_some());
    assert!(state.split_snapshot.is_some());
}

#[test]
fn successful_tick_reports_the_obtained_values() {
    let mut state = NodeState::new();
    let ev = TickEvent {
        weights: Some(reference_weights()),
        split: Some(VaultSplit { innovation: 60, governance: 40 }),
    };
    let out = apply_tick(
        &mut state,
        'B',
        7,
        "neutral",
        &fixed_telemetry(),
        &fixed_scores(),
        ev,
        String::from("T"),
    );
    assert_eq!(
        out.log_line,
        "[T] [B] tick 007  weights=(0.250000,0.300000,0.200000,0.150000,0.100000) \
         dyn=0.780000000000 split=(60/40)"
    );
}

#[test]
fn failed_tick_leaves_persisted_snapshots_untouched() {
    let mut state = NodeState::new();
    let good = TickEvent {
        weights: Some(reference_weights()),
        split: Some(VaultSplit { innovation: 55, governance: 45 }),
    };
    apply_tick(&mut state, 'A', 1, "neutral", &fixed_telemetry(), &fixed_scores(), good,
        String::from("T1"));
    let before_score = state.score_snapshot.clone().unwrap().render();
    let before_split = state.split_snapshot.clone().unwrap().render();

    let failing = TickEvent { weights: None, split: None };
    let out = apply_tick(&mut state, 'A', 2, "neutral", &fixed_telemetry(), &fixed_scores(),
        failing, String::from("T2"));
    assert!(out.degraded);
    assert!(out.score_write.is_none());
    assert!(out.split_write.is_none());
    assert_eq!(state.score_snapshot.clone().unwrap().render(), before_score);
    assert_eq!(state.split_snapshot.clone().unwrap().render(), before_split);
}

#[test]
fn each_call_fails_independently() {
    let mut state = NodeState::new();
    let only_split = TickEvent {
        weights: None,
        split: Some(VaultSplit { innovation: 70, governance: 30 }),
    };
    let out = apply_tick(&mut state, 'C', 3, "bull", &fixed_telemetry(), &fixed_scores(),
        only_split, String::from("T"));
    assert!(out.degraded);
    assert!(out.score_write.is_none());
    assert!(out.split_write.is_some());
    assert!(state.score_snapshot.is_none());
    assert!(state.split_snapshot.is_some());

    let only_weights = TickEvent { weights: Some(reference_weights()), split: None };
    let out = apply_tick(&mut state, 'C', 4, "bull", &fixed_telemetry(), &fixed_scores(),
        only_weights, String::from("T2"));
    assert!(out.degraded);
    assert!(out.score_write.is_some());
    assert!(out.split_write.is_none());
    // the split snapshot of tick 3 is still the persisted one
    assert_eq!(state.split_snapshot.as_ref().unwrap().timestamp, "T");
}

#[test]
fn failing_run_emits_one_degraded_line_per_tick_and_writes_nothing() {
    let mut state = NodeState::new();
    let k = 5;
    let mut degraded_lines = Vec::new();
    for t in 1..=k {
        let ev = TickEvent { weights: None, split: None };
        let out = apply_tick(&mut state, 'A', t, "neutral", &fixed_telemetry(), &fixed_scores(),
            ev, format!("T{t}"));
        assert!(out.score_write.is_none());
        assert!(out.split_write.is_none());
        assert!(out.degraded);
        degraded_lines.push(out.log_line);
    }
    assert_eq!(degraded_lines.len(), k as usize);
    assert_eq!(
        degraded_lines[0],
        "[T1] [A] tick 001  AIFA request failed - continuing with last known values"
    );
    assert_eq!(
        degraded_lines[4],
        "[T5] [A] tick 005  AIFA request failed - continuing with last known values"
    );
    assert!(state.score_snapshot.is_none());
    assert!(state.split_snapshot.is_none());
    assert_eq!(render_completion_line('A', k), "Node A exiting after 5 ticks.");
}

#[test]
fn clocked_tick_stamps_both_snapshots_with_one_timestamp() {
    let mut state = NodeState::new();
    let ev = TickEvent {
        weights: Some(reference_weights()),
        split: Some(VaultSplit { innovation: 50, governance: 50 }),
    };
    let out = run_tick_now(&mut state, 'D', 1, "neutral", &fixed_telemetry(), &fixed_scores(), ev);
    let score_write = out.score_write.unwrap();
    let split_write = out.split_write.unwrap();
    assert_eq!(score_write.timestamp, out.timestamp);
    assert_eq!(split_write.timestamp, out.timestamp);
    // the trusted clock produced a real RFC 3339 stamp, not an empty string
    assert!(out.timestamp.contains('T'));
}

#[test]
fn completion_line_reports_identity_and_tick_count() {
    assert_eq!(render_completion_line('B', 80), "Node B exiting after 80 ticks.");
    assert_eq!(render_completion_line('Z', 0), "Node Z exiting after 0 ticks.");
}

#[test]
fn classification_collapses_every_failure_uniformly() {
    let w = reference_weights();
    assert_eq!(classify_response(true, true, Some(w)), Some(w));
    assert_eq!(classify_response(true, true, None::<Weights>), None);
    assert_eq!(classify_response(true, false, Some(w)), None);
    assert_eq!(classify_response(false, false, Some(w)), None);
    assert_eq!(classify_response(false, true, Some(w)), None);
}
