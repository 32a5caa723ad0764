use thinkos_node::render::{push_micro, push_pad3, push_pico, push_uint};
use thinkos_node::scoring::Weights;
use thinkos_node::snapshot::{
    render_inbox_path, render_score_snapshot_path, render_split_snapshot_path, render_state_dir,
    telemetry_in_bounds, ScoreSnapshot, SplitSnapshot, Telemetry, VaultSplit,
};

#[test]
fn micro_values_render_with_six_fraction_digits() {
    let mut s = String::new();
    push_micro(&mut s, 250_000);
    assert_eq!(s, "0.250000");

    let mut s = String::new();
    push_micro(&mut s, -1_500_000);
    assert_eq!(s, "-1.500000");

    let mut s = String::new();
    push_micro(&mut s, 0);
    assert_eq!(s, "0.000000");

    let mut s = String::new();
    push_micro(&mut s, 12_345_678_901);
    assert_eq!(s, "12345.678901");
}

#[test]
fn pico_values_render_with_twelve_fraction_digits() {
    let mut s = String::new();
    push_pico(&mut s, 775_000_000_000);
    assert_eq!(s, "0.775000000000");

    let mut s = String::new();
    push_pico(&mut s, -1);
    assert_eq!(s, "-0.000000000001");
}

#[test]
fn unsigned_and_padded_rendering_is_plain_decimal() {
    let mut s = String::new();
    push_uint(&mut s, 0);
    assert_eq!(s, "0");

    let mut s = String::new();
    push_uint(&mut s, 9010);
    assert_eq!(s, "9010");

    let mut s = String::new();
    push_pad3(&mut s, 7);
    assert_eq!(s, "007");

    let mut s = String::new();
    push_pad3(&mut s, 1234);
    assert_eq!(s, "1234");
}

#[test]
fn score_snapshot_serializes_every_field() {
    let snap = ScoreSnapshot {
        timestamp: String::from("2026-01-02T03:04:05+00:00"),
        node: 'A',
        telemetry: Telemetry {
            volatility: 230_000,
            congestion: 180_000,
            uptime_variance: 30_000,
            treasury_health: 880_000,
        },
        weights: Weights { w0: 250_000, w1: 300_000, w2: 200_000, w3: 150_000, w4: 100_000 },
        score: 775_000_000_000,
    };
    assert_eq!(
        snap.render(),
        "{\"timestamp\":\"2026-01-02T03:04:05+00:00\",\"node\":\"A\",\
         \"telemetry\":{\"volatility\":0.230000,\"congestion\":0.180000,\
         \"uptime_variance\":0.030000,\"treasury_health\":0.880000},\
         \"weights\":{\"w0\":0.250000,\"w1\":0.300000,\"w2\":0.200000,\
         \"w3\":0.150000,\"w4\":0.100000},\"score\":0.775000000000}"
    );
}

#[test]
fn split_snapshot_serializes_every_field() {
    let snap = SplitSnapshot {
        timestamp: String::from("2026-01-02T03:04:05+00:00"),
        node: 'B',
        mode: String::from("neutral"),
        split: VaultSplit { innovation: 60, governance: 40 },
    };
    assert_eq!(
        snap.render(),
        "{\"timestamp\":\"2026-01-02T03:04:05+00:00\",\"node\":\"B\",\"mode\":\"neutral\",\
         \"split\":{\"innovation\":60,\"governance\":40}}"
    );
}

#[test]
fn split_is_persisted_even_when_percentages_do_not_sum_to_hundred() {
    let snap = SplitSnapshot {
        timestamp: String::from("T"),
        node: 'C',
        mode: String::from("bear"),
        split: VaultSplit { innovation: 90, governance: 30 },
    };
    assert_eq!(
        snap.render(),
        "{\"timestamp\":\"T\",\"node\":\"C\",\"mode\":\"bear\",\
         \"split\":{\"innovation\":90,\"governance\":30}}"
    );
}

#[test]
fn node_files_live_under_the_per_node_state_dir() {
    assert_eq!(render_state_dir('A'), "state/nodes/A/");
    assert_eq!(render_score_snapshot_path('A'), "state/nodes/A/aifa_latest.json");
    assert_eq!(render_split_snapshot_path('A'), "state/nodes/A/ctp_latest.json");
    assert_eq!(render_inbox_path('A'), "state/nodes/A/p2p_inbox.log");
}

#[test]
fn the_three_node_files_are_pairwise_distinct() {
    let score = render_score_snapshot_path('E');
    let split = render_split_snapshot_path('E');
    let inbox = render_inbox_path('E');
    assert_ne!(score, split);
    assert_ne!(score, inbox);
    assert_ne!(split, inbox);
}

#[test]
fn telemetry_bounds_are_decided_exactly() {
    let t = Telemetry {
        volatility: 230_000,
        congestion: 180_000,
        uptime_variance: 30_000,
        treasury_health: 880_000,
    };
    assert!(telemetry_in_bounds(&t));
    let out_of_range = Telemetry { volatility: i64::MAX, ..t };
    assert!(!telemetry_in_bounds(&out_of_range));
}
