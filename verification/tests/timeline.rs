use zero_cross::state::Phase;
use zero_cross::timeline::simulate;
use zero_cross::PHASE_DELAY_MS;

#[test]
fn no_edges_no_fires() {
    let edges: Vec<u64> = vec![];
    let (fires, shared) = simulate(&edges, PHASE_DELAY_MS);
    assert_eq!(fires, Vec::<u64>::new());
    assert!(shared.is_initialized());
}

#[test]
fn single_edge_fires_after_delay() {
    // Edge at t=0, no further edges: the fire comes at t=500 and the state
    // returns to idle.
    let (fires, shared) = simulate(&vec![0], 500);
    assert_eq!(fires, vec![500]);
    assert!(shared.is_initialized());
    assert_eq!(shared.phase(), Phase::Idle);
    assert!(!shared.timer_armed());
    assert!(!shared.timer_pending());
    assert!(!shared.edge_pending());
}

#[test]
fn close_edges_fire_once_after_second() {
    // Edges at t=0 and t=200 with D=500: a single fire at t=700, not at
    // t=500 — the second edge restarts the countdown.
    let (fires, _) = simulate(&vec![0, 200], 500);
    assert_eq!(fires, vec![700]);
}

#[test]
fn spaced_edges_each_fire_after_delay() {
    let (fires, _) = simulate(&vec![0, 500, 1000], 500);
    assert_eq!(fires, vec![500, 1000, 1500]);
    let (fires, _) = simulate(&vec![0, 600, 1300], 500);
    assert_eq!(fires, vec![500, 1100, 1800]);
}

#[test]
fn mixed_spacing_drops_only_overridden_countdowns() {
    // Edge at t=0 is overridden at t=200; edge at t=200 completes at t=700;
    // edge at t=1000 completes at t=1500.
    let (fires, _) = simulate(&vec![0, 200, 1000], 500);
    assert_eq!(fires, vec![700, 1500]);
}

#[test]
fn zero_delay_fires_on_the_arm_tick() {
    let (fires, _) = simulate(&vec![0], 0);
    assert_eq!(fires, vec![0]);
    let (fires, _) = simulate(&vec![3, 7], 0);
    assert_eq!(fires, vec![3, 7]);
}

#[test]
fn edge_at_exact_deadline_keeps_both_fires() {
    // The second edge arrives exactly at the first countdown's deadline: the
    // expiry is delivered before the edge is serviced, so both edges fire.
    let (fires, _) = simulate(&vec![0, 500], 500);
    assert_eq!(fires, vec![500, 1000]);
}

#[test]
fn latest_possible_edge_fires_at_tick_limit() {
    let last = u64::MAX - 500;
    let (fires, _) = simulate(&vec![last], 500);
    assert_eq!(fires, vec![u64::MAX]);
}
