use zero_cross::device::EdgeSource;
use zero_cross::device::OneShotTimer;
use zero_cross::handlers::on_timer_expiry;
use zero_cross::handlers::on_zero_cross;
use zero_cross::handlers::FireCommand;
use zero_cross::state::Fault;
use zero_cross::state::InitError;
use zero_cross::state::Phase;
use zero_cross::state::SharedState;

#[test]
fn install_populates_shared_state() {
    let mut shared = SharedState::new();
    assert!(!shared.is_initialized());
    let r = shared.install(EdgeSource::new(), OneShotTimer::new());
    assert_eq!(r, Ok(()));
    assert!(shared.is_initialized());
    assert!(!shared.timer_armed());
    assert!(!shared.timer_pending());
    assert!(!shared.edge_pending());
}

#[test]
fn reinstall_fails_and_leaves_state_intact() {
    let mut shared = SharedState::new();
    assert_eq!(shared.install(EdgeSource::new(), OneShotTimer::new()), Ok(()));
    let r = on_zero_cross(&mut shared, 0, 500);
    assert_eq!(r, Ok(()));
    // A second initialization is refused outright, and the countdown armed by
    // the edge above is untouched: nothing is torn down or re-created.
    let again = shared.install(EdgeSource::new(), OneShotTimer::new());
    assert_eq!(again, Err(InitError::AlreadyInitialized));
    assert!(shared.is_initialized());
    assert!(shared.timer_armed());
    assert_eq!(shared.timer_deadline(), Some(500));
}

#[test]
fn acknowledge_edge_idempotent() {
    let mut edge = EdgeSource::new();
    edge.detect_edge();
    assert!(edge.is_pending());
    edge.clear_interrupt();
    assert!(!edge.is_pending());
    edge.clear_interrupt();
    assert!(!edge.is_pending());
}

#[test]
fn acknowledge_timer_idempotent() {
    let mut timer = OneShotTimer::new();
    timer.start(0, 500);
    timer.expire();
    assert!(timer.is_pending());
    timer.clear_interrupt();
    assert!(!timer.is_pending());
    timer.clear_interrupt();
    assert!(!timer.is_pending());
}

#[test]
fn handlers_fault_without_initialization() {
    let mut shared = SharedState::new();
    assert_eq!(on_zero_cross(&mut shared, 0, 500), Err(Fault::NotInitialized));
    assert_eq!(on_timer_expiry(&mut shared), Err(Fault::NotInitialized));
    assert!(!shared.is_initialized());
    assert!(!shared.timer_armed());
}

#[test]
fn edge_handler_arms_countdown_and_acknowledges_edge() {
    let mut shared = SharedState::new();
    assert_eq!(shared.install(EdgeSource::new(), OneShotTimer::new()), Ok(()));
    let mut edge = shared.zero_cross.unwrap();
    edge.detect_edge();
    shared.zero_cross = Some(edge);
    assert!(shared.edge_pending());
    let r = on_zero_cross(&mut shared, 0, 500);
    assert_eq!(r, Ok(()));
    assert!(shared.timer_armed());
    assert_eq!(shared.timer_deadline(), Some(500));
    assert_eq!(shared.phase(), Phase::Armed { deadline: 500 });
    assert!(!shared.edge_pending());
}

#[test]
fn new_edge_overrides_running_countdown() {
    let mut shared = SharedState::new();
    assert_eq!(shared.install(EdgeSource::new(), OneShotTimer::new()), Ok(()));
    assert_eq!(on_zero_cross(&mut shared, 0, 500), Ok(()));
    assert_eq!(shared.timer_deadline(), Some(500));
    assert_eq!(on_zero_cross(&mut shared, 200, 500), Ok(()));
    // Last edge wins: the earlier countdown is discarded, not queued.
    assert_eq!(shared.timer_deadline(), Some(700));
    assert_eq!(shared.phase(), Phase::Armed { deadline: 700 });
}

#[test]
fn timer_handler_commands_fire_and_acknowledges() {
    let mut shared = SharedState::new();
    assert_eq!(shared.install(EdgeSource::new(), OneShotTimer::new()), Ok(()));
    assert_eq!(on_zero_cross(&mut shared, 0, 500), Ok(()));
    let mut timer = shared.timer.unwrap();
    timer.expire();
    shared.timer = Some(timer);
    assert!(shared.timer_pending());
    let r = on_timer_expiry(&mut shared);
    assert_eq!(r, Ok(FireCommand));
    assert!(!shared.timer_pending());
    assert!(!shared.timer_armed());
    assert_eq!(shared.phase(), Phase::Idle);
}
