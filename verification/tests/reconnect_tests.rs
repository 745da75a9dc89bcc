//! Backoff policy tests: the exponential schedule, the attempt limit, the
//! reset, the alternate strategies, and the reconnect supervisor.

use pori::errors::TunnelError;
use pori::reconnect::{ReconnectManager, ReconnectStrategy};
use pori::supervisor::{StepOutcome, Supervisor, SupervisorPhase};

#[test]
fn test_basic_reconnect_manager() {
    let mut manager = ReconnectManager::new()
        .with_max_attempts(3)
        .with_base_delay(1000)
        .with_backoff_multiplier(2)
        .with_jitter(false);

    assert!(manager.should_reconnect());

    let delay1 = manager.next_delay();
    assert_eq!(delay1, 1000);

    let delay2 = manager.next_delay();
    assert_eq!(delay2, 2000);

    let delay3 = manager.next_delay();
    assert_eq!(delay3, 4000);

    assert!(!manager.should_reconnect());
    assert!(manager.is_exhausted());
}

#[test]
fn test_infinite_attempts() {
    let mut manager = ReconnectManager::new().with_max_attempts(0).with_base_delay(1000);

    let mut i = 0;
    while i < 100 {
        assert!(manager.should_reconnect());
        manager.next_delay();
        i += 1;
    }
}

#[test]
fn test_reset_functionality() {
    let mut manager = ReconnectManager::new().with_max_attempts(3).with_base_delay(1000);

    manager.next_delay();
    manager.next_delay();
    assert_eq!(manager.current_attempt(), 2);

    manager.reset();
    assert_eq!(manager.current_attempt(), 0);
    assert!(manager.should_reconnect());
}

#[test]
fn test_reconnect_strategies() {
    let fixed = ReconnectStrategy::Fixed(5000);
    assert_eq!(fixed.calculate_delay(0), 5000);
    assert_eq!(fixed.calculate_delay(10), 5000);

    let linear = ReconnectStrategy::Linear { base_ms: 1000, increment_ms: 2000 };
    assert_eq!(linear.calculate_delay(0), 1000);
    assert_eq!(linear.calculate_delay(1), 3000);
    assert_eq!(linear.calculate_delay(2), 5000);

    let exponential = ReconnectStrategy::Exponential {
        base_ms: 1000,
        multiplier: 2,
        max_ms: 10000,
    };
    assert_eq!(exponential.calculate_delay(0), 1000);
    assert_eq!(exponential.calculate_delay(1), 2000);
    assert_eq!(exponential.calculate_delay(2), 4000);
    assert_eq!(exponential.calculate_delay(10), 10000);
}

#[test]
fn test_delay_capped_at_max() {
    let mut manager = ReconnectManager::new()
        .with_max_attempts(0)
        .with_base_delay(1000)
        .with_max_delay(5000)
        .with_backoff_multiplier(10)
        .with_jitter(false);
    assert_eq!(manager.next_delay(), 1000);
    assert_eq!(manager.next_delay(), 5000);
    assert_eq!(manager.next_delay(), 5000);
}

#[test]
fn test_jitter_stays_within_policy_band() {
    // With jitter on, each observed delay stays within half and
    // one-and-a-half times the jitter-free policy delay.
    let mut jittered = ReconnectManager::new()
        .with_max_attempts(0)
        .with_base_delay(1000)
        .with_backoff_multiplier(2)
        .with_jitter(true);
    let mut exact = ReconnectManager::new()
        .with_max_attempts(0)
        .with_base_delay(1000)
        .with_backoff_multiplier(2)
        .with_jitter(false);
    let mut i = 0;
    while i < 8 {
        let observed = jittered.next_delay();
        let policy = exact.next_delay();
        assert!(observed >= policy * 500 / 1000);
        assert!(observed <= policy * 1500 / 1000);
        i += 1;
    }
}

#[test]
fn test_supervisor_backoff_sequence() {
    // Connect succeeds, the server closes after the handshake, three
    // reconnects allowed, 100 ms base, doubling, jitter off: the observed
    // delays are 100, 200 and 400 ms, then the supervisor stops.
    let manager = ReconnectManager::new()
        .with_max_attempts(3)
        .with_base_delay(100)
        .with_backoff_multiplier(2)
        .with_jitter(false);
    let mut sup = Supervisor::new(manager);

    assert!(matches!(sup.start_attempt(), StepOutcome::Connect));
    sup.on_handshake_ok();
    match sup.on_session_end(true, 0) {
        StepOutcome::Sleep(d) => assert_eq!(d, 100),
        _ => panic!("expected a backoff delay"),
    }
    assert!(matches!(sup.start_attempt(), StepOutcome::Connect));
    match sup.on_session_end(true, 0) {
        StepOutcome::Sleep(d) => assert_eq!(d, 200),
        _ => panic!("expected a backoff delay"),
    }
    assert!(matches!(sup.start_attempt(), StepOutcome::Connect));
    match sup.on_session_end(true, 0) {
        StepOutcome::Sleep(d) => assert_eq!(d, 400),
        _ => panic!("expected a backoff delay"),
    }
    assert!(matches!(sup.start_attempt(), StepOutcome::Stop));
    assert_eq!(sup.phase, SupervisorPhase::Terminated);
}

#[test]
fn test_auth_success_resets_attempt() {
    // After a successful authenticated session the attempt counter is
    // zero, so the next backoff restarts at the base delay.
    let manager = ReconnectManager::new()
        .with_max_attempts(0)
        .with_base_delay(100)
        .with_backoff_multiplier(2)
        .with_jitter(false);
    let mut sup = Supervisor::new(manager);
    sup.start_attempt();
    sup.on_session_end(true, 0);
    sup.start_attempt();
    sup.on_session_end(true, 0);
    assert_eq!(sup.manager.current_attempt, 2);

    sup.start_attempt();
    sup.on_handshake_ok();
    sup.on_auth_success();
    assert_eq!(sup.manager.current_attempt, 0);
    match sup.on_session_end(true, 0) {
        StepOutcome::Sleep(d) => assert_eq!(d, 100),
        _ => panic!("expected a backoff delay"),
    }
}

#[test]
fn test_fatal_failure_terminates() {
    let manager = ReconnectManager::new();
    let mut sup = Supervisor::new(manager);
    sup.start_attempt();
    assert!(matches!(sup.on_session_end(false, 0), StepOutcome::Fail));
    assert_eq!(sup.phase, SupervisorPhase::Terminated);
}

#[test]
fn test_advanced_manager_min_interval() {
    let mut manager =
        pori::reconnect::AdvancedReconnectManager::new(ReconnectStrategy::Fixed(5000))
            .with_max_attempts(2)
            .with_min_interval(100);

    assert_eq!(manager.next_delay(1000), Some(5000));
    // Too soon after the last attempt: no new attempt.
    assert_eq!(manager.next_delay(1050), None);
    assert_eq!(manager.next_delay(1100), Some(5000));
    // Attempt limit reached.
    assert_eq!(manager.next_delay(5000), None);

    manager.reset();
    assert!(manager.should_reconnect(5000));
    let snapshot = manager.stats(5000);
    assert_eq!(snapshot.current_attempt, 0);
    assert_eq!(snapshot.strategy_name, "fixed");
}

#[test]
fn test_error_taxonomy() {
    let transport = TunnelError::WebSocketConnection("refused".to_string());
    assert!(transport.is_recoverable());
    assert_eq!(transport.category(), "websocket");

    let auth = TunnelError::WebSocketAuth("bad token".to_string());
    assert!(!auth.is_recoverable());
    assert_eq!(auth.category(), "authentication");
    assert_eq!(auth.message(), "bad token");

    let parse = TunnelError::MessageParsing("bad frame".to_string());
    assert!(!parse.is_recoverable());
    assert_eq!(parse.category(), "serialization");

    let timeout = TunnelError::Timeout("deadline".to_string());
    assert!(timeout.is_recoverable());
    assert_eq!(timeout.category(), "timeout");
}
