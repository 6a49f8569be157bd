//! Tests for the safety monitor: temperature validation, the emergency-stop
//! latch, the reset lockout, the lifecycle state machine and the pre-flight
//! battery.

use hotchocolabot::config::{BotConfig, SafetyConfig};
use hotchocolabot::control::{DispenseController, DispenseError};
use hotchocolabot::mock::{MockDisplay, MockPump, MockTemperatureSensor};
use hotchocolabot::safety::{
    SafetyCheckResult, SafetyError, SafetyEvent, SafetyMonitor, SafetySeverity, SafetyState,
    transition,
};

fn test_config() -> SafetyConfig {
    SafetyConfig {
        max_temperature: 900,
        min_temperature: 50,
        max_pump_runtime: 30,
        operation_timeout: 120,
        verbose_logging: true,
        emergency_stop_enabled: true,
    }
}

#[test]
fn test_temperature_validation() {
    let config = test_config();
    let monitor = SafetyMonitor::new(&config).unwrap();

    assert!(monitor.validate_temperature(200).is_ok());
    assert!(monitor.validate_temperature(850).is_ok());
    assert!(monitor.validate_temperature(20).is_err());
    assert!(monitor.validate_temperature(950).is_err());
}

#[test]
fn test_temperature_bounds_inclusive() {
    let monitor = SafetyMonitor::new(&test_config()).unwrap();
    assert!(monitor.validate_temperature(50).is_ok());
    assert!(monitor.validate_temperature(900).is_ok());
    assert_eq!(monitor.validate_temperature(49), Err(SafetyError::OutOfRange));
    assert_eq!(monitor.validate_temperature(901), Err(SafetyError::OutOfRange));
}

#[test]
fn test_emergency_stop() {
    let config = test_config();
    let mut monitor = SafetyMonitor::new(&config).unwrap();

    assert!(!monitor.is_emergency_stop());
    monitor.trigger_emergency_stop("Test");
    assert!(monitor.is_emergency_stop());
}

#[test]
fn test_emergency_stop_idempotent() {
    let mut monitor = SafetyMonitor::new(&test_config()).unwrap();
    monitor.trigger_emergency_stop("first");
    monitor.trigger_emergency_stop("second");
    assert!(monitor.is_emergency_stop());
    assert!(monitor.reset_emergency_stop().is_ok());
    assert!(!monitor.is_emergency_stop());
}

#[test]
fn test_reset_lockout_after_four_resets() {
    let mut monitor = SafetyMonitor::new(&test_config()).unwrap();
    for _ in 0..4 {
        assert!(monitor.reset_emergency_stop().is_ok());
    }
    assert_eq!(monitor.reset_emergency_stop(), Err(SafetyError::TooManyFailures));
    assert_eq!(monitor.reset_emergency_stop(), Err(SafetyError::TooManyFailures));
}

#[test]
fn test_record_success_reopens_reset() {
    let mut monitor = SafetyMonitor::new(&test_config()).unwrap();
    for _ in 0..4 {
        monitor.reset_emergency_stop().unwrap();
    }
    assert!(monitor.reset_emergency_stop().is_err());
    monitor.record_success();
    assert!(monitor.reset_emergency_stop().is_ok());
}

#[test]
fn test_transition_happy_lifecycle() {
    assert_eq!(
        transition(SafetyState::Uninitialized, SafetyEvent::Initialize),
        Ok(SafetyState::Initialized)
    );
    assert_eq!(
        transition(SafetyState::Initialized, SafetyEvent::PassPreflight),
        Ok(SafetyState::Safe)
    );
    assert_eq!(
        transition(SafetyState::Safe, SafetyEvent::StartOperation),
        Ok(SafetyState::Operating)
    );
    assert_eq!(
        transition(SafetyState::Operating, SafetyEvent::CompleteOperation),
        Ok(SafetyState::Safe)
    );
}

#[test]
fn test_transition_anomaly_paths() {
    assert_eq!(
        transition(SafetyState::Operating, SafetyEvent::DetectAnomaly),
        Ok(SafetyState::Anomaly)
    );
    assert_eq!(transition(SafetyState::Anomaly, SafetyEvent::Recover), Ok(SafetyState::Safe));
    assert_eq!(
        transition(SafetyState::Anomaly, SafetyEvent::FailRecovery),
        Ok(SafetyState::Lockout)
    );
    assert_eq!(transition(SafetyState::Lockout, SafetyEvent::Reset), Ok(SafetyState::Initialized));
    assert_eq!(
        transition(SafetyState::Initialized, SafetyEvent::FailPreflight),
        Ok(SafetyState::Lockout)
    );
}

#[test]
fn test_transition_emergency_stop_from_any_state() {
    for state in [
        SafetyState::Uninitialized,
        SafetyState::Initialized,
        SafetyState::Safe,
        SafetyState::Operating,
        SafetyState::Anomaly,
        SafetyState::Lockout,
    ] {
        assert_eq!(transition(state, SafetyEvent::EmergencyStop), Ok(SafetyState::Lockout));
    }
}

#[test]
fn test_transition_rejected_carries_state_and_event() {
    let r = transition(SafetyState::Safe, SafetyEvent::Initialize);
    let err = r.unwrap_err();
    assert_eq!(err.state, SafetyState::Safe);
    assert_eq!(err.event, SafetyEvent::Initialize);
    assert!(transition(SafetyState::Uninitialized, SafetyEvent::StartOperation).is_err());
    assert!(transition(SafetyState::Safe, SafetyEvent::Reset).is_err());
}

#[test]
fn test_process_event_drives_monitor() {
    let mut monitor = SafetyMonitor::new(&test_config()).unwrap();
    assert_eq!(monitor.state, SafetyState::Uninitialized);
    monitor.process_event(SafetyEvent::Initialize).unwrap();
    assert_eq!(monitor.state, SafetyState::Initialized);
    monitor.process_event(SafetyEvent::PassPreflight).unwrap();
    assert_eq!(monitor.state, SafetyState::Safe);
    assert!(monitor.process_event(SafetyEvent::Initialize).is_err());
    assert_eq!(monitor.state, SafetyState::Safe);
}

#[test]
fn test_preflight_checks_pass() {
    let config = BotConfig::default();
    let mut monitor = SafetyMonitor::new(&config.safety).unwrap();
    let controller = DispenseController::new(
        config,
        MockPump::new("cocoa"),
        MockPump::new("milk"),
        MockPump::new("sugar"),
        MockTemperatureSensor::new(200),
        MockDisplay::new(),
    );
    assert_eq!(monitor.run_preflight_checks(&controller), Ok(true));
}

#[test]
fn test_preflight_checks_pass_with_estop_disabled() {
    let mut config = BotConfig::default();
    config.safety.emergency_stop_enabled = false;
    let mut monitor = SafetyMonitor::new(&config.safety).unwrap();
    let controller = DispenseController::new(
        config,
        MockPump::new("cocoa"),
        MockPump::new("milk"),
        MockPump::new("sugar"),
        MockTemperatureSensor::new(200),
        MockDisplay::new(),
    );
    assert_eq!(monitor.run_preflight_checks(&controller), Ok(true));
}

fn check(passed: bool, severity: SafetySeverity) -> Result<SafetyCheckResult, SafetyError> {
    Ok(SafetyCheckResult { passed, message: String::from("probe"), severity })
}

#[test]
fn test_preflight_verdict_advisory_failures_proceed() {
    let checks = vec![
        check(true, SafetySeverity::Info),
        check(false, SafetySeverity::Info),
        check(false, SafetySeverity::Warning),
    ];
    assert!(SafetyMonitor::preflight_verdict(&checks));
}

#[test]
fn test_preflight_verdict_critical_failure_blocks() {
    let checks = vec![
        check(true, SafetySeverity::Info),
        check(false, SafetySeverity::Critical),
        check(true, SafetySeverity::Info),
    ];
    assert!(!SafetyMonitor::preflight_verdict(&checks));
}

#[test]
fn test_preflight_verdict_passed_critical_does_not_block() {
    let checks = vec![check(true, SafetySeverity::Critical), check(true, SafetySeverity::Warning)];
    assert!(SafetyMonitor::preflight_verdict(&checks));
}

#[test]
fn test_preflight_verdict_check_error_blocks() {
    let checks = vec![check(true, SafetySeverity::Info), Err(SafetyError::OutOfRange)];
    assert!(!SafetyMonitor::preflight_verdict(&checks));
}

#[test]
fn test_preflight_verdict_empty_battery_proceeds() {
    let checks: Vec<Result<SafetyCheckResult, SafetyError>> = Vec::new();
    assert!(SafetyMonitor::preflight_verdict(&checks));
}

#[test]
fn test_step_blocked_while_latched_until_reset() {
    let mut monitor = SafetyMonitor::new(&test_config()).unwrap();
    let mut pump = MockPump::new("milk");
    monitor.trigger_emergency_stop("drill");

    let r = hotchocolabot::control::dispense_ingredient(&mut pump, 1000, &mut monitor);
    assert_eq!(r, Err(DispenseError::EmergencyStopActive));
    let r = hotchocolabot::control::dispense_ingredient(&mut pump, 500, &mut monitor);
    assert_eq!(r, Err(DispenseError::EmergencyStopActive));
    assert_eq!(pump.runtime_ms, 0);

    monitor.reset_emergency_stop().unwrap();
    let r = hotchocolabot::control::dispense_ingredient(&mut pump, 1000, &mut monitor);
    assert_eq!(r, Ok(()));
    assert!(pump.runtime_ms >= 1000);
}
