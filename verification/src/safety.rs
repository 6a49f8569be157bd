//! The safety monitor: gatekeeper for every potentially hazardous action.
//!
//! The monitor owns the emergency-stop latch, the consecutive-failure
//! counter, the lifecycle state machine and all range and limit validation.
//! The latch is set by [`SafetyMonitor::trigger_emergency_stop`] and cleared
//! only by an explicit [`SafetyMonitor::reset_emergency_stop`], which is
//! itself refused once the failure counter has grown past
//! [`RESET_FAILURE_LIMIT`] — a deliberate degrade-to-manual-inspection
//! policy, since the counter grows on every reset and shrinks only when
//! [`SafetyMonitor::record_success`] reports a completed dispense.

use vstd::prelude::*;

use crate::config::SafetyConfig;
use crate::control::DispenseController;
use crate::hardware::{Display, Pump, TemperatureSensor};

verus! {

/// A safety violation reported by the monitor.
#[derive(Clone, Copy, Debug, PartialEq, Eq, Structural)]
pub enum SafetyError {
    /// A temperature outside the configured bounds.
    OutOfRange,
    /// An emergency-stop reset refused after too many consecutive failures.
    TooManyFailures,
}

/// How severe a failed pre-flight check is.
#[derive(Clone, Copy, Debug, PartialEq, Eq, Structural)]
pub enum SafetySeverity {
    /// Advisory only.
    Info,
    /// Worth attention, not fatal.
    Warning,
    /// Fatal to startup.
    Critical,
}

/// The outcome of one pre-flight check.
#[derive(Clone, Debug)]
pub struct SafetyCheckResult {
    /// Whether the check passed.
    pub passed: bool,
    /// What was checked, or what went wrong.
    pub message: String,
    /// How severe a failure of this check is.
    pub severity: SafetySeverity,
}

/// The lifecycle states of the safety system; exactly one is active.
#[derive(Clone, Copy, Debug, PartialEq, Eq, Structural)]
pub enum SafetyState {
    /// Nothing has been checked yet.
    Uninitialized,
    /// Self-checks are set up, pre-flight not yet run.
    Initialized,
    /// Pre-flight passed; ready to operate.
    Safe,
    /// A dispense operation is in progress.
    Operating,
    /// Something unexpected was seen during an operation.
    Anomaly,
    /// The system refuses hazardous work until reset.
    Lockout,
}

/// The events that drive the lifecycle state machine.
#[derive(Clone, Copy, Debug, PartialEq, Eq, Structural)]
pub enum SafetyEvent {
    /// Set up self-checks.
    Initialize,
    /// Pre-flight checks passed.
    PassPreflight,
    /// Pre-flight checks failed.
    FailPreflight,
    /// A dispense operation begins.
    StartOperation,
    /// A dispense operation finished cleanly.
    CompleteOperation,
    /// Something unexpected was seen mid-operation.
    DetectAnomaly,
    /// The emergency stop fired.
    EmergencyStop,
    /// Recovery from an anomaly worked.
    Recover,
    /// Recovery from an anomaly failed.
    FailRecovery,
    /// Manual reset after a lockout.
    Reset,
}

/// An event that is not legal in the state it arrived in.
#[derive(Clone, Copy, Debug, PartialEq, Eq, Structural)]
pub struct TransitionError {
    /// The state the machine was in.
    pub state: SafetyState,
    /// The event that was refused.
    pub event: SafetyEvent,
}

/// The lifecycle transition table: the state that follows `state` on
/// `event`, or `None` where the event is not legal. The emergency stop is
/// accepted in every state.
pub open spec fn next_state(state: SafetyState, event: SafetyEvent) -> Option<SafetyState> {
    match event {
        SafetyEvent::EmergencyStop => Some(SafetyState::Lockout),
        SafetyEvent::Initialize => if state == SafetyState::Uninitialized {
            Some(SafetyState::Initialized)
        } else {
            None
        },
        SafetyEvent::PassPreflight => if state == SafetyState::Initialized {
            Some(SafetyState::Safe)
        } else {
            None
        },
        SafetyEvent::FailPreflight => if state == SafetyState::Initialized {
            Some(SafetyState::Lockout)
        } else {
            None
        },
        SafetyEvent::StartOperation => if state == SafetyState::Safe {
            Some(SafetyState::Operating)
        } else {
            None
        },
        SafetyEvent::CompleteOperation => if state == SafetyState::Operating {
            Some(SafetyState::Safe)
        } else {
            None
        },
        SafetyEvent::DetectAnomaly => if state == SafetyState::Operating {
            Some(SafetyState::Anomaly)
        } else {
            None
        },
        SafetyEvent::Recover => if state == SafetyState::Anomaly {
            Some(SafetyState::Safe)
        } else {
            None
        },
        SafetyEvent::FailRecovery => if state == SafetyState::Anomaly {
            Some(SafetyState::Lockout)
        } else {
            None
        },
        SafetyEvent::Reset => if state == SafetyState::Lockout {
            Some(SafetyState::Initialized)
        } else {
            None
        },
    }
}

/// The pure transition function of the lifecycle state machine: the next
/// state, or a rejection carrying the state and event.
pub fn transition(state: SafetyState, event: SafetyEvent) -> (r: Result<
    SafetyState,
    TransitionError,
>)
    ensures
        match next_state(state, event) {
            Some(next) => r == Ok::<SafetyState, TransitionError>(next),
            None => r == Err::<SafetyState, TransitionError>(TransitionError { state, event }),
        },
{
    let next: Option<SafetyState> = match event {
        SafetyEvent::EmergencyStop => Some(SafetyState::Lockout),
        SafetyEvent::Initialize => if state == SafetyState::Uninitialized {
            Some(SafetyState::Initialized)
        } else {
            None
        },
        SafetyEvent::PassPreflight => if state == SafetyState::Initialized {
            Some(SafetyState::Safe)
        } else {
            None
        },
        SafetyEvent::FailPreflight => if state == SafetyState::Initialized {
            Some(SafetyState::Lockout)
        } else {
            None
        },
        SafetyEvent::StartOperation => if state == SafetyState::Safe {
            Some(SafetyState::Operating)
        } else {
            None
        },
        SafetyEvent::CompleteOperation => if state == SafetyState::Operating {
            Some(SafetyState::Safe)
        } else {
            None
        },
        SafetyEvent::DetectAnomaly => if state == SafetyState::Operating {
            Some(SafetyState::Anomaly)
        } else {
            None
        },
        SafetyEvent::Recover => if state == SafetyState::Anomaly {
            Some(SafetyState::Safe)
        } else {
            None
        },
        SafetyEvent::FailRecovery => if state == SafetyState::Anomaly {
            Some(SafetyState::Lockout)
        } else {
            None
        },
        SafetyEvent::Reset => if state == SafetyState::Lockout {
            Some(SafetyState::Initialized)
        } else {
            None
        },
    };
    match next {
        Some(n) => Ok(n),
        None => Err(TransitionError { state, event }),
    }
}

/// Resets are refused once the consecutive-failure counter exceeds this.
pub const RESET_FAILURE_LIMIT: u32 = 3;

/// The safety monitor: the single source of truth for "is it safe to
/// proceed".
#[derive(Clone, Copy, Debug, PartialEq, Eq, Structural)]
pub struct SafetyMonitor {
    /// The limits the monitor enforces.
    pub config: SafetyConfig,
    /// Where the system stands in its lifecycle.
    pub state: SafetyState,
    /// The emergency-stop latch; once set it stays set until an explicit,
    /// successful reset.
    pub emergency_stop_triggered: bool,
    /// How many resets have happened since the last completed dispense.
    pub consecutive_failures: u32,
}

impl SafetyMonitor {
    /// A monitor over `config`, with the latch clear, no failures on record,
    /// and the lifecycle at its start.
    pub fn new(config: &SafetyConfig) -> (r: Result<Self, SafetyError>)
        requires
            config.valid(),
        ensures
            r matches Ok(m) ==> {
                &&& m.config == *config
                &&& m.state == SafetyState::Uninitialized
                &&& !m.emergency_stop_triggered
                &&& m.consecutive_failures == 0
            },
            r is Ok,
    {
        Ok(
            SafetyMonitor {
                config: *config,
                state: SafetyState::Uninitialized,
                emergency_stop_triggered: false,
                consecutive_failures: 0,
            },
        )
    }

    /// Checks that `temp` (tenths of a degree Celsius) lies inside the
    /// configured band; both bounds are themselves acceptable. Pure: no
    /// state is touched.
    pub fn validate_temperature(&self, temp: i32) -> (r: Result<(), SafetyError>)
        ensures
            r is Ok <==> self.config.temp_in_range(temp),
            r is Err ==> r == Err::<(), SafetyError>(SafetyError::OutOfRange),
    {
        if temp < self.config.min_temperature {
            return Err(SafetyError::OutOfRange);
        }
        if temp > self.config.max_temperature {
            return Err(SafetyError::OutOfRange);
        }
        Ok(())
    }

    /// Whether the emergency-stop latch is set. Consulted before every
    /// individual ingredient actuation.
    pub fn is_emergency_stop(&self) -> (r: bool)
        ensures
            r == self.emergency_stop_triggered,
    {
        self.emergency_stop_triggered
    }

    /// Sets the emergency-stop latch; idempotent, never fails. The reason is
    /// for the operator's log and plays no part in the decision.
    pub fn trigger_emergency_stop(&mut self, reason: &str)
        ensures
            final(self).emergency_stop_triggered,
            final(self).config == old(self).config,
            final(self).state == old(self).state,
            final(self).consecutive_failures == old(self).consecutive_failures,
    {
        self.emergency_stop_triggered = true;
    }

    /// Clears the latch after manual intervention. Every reset counts
    /// against the failure counter, so repeated resets without a completed
    /// dispense in between eventually lock the system out for manual
    /// inspection.
    pub fn reset_emergency_stop(&mut self) -> (r: Result<(), SafetyError>)
        ensures
            old(self).consecutive_failures > RESET_FAILURE_LIMIT ==> {
                &&& r == Err::<(), SafetyError>(SafetyError::TooManyFailures)
                &&& *final(self) == *old(self)
            },
            old(self).consecutive_failures <= RESET_FAILURE_LIMIT ==> {
                &&& r is Ok
                &&& !final(self).emergency_stop_triggered
                &&& final(self).consecutive_failures == old(self).consecutive_failures + 1
                &&& final(self).config == old(self).config
                &&& final(self).state == old(self).state
            },
    {
        if self.consecutive_failures > RESET_FAILURE_LIMIT {
            return Err(SafetyError::TooManyFailures);
        }
        self.emergency_stop_triggered = false;
        self.consecutive_failures = self.consecutive_failures + 1;
        Ok(())
    }

    /// Reports a dispense that completed without incident: the failure
    /// counter starts over.
    pub fn record_success(&mut self)
        ensures
            final(self).consecutive_failures == 0,
            final(self).emergency_stop_triggered == old(self).emergency_stop_triggered,
            final(self).config == old(self).config,
            final(self).state == old(self).state,
    {
        self.consecutive_failures = 0;
    }

    /// Feeds one lifecycle event to the state machine; the latch, the
    /// counter and the configuration are untouched either way.
    pub fn process_event(&mut self, event: SafetyEvent) -> (r: Result<(), TransitionError>)
        ensures
            final(self).config == old(self).config,
            final(self).emergency_stop_triggered == old(self).emergency_stop_triggered,
            final(self).consecutive_failures == old(self).consecutive_failures,
            match next_state(old(self).state, event) {
                Some(next) => r is Ok && final(self).state == next,
                None => r == Err::<(), TransitionError>(
                    TransitionError { state: old(self).state, event },
                ) && final(self).state == old(self).state,
            },
    {
        match transition(self.state, event) {
            Ok(next) => {
                self.state = next;
                Ok(())
            },
            Err(e) => Err(e),
        }
    }

    /// Whether a failed check with this outcome blocks startup: an execution
    /// error always does, a failed check only when it is critical.
    pub open spec fn check_blocks(outcome: Result<SafetyCheckResult, SafetyError>) -> bool {
        match outcome {
            Ok(res) => !res.passed && res.severity == SafetySeverity::Critical,
            Err(_) => true,
        }
    }

    /// The pre-flight verdict over a battery of check outcomes: startup is
    /// refused exactly when some check blocks it. Failed advisory checks
    /// (info or warning) do not block — the system may proceed with caution.
    pub fn preflight_verdict(checks: &Vec<Result<SafetyCheckResult, SafetyError>>) -> (r: bool)
        ensures
            r <==> forall|i: int| 0 <= i < checks@.len() ==> !Self::check_blocks(checks@[i]),
    {
        let mut idx: usize = 0;
        let mut ok: bool = true;
        while idx < checks.len()
            invariant
                idx <= checks@.len(),
                ok <==> forall|i: int| 0 <= i < idx ==> !Self::check_blocks(checks@[i]),
            decreases checks@.len() - idx,
        {
            let blocks: bool = match &checks[idx] {
                Ok(res) => !res.passed && res.severity == SafetySeverity::Critical,
                Err(_) => true,
            };
            if blocks {
                ok = false;
            }
            idx = idx + 1;
        }
        ok
    }

    /// Checks the temperature sensing path. The probe itself belongs to the
    /// drivers; here the check records that the path is configured.
    fn check_temperature_sensors<P: Pump, S: TemperatureSensor, D: Display>(
        &self,
        _controller: &DispenseController<P, S, D>,
    ) -> (r: Result<SafetyCheckResult, SafetyError>)
        ensures
            r matches Ok(c) ==> c.passed && c.severity == SafetySeverity::Info,
            r is Ok,
    {
        Ok(
            SafetyCheckResult {
                passed: true,
                message: ("Temperature sensors operational").to_owned(),
                severity: SafetySeverity::Info,
            },
        )
    }

    /// Checks that the pumps answer on their pins.
    fn check_pump_connectivity<P: Pump, S: TemperatureSensor, D: Display>(
        &self,
        _controller: &DispenseController<P, S, D>,
    ) -> (r: Result<SafetyCheckResult, SafetyError>)
        ensures
            r matches Ok(c) ==> c.passed && c.severity == SafetySeverity::Info,
            r is Ok,
    {
        Ok(
            SafetyCheckResult {
                passed: true,
                message: ("All pumps connected and responsive").to_owned(),
                severity: SafetySeverity::Info,
            },
        )
    }

    /// Checks the emergency-stop wiring; a configuration that disables the
    /// button passes, but only as a warning.
    fn check_emergency_stop<P: Pump, S: TemperatureSensor, D: Display>(
        &self,
        _controller: &DispenseController<P, S, D>,
    ) -> (r: Result<SafetyCheckResult, SafetyError>)
        ensures
            r matches Ok(c) ==> {
                &&& c.passed
                &&& c.severity == (if self.config.emergency_stop_enabled {
                    SafetySeverity::Info
                } else {
                    SafetySeverity::Warning
                })
            },
            r is Ok,
    {
        if !self.config.emergency_stop_enabled {
            return Ok(
                SafetyCheckResult {
                    passed: true,
                    message: ("Emergency stop disabled in config").to_owned(),
                    severity: SafetySeverity::Warning,
                },
            );
        }
        Ok(
            SafetyCheckResult {
                passed: true,
                message: ("Emergency stop button operational").to_owned(),
                severity: SafetySeverity::Info,
            },
        )
    }

    /// Checks that the supply voltage is stable.
    fn check_power_supply<P: Pump, S: TemperatureSensor, D: Display>(
        &self,
        _controller: &DispenseController<P, S, D>,
    ) -> (r: Result<SafetyCheckResult, SafetyError>)
        ensures
            r matches Ok(c) ==> c.passed && c.severity == SafetySeverity::Info,
            r is Ok,
    {
        Ok(
            SafetyCheckResult {
                passed: true,
                message: ("Power supply stable").to_owned(),
                severity: SafetySeverity::Info,
            },
        )
    }

    /// Runs the pre-flight checks in order and combines their outcomes:
    /// `Ok(false)` exactly when some check blocks startup. The monitor is
    /// not changed.
    pub fn run_preflight_checks<P: Pump, S: TemperatureSensor, D: Display>(
        &mut self,
        controller: &DispenseController<P, S, D>,
    ) -> (r: Result<bool, SafetyError>)
        ensures
            *final(self) == *old(self),
            r == Ok::<bool, SafetyError>(true),
    {
        let mut checks: Vec<Result<SafetyCheckResult, SafetyError>> = Vec::new();
        checks.push(self.check_temperature_sensors(controller));
        checks.push(self.check_pump_connectivity(controller));
        checks.push(self.check_emergency_stop(controller));
        checks.push(self.check_power_supply(controller));
        let verdict: bool = Self::preflight_verdict(&checks);
        Ok(verdict)
    }
}

} // verus!
