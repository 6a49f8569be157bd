//! The dispense controller: drives a recipe through the three ingredient
//! pumps, enforcing the safety monitor's verdicts at every step.
//!
//! The fixed order is milk, then cocoa, then sugar — base liquid first, so
//! the flavouring pumps never run dry. Before the sequence the current
//! temperature is read and validated; before every single actuation the
//! runtime cap and the emergency-stop latch are checked. A step whose
//! duration exceeds the cap is treated like a hardware hazard: the
//! controller latches the emergency stop itself and aborts. Nothing already
//! dispensed is undone — dispensing is physically irreversible — so a
//! failure aborts only the remainder of the sequence.

use vstd::prelude::*;
use vstd::string::StringExecFns;

use crate::config::{BotConfig, Recipe, SafetyConfig};
use crate::hardware::{Display, Pump, TemperatureSensor};
use crate::safety::SafetyMonitor;
use crate::text::format_tenths;

verus! {

/// Why a dispense attempt was aborted.
#[derive(Clone, Copy, Debug, PartialEq, Eq, Structural)]
pub enum DispenseError {
    /// The temperature sensor failed to deliver a reading.
    SensorError,
    /// The reading lies outside the configured temperature band.
    OutOfRange,
    /// An ingredient's duration exceeds the configured runtime cap; the
    /// emergency stop has been latched.
    RuntimeCapExceeded,
    /// The emergency-stop latch was already set.
    EmergencyStopActive,
    /// A pump or the display refused an operation.
    HardwareFault,
}

/// Runtime odometers of the three pumps, read at report time.
#[derive(Clone, Copy, Debug, PartialEq, Eq, Structural)]
pub struct PumpStats {
    /// Total cocoa pump runtime in milliseconds.
    pub cocoa_runtime_ms: u64,
    /// Total milk pump runtime in milliseconds.
    pub milk_runtime_ms: u64,
    /// Total sugar pump runtime in milliseconds.
    pub sugar_runtime_ms: u64,
}

/// Performs one ingredient step: the runtime cap and the emergency-stop
/// latch are checked, in that order, before the pump is actuated.
///
/// A duration over the cap is escalated: the emergency stop is latched and
/// the step fails with [`DispenseError::RuntimeCapExceeded`]. While the
/// latch is set, every step fails with [`DispenseError::EmergencyStopActive`]
/// without touching hardware.
pub fn dispense_ingredient<P: Pump>(
    pump: &mut P,
    duration_ms: u64,
    safety_monitor: &mut SafetyMonitor,
) -> (r: Result<(), DispenseError>)
    requires
        old(safety_monitor).config.valid(),
    ensures
        final(safety_monitor).config == old(safety_monitor).config,
        final(safety_monitor).consecutive_failures == old(safety_monitor).consecutive_failures,
        final(safety_monitor).state == old(safety_monitor).state,
        old(safety_monitor).emergency_stop_triggered
            ==> final(safety_monitor).emergency_stop_triggered,
        duration_ms > old(safety_monitor).config.runtime_cap_ms() ==> {
            &&& r == Err::<(), DispenseError>(DispenseError::RuntimeCapExceeded)
            &&& final(safety_monitor).emergency_stop_triggered
            &&& *final(pump) == *old(pump)
        },
        duration_ms <= old(safety_monitor).config.runtime_cap_ms()
            ==> final(safety_monitor).emergency_stop_triggered == old(
            safety_monitor,
        ).emergency_stop_triggered,
        duration_ms <= old(safety_monitor).config.runtime_cap_ms() && old(
            safety_monitor,
        ).emergency_stop_triggered ==> {
            &&& r == Err::<(), DispenseError>(DispenseError::EmergencyStopActive)
            &&& *final(pump) == *old(pump)
        },
        duration_ms <= old(safety_monitor).config.runtime_cap_ms() && !old(
            safety_monitor,
        ).emergency_stop_triggered ==> {
            &&& final(pump).reliable() == old(pump).reliable()
            &&& final(pump).total() >= old(pump).total()
            &&& (!old(pump).running() ==> !final(pump).running())
            &&& (old(pump).reliable() ==> r is Ok)
            &&& (r is Ok || r == Err::<(), DispenseError>(DispenseError::HardwareFault))
            &&& (old(pump).running() && r is Ok ==> *final(pump) == *old(pump))
            &&& (r is Ok && !old(pump).running() && old(pump).total() + duration_ms <= u64::MAX
                ==> final(pump).total() >= old(pump).total() + duration_ms)
        },
{
    let cap_ms: u64 = safety_monitor.config.max_pump_runtime * 1000;
    if duration_ms > cap_ms {
        safety_monitor.trigger_emergency_stop("pump runtime exceeds maximum");
        return Err(DispenseError::RuntimeCapExceeded);
    }
    if safety_monitor.is_emergency_stop() {
        return Err(DispenseError::EmergencyStopActive);
    }
    match pump.dispense(duration_ms) {
        Ok(()) => Ok(()),
        Err(_) => Err(DispenseError::HardwareFault),
    }
}

/// The dispensing system: the three ingredient pumps, the temperature
/// sensor and the display, owned exclusively, plus the configuration.
pub struct DispenseController<P: Pump, S: TemperatureSensor, D: Display> {
    /// The machine's configuration.
    pub config: BotConfig,
    /// The cocoa pump.
    pub cocoa_pump: P,
    /// The milk pump.
    pub milk_pump: P,
    /// The sugar pump.
    pub sugar_pump: P,
    /// The temperature sensor.
    pub temp_sensor: S,
    /// The display.
    pub display: D,
}

impl<P: Pump, S: TemperatureSensor, D: Display> DispenseController<P, S, D> {
    /// Whether no pump differs between `pre` and `post`.
    pub open spec fn pumps_unchanged(pre: Self, post: Self) -> bool {
        &&& post.cocoa_pump == pre.cocoa_pump
        &&& post.milk_pump == pre.milk_pump
        &&& post.sugar_pump == pre.sugar_pump
    }

    /// Whether the sensor will deliver a reading inside `cfg`'s band.
    pub open spec fn sensor_in_range(self, cfg: SafetyConfig) -> bool {
        self.temp_sensor.reading() matches Some(t) && cfg.temp_in_range(t)
    }

    /// Whether the display and all three pumps are reliable and every pump
    /// is at rest.
    pub open spec fn hardware_ready(self) -> bool {
        &&& self.display.reliable()
        &&& self.milk_pump.reliable() && !self.milk_pump.running()
        &&& self.cocoa_pump.reliable() && !self.cocoa_pump.running()
        &&& self.sugar_pump.reliable() && !self.sugar_pump.running()
    }

    /// Whether every pump's odometer can take `recipe`'s durations without
    /// overflowing.
    pub open spec fn totals_fit(self, recipe: Recipe) -> bool {
        &&& self.milk_pump.total() + recipe.milk_ms <= u64::MAX
        &&& self.cocoa_pump.total() + recipe.cocoa_ms <= u64::MAX
        &&& self.sugar_pump.total() + recipe.sugar_ms <= u64::MAX
    }

    /// A controller over the given configuration and hardware handles;
    /// drivers are injected here, never constructed by the core.
    pub fn new(
        config: BotConfig,
        cocoa_pump: P,
        milk_pump: P,
        sugar_pump: P,
        temp_sensor: S,
        display: D,
    ) -> (r: Self)
        ensures
            r.config == config,
            r.cocoa_pump == cocoa_pump,
            r.milk_pump == milk_pump,
            r.sugar_pump == sugar_pump,
            r.temp_sensor == temp_sensor,
            r.display == display,
    {
        DispenseController { config, cocoa_pump, milk_pump, sugar_pump, temp_sensor, display }
    }

    /// Dispenses `recipe`: reads and validates the temperature, then runs
    /// the milk, cocoa and sugar steps in that fixed order, each behind the
    /// runtime-cap and emergency-stop interlocks. On full success the
    /// safety monitor's failure counter starts over.
    pub fn dispense_recipe(&mut self, recipe: &Recipe, safety_monitor: &mut SafetyMonitor) -> (r:
        Result<(), DispenseError>)
        requires
            old(safety_monitor).config.valid(),
        ensures
            final(self).config == old(self).config,
            final(safety_monitor).config == old(safety_monitor).config,
            final(safety_monitor).state == old(safety_monitor).state,
            final(self).temp_sensor.reading() == old(self).temp_sensor.reading(),
            final(self).display.reliable() == old(self).display.reliable(),
            old(safety_monitor).emergency_stop_triggered
                ==> final(safety_monitor).emergency_stop_triggered,
            old(safety_monitor).emergency_stop_triggered ==> Self::pumps_unchanged(
                *old(self),
                *final(self),
            ) && r is Err,
            r is Ok ==> final(safety_monitor).consecutive_failures == 0,
            r is Err ==> final(safety_monitor).consecutive_failures == old(
                safety_monitor,
            ).consecutive_failures,
            r is Ok ==> !old(safety_monitor).emergency_stop_triggered,
            // a failing sensor aborts before anything is touched
            old(self).temp_sensor.reading() is None ==> {
                &&& r == Err::<(), DispenseError>(DispenseError::SensorError)
                &&& *final(safety_monitor) == *old(safety_monitor)
                &&& Self::pumps_unchanged(*old(self), *final(self))
            },
            // a reading outside the band aborts before any pump is touched
            (old(self).temp_sensor.reading() matches Some(t) && !old(
                safety_monitor,
            ).config.temp_in_range(t)) ==> {
                &&& r == Err::<(), DispenseError>(DispenseError::OutOfRange)
                &&& *final(safety_monitor) == *old(safety_monitor)
                &&& Self::pumps_unchanged(*old(self), *final(self))
            },
            // milk over the cap: escalated before any pump is touched
            (old(self).sensor_in_range(old(safety_monitor).config) && old(
                self,
            ).display.reliable() && recipe.milk_ms > old(safety_monitor).config.runtime_cap_ms())
                ==> {
                &&& r == Err::<(), DispenseError>(DispenseError::RuntimeCapExceeded)
                &&& final(safety_monitor).emergency_stop_triggered
                &&& Self::pumps_unchanged(*old(self), *final(self))
            },
            // latch already set: aborted before any pump is touched
            (old(self).sensor_in_range(old(safety_monitor).config) && old(
                self,
            ).display.reliable() && recipe.milk_ms <= old(safety_monitor).config.runtime_cap_ms()
                && old(safety_monitor).emergency_stop_triggered) ==> {
                &&& r == Err::<(), DispenseError>(DispenseError::EmergencyStopActive)
                &&& Self::pumps_unchanged(*old(self), *final(self))
            },
            // cocoa over the cap: milk has been dispensed, the rest is aborted
            (old(self).sensor_in_range(old(safety_monitor).config) && old(self).hardware_ready()
                && old(self).totals_fit(*recipe) && !old(safety_monitor).emergency_stop_triggered
                && recipe.milk_ms <= old(safety_monitor).config.runtime_cap_ms()
                && recipe.cocoa_ms > old(safety_monitor).config.runtime_cap_ms()) ==> {
                &&& r == Err::<(), DispenseError>(DispenseError::RuntimeCapExceeded)
                &&& final(safety_monitor).emergency_stop_triggered
                &&& final(self).milk_pump.total() >= old(self).milk_pump.total() + recipe.milk_ms
                &&& final(self).cocoa_pump == old(self).cocoa_pump
                &&& final(self).sugar_pump == old(self).sugar_pump
            },
            // sugar over the cap: milk and cocoa have been dispensed
            (old(self).sensor_in_range(old(safety_monitor).config) && old(self).hardware_ready()
                && old(self).totals_fit(*recipe) && !old(safety_monitor).emergency_stop_triggered
                && recipe.milk_ms <= old(safety_monitor).config.runtime_cap_ms()
                && recipe.cocoa_ms <= old(safety_monitor).config.runtime_cap_ms()
                && recipe.sugar_ms > old(safety_monitor).config.runtime_cap_ms()) ==> {
                &&& r == Err::<(), DispenseError>(DispenseError::RuntimeCapExceeded)
                &&& final(safety_monitor).emergency_stop_triggered
                &&& final(self).milk_pump.total() >= old(self).milk_pump.total() + recipe.milk_ms
                &&& final(self).cocoa_pump.total() >= old(self).cocoa_pump.total()
                    + recipe.cocoa_ms
                &&& final(self).sugar_pump == old(self).sugar_pump
            },
            // everything within limits: the full sequence succeeds
            (old(self).sensor_in_range(old(safety_monitor).config) && old(self).hardware_ready()
                && old(self).totals_fit(*recipe) && !old(safety_monitor).emergency_stop_triggered
                && recipe.milk_ms <= old(safety_monitor).config.runtime_cap_ms()
                && recipe.cocoa_ms <= old(safety_monitor).config.runtime_cap_ms()
                && recipe.sugar_ms <= old(safety_monitor).config.runtime_cap_ms()) ==> {
                &&& r is Ok
                &&& !final(safety_monitor).emergency_stop_triggered
                &&& final(self).milk_pump.total() >= old(self).milk_pump.total() + recipe.milk_ms
                &&& final(self).cocoa_pump.total() >= old(self).cocoa_pump.total()
                    + recipe.cocoa_ms
                &&& final(self).sugar_pump.total() >= old(self).sugar_pump.total()
                    + recipe.sugar_ms
            },
    {
        let temp: i32 = match self.temp_sensor.read_temperature() {
            Ok(t) => t,
            Err(_) => {
                return Err(DispenseError::SensorError);
            },
        };
        match safety_monitor.validate_temperature(temp) {
            Ok(()) => (),
            Err(_) => {
                return Err(DispenseError::OutOfRange);
            },
        }
        let mut banner: String = ("Temp: ").to_owned();
        banner.append(format_tenths(temp).as_str());
        banner.append("C\nPreparing...");
        match self.display.show_message(banner.as_str()) {
            Ok(()) => (),
            Err(_) => {
                return Err(DispenseError::HardwareFault);
            },
        }
        match self.display.show_message("Adding milk...") {
            Ok(()) => (),
            Err(_) => {
                return Err(DispenseError::HardwareFault);
            },
        }
        match dispense_ingredient(&mut self.milk_pump, recipe.milk_ms, safety_monitor) {
            Ok(()) => (),
            Err(e) => {
                return Err(e);
            },
        }
        match self.display.show_message("Adding cocoa...") {
            Ok(()) => (),
            Err(_) => {
                return Err(DispenseError::HardwareFault);
            },
        }
        match dispense_ingredient(&mut self.cocoa_pump, recipe.cocoa_ms, safety_monitor) {
            Ok(()) => (),
            Err(e) => {
                return Err(e);
            },
        }
        match self.display.show_message("Adding sugar...") {
            Ok(()) => (),
            Err(_) => {
                return Err(DispenseError::HardwareFault);
            },
        }
        match dispense_ingredient(&mut self.sugar_pump, recipe.sugar_ms, safety_monitor) {
            Ok(()) => (),
            Err(e) => {
                return Err(e);
            },
        }
        safety_monitor.record_success();
        Ok(())
    }

    /// Shows the current system state: fails only when the sensor fails or
    /// the display refuses; nothing else is touched.
    fn show_system_status(&mut self) -> (r: Result<(), DispenseError>)
        ensures
            final(self).config == old(self).config,
            final(self).temp_sensor.reading() == old(self).temp_sensor.reading(),
            final(self).display.reliable() == old(self).display.reliable(),
            Self::pumps_unchanged(*old(self), *final(self)),
            old(self).temp_sensor.reading() is None ==> r == Err::<(), DispenseError>(
                DispenseError::SensorError,
            ),
            old(self).temp_sensor.reading() is Some && old(self).display.reliable() ==> r is Ok,
    {
        let temp: i32 = match self.temp_sensor.read_temperature() {
            Ok(t) => t,
            Err(_) => {
                return Err(DispenseError::SensorError);
            },
        };
        let mut status: String = ("Temp: ").to_owned();
        status.append(format_tenths(temp).as_str());
        status.append("C\nPumps: ready");
        match self.display.show_message(status.as_str()) {
            Ok(()) => Ok(()),
            Err(_) => Err(DispenseError::HardwareFault),
        }
    }

    /// Greets, optionally shows the system state, dispenses one standard
    /// hot chocolate, and reports completion.
    pub fn run(&mut self, safety_monitor: &mut SafetyMonitor) -> (r: Result<(), DispenseError>)
        requires
            old(safety_monitor).config.valid(),
        ensures
            final(self).config == old(self).config,
            final(safety_monitor).config == old(safety_monitor).config,
            final(safety_monitor).state == old(safety_monitor).state,
            old(safety_monitor).emergency_stop_triggered
                ==> final(safety_monitor).emergency_stop_triggered,
            old(safety_monitor).emergency_stop_triggered ==> Self::pumps_unchanged(
                *old(self),
                *final(self),
            ) && r is Err,
            r is Ok ==> final(safety_monitor).consecutive_failures == 0,
            // healthy hardware, a reading in the band and a standard recipe
            // within limits: the full run succeeds
            (old(self).sensor_in_range(old(safety_monitor).config) && old(self).hardware_ready()
                && old(self).totals_fit(old(self).config.recipes.standard) && !old(
                safety_monitor,
            ).emergency_stop_triggered && old(self).config.recipes.standard.milk_ms <= old(
                safety_monitor,
            ).config.runtime_cap_ms() && old(self).config.recipes.standard.cocoa_ms <= old(
                safety_monitor,
            ).config.runtime_cap_ms() && old(self).config.recipes.standard.sugar_ms <= old(
                safety_monitor,
            ).config.runtime_cap_ms()) ==> {
                &&& r is Ok
                &&& final(self).milk_pump.total() >= old(self).milk_pump.total() + old(
                    self,
                ).config.recipes.standard.milk_ms
                &&& final(self).cocoa_pump.total() >= old(self).cocoa_pump.total() + old(
                    self,
                ).config.recipes.standard.cocoa_ms
                &&& final(self).sugar_pump.total() >= old(self).sugar_pump.total() + old(
                    self,
                ).config.recipes.standard.sugar_ms
            },
    {
        match self.display.show_message("Ready!") {
            Ok(()) => (),
            Err(_) => {
                return Err(DispenseError::HardwareFault);
            },
        }
        if self.config.education.show_internals {
            match self.show_system_status() {
                Ok(()) => (),
                Err(e) => {
                    return Err(e);
                },
            }
        }
        let recipe: Recipe = self.config.recipes.standard;
        match self.dispense_recipe(&recipe, safety_monitor) {
            Ok(()) => (),
            Err(e) => {
                return Err(e);
            },
        }
        match self.display.show_message("Complete! Enjoy!") {
            Ok(()) => Ok(()),
            Err(_) => Err(DispenseError::HardwareFault),
        }
    }

    /// Reads the three pump odometers; nothing is mutated.
    pub fn get_pump_stats(&self) -> (r: PumpStats)
        ensures
            r.cocoa_runtime_ms == self.cocoa_pump.total(),
            r.milk_runtime_ms == self.milk_pump.total(),
            r.sugar_runtime_ms == self.sugar_pump.total(),
    {
        PumpStats {
            cocoa_runtime_ms: self.cocoa_pump.total_runtime_ms(),
            milk_runtime_ms: self.milk_pump.total_runtime_ms(),
            sugar_runtime_ms: self.sugar_pump.total_runtime_ms(),
        }
    }
}

} // verus!
