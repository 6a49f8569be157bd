//! Configuration data for the dispensing system.
//!
//! Temperatures are carried as whole tenths of a degree Celsius so that the
//! safety bounds can be compared exactly; `650` means 65.0 degrees.

use vstd::prelude::*;

verus! {

/// Hardware pin assignments and bus addresses.
#[derive(Clone, Copy, Debug, PartialEq, Eq, Structural)]
pub struct HardwareConfig {
    /// GPIO pin for the cocoa pump.
    pub cocoa_pump_pin: u8,
    /// GPIO pin for the milk pump.
    pub milk_pump_pin: u8,
    /// GPIO pin for the sugar pump.
    pub sugar_pump_pin: u8,
    /// I2C address of the temperature sensor.
    pub temp_sensor_addr: u8,
    /// I2C address of the LCD display.
    pub lcd_addr: u8,
    /// GPIO pin for the emergency stop button.
    pub emergency_stop_pin: u8,
    /// GPIO pin for the status LED.
    pub status_led_pin: u8,
}

/// Safety limits, supplied once when the safety monitor is constructed.
#[derive(Clone, Copy, Debug, PartialEq, Eq, Structural)]
pub struct SafetyConfig {
    /// Highest permitted temperature, in tenths of a degree Celsius.
    pub max_temperature: i32,
    /// Lowest permitted temperature, in tenths of a degree Celsius.
    pub min_temperature: i32,
    /// Longest a pump may run during one ingredient step, in seconds.
    pub max_pump_runtime: u64,
    /// Timeout for a whole operation, in seconds.
    pub operation_timeout: u64,
    /// Whether verbose safety reporting is wanted.
    pub verbose_logging: bool,
    /// Whether the emergency stop button is wired in.
    pub emergency_stop_enabled: bool,
}

impl SafetyConfig {
    /// The temperature band in which dispensing is allowed; both ends are
    /// included.
    pub open spec fn temp_in_range(self, temp: i32) -> bool {
        self.min_temperature <= temp && temp <= self.max_temperature
    }

    /// The longest permitted single pump actuation, in milliseconds.
    pub open spec fn runtime_cap_ms(self) -> int {
        self.max_pump_runtime * 1000
    }

    /// A usable configuration: a non-empty temperature band, a positive
    /// runtime cap, and a cap whose millisecond form fits in a `u64`.
    pub open spec fn valid(self) -> bool {
        &&& self.min_temperature < self.max_temperature
        &&& self.max_pump_runtime > 0
        &&& self.max_pump_runtime * 1000 <= u64::MAX
    }
}

/// One recipe: how long each ingredient pump runs, and the temperature the
/// drink is aimed at (tenths of a degree Celsius).
#[derive(Clone, Copy, Debug, PartialEq, Eq, Structural)]
pub struct Recipe {
    /// Cocoa dispense time in milliseconds.
    pub cocoa_ms: u64,
    /// Milk dispense time in milliseconds.
    pub milk_ms: u64,
    /// Sugar dispense time in milliseconds.
    pub sugar_ms: u64,
    /// Target temperature in tenths of a degree Celsius.
    pub target_temp: i32,
}

/// The three built-in recipes.
#[derive(Clone, Copy, Debug, PartialEq, Eq, Structural)]
pub struct RecipeConfig {
    /// Standard hot chocolate.
    pub standard: Recipe,
    /// Less cocoa.
    pub light: Recipe,
    /// More cocoa.
    pub rich: Recipe,
}

/// Settings for the teaching mode of the machine.
#[derive(Clone, Copy, Debug, PartialEq, Eq, Structural)]
pub struct EducationConfig {
    /// Enable the student challenge mode.
    pub challenge_mode: bool,
    /// Show detailed system state while running.
    pub show_internals: bool,
    /// Enable intentional failures for teaching.
    pub enable_teaching_failures: bool,
    /// Pause between operations so students can watch, in milliseconds.
    pub observation_delay_ms: u64,
}

/// Everything the machine is configured with.
#[derive(Clone, Copy, Debug, PartialEq, Eq, Structural)]
pub struct BotConfig {
    /// Pin and address assignments.
    pub hardware: HardwareConfig,
    /// Safety limits.
    pub safety: SafetyConfig,
    /// The built-in recipes.
    pub recipes: RecipeConfig,
    /// Teaching mode settings.
    pub education: EducationConfig,
}

/// Why a configuration was rejected.
#[derive(Clone, Copy, Debug, PartialEq, Eq, Structural)]
pub enum ConfigError {
    /// `max_temperature` does not exceed `min_temperature`.
    TemperatureRangeInvalid,
    /// `max_pump_runtime` is zero, or too large for a millisecond count.
    PumpRuntimeInvalid,
}

impl BotConfig {
    /// Checks the safety limits; dispensing code relies on
    /// [`SafetyConfig::valid`] holding.
    pub fn validate(&self) -> (r: Result<(), ConfigError>)
        ensures
            r is Ok <==> self.safety.valid(),
            self.safety.min_temperature >= self.safety.max_temperature ==> r
                == Err::<(), ConfigError>(ConfigError::TemperatureRangeInvalid),
            self.safety.min_temperature < self.safety.max_temperature && !self.safety.valid()
                ==> r == Err::<(), ConfigError>(ConfigError::PumpRuntimeInvalid),
    {
        if self.safety.max_temperature <= self.safety.min_temperature {
            return Err(ConfigError::TemperatureRangeInvalid);
        }
        if self.safety.max_pump_runtime == 0 {
            return Err(ConfigError::PumpRuntimeInvalid);
        }
        if self.safety.max_pump_runtime > u64::MAX / 1000 {
            return Err(ConfigError::PumpRuntimeInvalid);
        }
        Ok(())
    }

    /// The configuration the machine falls back to when no file is given.
    pub open spec fn spec_default() -> BotConfig {
        BotConfig {
            hardware: HardwareConfig {
                cocoa_pump_pin: 17,
                milk_pump_pin: 27,
                sugar_pump_pin: 22,
                temp_sensor_addr: 0x48,
                lcd_addr: 0x27,
                emergency_stop_pin: 23,
                status_led_pin: 24,
            },
            safety: SafetyConfig {
                max_temperature: 900,
                min_temperature: 50,
                max_pump_runtime: 30,
                operation_timeout: 120,
                verbose_logging: true,
                emergency_stop_enabled: true,
            },
            recipes: RecipeConfig {
                standard: Recipe { cocoa_ms: 2000, milk_ms: 5000, sugar_ms: 1000, target_temp: 650 },
                light: Recipe { cocoa_ms: 1000, milk_ms: 6000, sugar_ms: 800, target_temp: 650 },
                rich: Recipe { cocoa_ms: 3000, milk_ms: 4000, sugar_ms: 1200, target_temp: 700 },
            },
            education: EducationConfig {
                challenge_mode: false,
                show_internals: true,
                enable_teaching_failures: false,
                observation_delay_ms: 500,
            },
        }
    }
}

impl Default for BotConfig {
    fn default() -> (c: Self)
        ensures
            c == Self::spec_default(),
            c.safety.valid(),
    {
        BotConfig {
            hardware: HardwareConfig {
                cocoa_pump_pin: 17,
                milk_pump_pin: 27,
                sugar_pump_pin: 22,
                temp_sensor_addr: 0x48,
                lcd_addr: 0x27,
                emergency_stop_pin: 23,
                status_led_pin: 24,
            },
            safety: SafetyConfig {
                max_temperature: 900,
                min_temperature: 50,
                max_pump_runtime: 30,
                operation_timeout: 120,
                verbose_logging: true,
                emergency_stop_enabled: true,
            },
            recipes: RecipeConfig {
                standard: Recipe { cocoa_ms: 2000, milk_ms: 5000, sugar_ms: 1000, target_temp: 650 },
                light: Recipe { cocoa_ms: 1000, milk_ms: 6000, sugar_ms: 800, target_temp: 650 },
                rich: Recipe { cocoa_ms: 3000, milk_ms: 4000, sugar_ms: 1200, target_temp: 700 },
            },
            education: EducationConfig {
                challenge_mode: false,
                show_internals: true,
                enable_teaching_failures: false,
                observation_delay_ms: 500,
            },
        }
    }
}

} // verus!
