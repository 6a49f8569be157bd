//! Capability interfaces the dispensing core depends on.
//!
//! The core never touches a concrete driver: it drives pumps, reads the
//! temperature sensor and writes the display only through the traits here.
//! Each trait carries the contract the core relies on; the mock
//! implementations in [`crate::mock`] are verified against these contracts,
//! while real drivers outside the library must honour them by construction.
//!
//! The module also holds the pure pieces of driver behaviour that are worth
//! verifying on their own: the sensor resilience policy and the byte framing
//! for an HD44780-style LCD behind an I2C expander.

use vstd::prelude::*;

verus! {

/// A failure reported by a hardware capability.
#[derive(Clone, Copy, Debug, PartialEq, Eq, Structural)]
pub enum HardwareError {
    /// The device did not carry out the operation.
    Fault,
    /// A cursor position outside the display's geometry.
    OutOfBounds,
}

/// A controllable ingredient pump.
///
/// `total()` models the pump's runtime odometer and `running()` its motor
/// state. `reliable()` marks an implementation whose operations always
/// succeed (the mock); a real driver may fail and then promises nothing
/// beyond the clauses guarded on `Ok`.
pub trait Pump: Sized {
    /// Whether the pump motor is currently on.
    spec fn running(&self) -> bool;

    /// Total runtime accumulated since the last counter reset, in
    /// milliseconds.
    spec fn total(&self) -> u64;

    /// Whether this implementation's operations always succeed.
    spec fn reliable(&self) -> bool;

    /// Runs the pump for `duration_ms` milliseconds. A pump that is already
    /// running is left alone rather than double-started.
    fn dispense(&mut self, duration_ms: u64) -> (r: Result<(), HardwareError>)
        ensures
            final(self).reliable() == old(self).reliable(),
            old(self).reliable() ==> r is Ok,
            old(self).running() && r is Ok ==> *final(self) == *old(self),
            !old(self).running() ==> !final(self).running(),
            final(self).total() >= old(self).total(),
            r is Ok && !old(self).running() && old(self).total() + duration_ms <= u64::MAX
                ==> final(self).total() >= old(self).total() + duration_ms,
    ;

    /// Stops the pump immediately.
    fn stop(&mut self) -> (r: Result<(), HardwareError>)
        ensures
            final(self).reliable() == old(self).reliable(),
            old(self).reliable() ==> r is Ok,
            r is Ok ==> !final(self).running(),
            final(self).total() >= old(self).total(),
    ;

    /// Whether the pump is currently running.
    fn is_running(&self) -> (r: bool)
        ensures
            r == self.running(),
    ;

    /// The runtime odometer, in milliseconds.
    fn total_runtime_ms(&self) -> (r: u64)
        ensures
            r == self.total(),
    ;

    /// Resets the runtime odometer to zero.
    fn reset_counter(&mut self)
        ensures
            final(self).reliable() == old(self).reliable(),
            final(self).running() == old(self).running(),
            final(self).total() == 0,
    ;
}

/// A temperature sensor.
///
/// `reading()` models what the sensor will report: `Some(t)` for a reading of
/// `t` tenths of a degree Celsius, `None` for a sensor that is failing.
pub trait TemperatureSensor: Sized {
    /// The value the sensor reports, or `None` while it is failing.
    spec fn reading(&self) -> Option<i32>;

    /// Whether the sensor considers itself healthy.
    spec fn healthy(&self) -> bool;

    /// Reads the current temperature in tenths of a degree Celsius.
    fn read_temperature(&mut self) -> (r: Result<i32, HardwareError>)
        ensures
            final(self).reading() == old(self).reading(),
            match r {
                Ok(t) => old(self).reading() == Some(t),
                Err(_) => old(self).reading() is None,
            },
    ;

    /// Whether the sensor is functioning.
    fn is_healthy(&self) -> (r: bool)
        ensures
            r == self.healthy(),
    ;
}

/// A character display.
///
/// `content()` models the visible text; `in_bounds` the display's geometry;
/// `reliable()` marks an implementation whose operations always succeed.
pub trait Display: Sized {
    /// The text currently shown.
    spec fn content(&self) -> String;

    /// Whether this implementation's operations always succeed.
    spec fn reliable(&self) -> bool;

    /// Whether `(row, col)` lies inside the display's geometry.
    spec fn in_bounds(&self, row: u8, col: u8) -> bool;

    /// Appends `text` to the display.
    fn write(&mut self, text: &str) -> (r: Result<(), HardwareError>)
        ensures
            final(self).reliable() == old(self).reliable(),
            old(self).reliable() ==> r is Ok,
            r is Ok ==> final(self).content()@ == old(self).content()@ + text@,
    ;

    /// Blanks the display.
    fn clear(&mut self) -> (r: Result<(), HardwareError>)
        ensures
            final(self).reliable() == old(self).reliable(),
            old(self).reliable() ==> r is Ok,
            r is Ok ==> final(self).content()@ == Seq::<char>::empty(),
    ;

    /// Moves the cursor; refused with `OutOfBounds` when the position lies
    /// outside the display's geometry.
    fn set_cursor(&mut self, row: u8, col: u8) -> (r: Result<(), HardwareError>)
        ensures
            final(self).reliable() == old(self).reliable(),
            !old(self).in_bounds(row, col) ==> r == Err::<(), HardwareError>(
                HardwareError::OutOfBounds,
            ),
            old(self).reliable() && old(self).in_bounds(row, col) ==> r is Ok,
            r is Ok ==> final(self).content()@ == old(self).content()@,
    ;

    /// Blanks the display and shows `message`.
    fn show_message(&mut self, message: &str) -> (r: Result<(), HardwareError>)
        ensures
            final(self).reliable() == old(self).reliable(),
            old(self).reliable() ==> r is Ok,
            r is Ok ==> final(self).content()@ == message@,
    {
        match self.clear() {
            Ok(()) => self.write(message),
            Err(e) => Err(e),
        }
    }
}

/// An emergency stop button.
pub trait EmergencyStop: Sized {
    /// Whether the button is held down.
    spec fn pressed(&self) -> bool;

    /// Reads the button.
    fn is_pressed(&self) -> (r: bool)
        ensures
            r == self.pressed(),
    ;

    /// Registers a callback for press events; the button itself is not
    /// changed by registering.
    fn on_press<F: Fn() -> () + Send + 'static>(&mut self, callback: F)
        ensures
            final(self).pressed() == old(self).pressed(),
    ;
}

/// A status LED.
pub trait StatusLed: Sized {
    /// Whether the LED is lit.
    spec fn lit(&self) -> bool;

    /// Whether this implementation's operations always succeed.
    spec fn reliable(&self) -> bool;

    /// Turns the LED on.
    fn on(&mut self) -> (r: Result<(), HardwareError>)
        ensures
            final(self).reliable() == old(self).reliable(),
            old(self).reliable() ==> r is Ok,
            r is Ok ==> final(self).lit(),
    ;

    /// Turns the LED off.
    fn off(&mut self) -> (r: Result<(), HardwareError>)
        ensures
            final(self).reliable() == old(self).reliable(),
            old(self).reliable() ==> r is Ok,
            r is Ok ==> !final(self).lit(),
    ;

    /// Blinks the LED `count` times; it ends dark.
    fn blink(&mut self, on_ms: u64, off_ms: u64, count: u32) -> (r: Result<(), HardwareError>)
        ensures
            final(self).reliable() == old(self).reliable(),
            old(self).reliable() ==> r is Ok,
            r is Ok && count > 0 ==> !final(self).lit(),
            count == 0 ==> *final(self) == *old(self),
    ;
}

/// The resilience policy a temperature sensor driver applies to raw reads:
/// keep the last good value across transient failures, and hard-fail once too
/// many reads in a row have failed.
#[derive(Clone, Copy, Debug, PartialEq, Eq, Structural)]
pub struct SensorResilience {
    /// The most recent successful reading, in tenths of a degree Celsius.
    pub last_reading: Option<i32>,
    /// How many reads in a row have failed.
    pub consecutive_failures: u32,
}

/// How many consecutive raw-read failures the resilience policy tolerates
/// before it stops substituting the last known reading.
pub const MAX_TRANSIENT_FAILURES: u32 = 5;

/// Consecutive failures at or above this count mark the sensor unhealthy.
pub const UNHEALTHY_FAILURES: u32 = 3;

impl SensorResilience {
    /// A fresh policy state: no reading seen, no failures.
    pub fn new() -> (r: Self)
        ensures
            r.last_reading is None,
            r.consecutive_failures == 0,
    {
        SensorResilience { last_reading: None, consecutive_failures: 0 }
    }

    /// Folds one raw read outcome (`Some(t)` for a successful read of `t`,
    /// `None` for a failed one) into the policy state and decides what the
    /// driver reports: the fresh value, the last known value while failures
    /// are still transient, or a fault.
    pub fn process_reading(&mut self, raw: Option<i32>) -> (r: Result<i32, HardwareError>)
        ensures
            raw matches Some(t) ==> {
                &&& r == Ok::<i32, HardwareError>(t)
                &&& final(self).last_reading == Some(t)
                &&& final(self).consecutive_failures == 0
            },
            raw is None ==> {
                &&& final(self).last_reading == old(self).last_reading
                &&& final(self).consecutive_failures == (
                    if old(self).consecutive_failures < u32::MAX {
                        old(self).consecutive_failures + 1
                    } else {
                        u32::MAX as int
                    })
            },
            raw is None && final(self).consecutive_failures > MAX_TRANSIENT_FAILURES ==> r
                == Err::<i32, HardwareError>(HardwareError::Fault),
            raw is None && final(self).consecutive_failures <= MAX_TRANSIENT_FAILURES ==> r == (
            match old(self).last_reading {
                Some(last) => Ok::<i32, HardwareError>(last),
                None => Err::<i32, HardwareError>(HardwareError::Fault),
            }),
    {
        match raw {
            Some(t) => {
                self.last_reading = Some(t);
                self.consecutive_failures = 0;
                Ok(t)
            },
            None => {
                if self.consecutive_failures < u32::MAX {
                    self.consecutive_failures = self.consecutive_failures + 1;
                }
                if self.consecutive_failures > MAX_TRANSIENT_FAILURES {
                    Err(HardwareError::Fault)
                } else {
                    match self.last_reading {
                        Some(last) => Ok(last),
                        None => Err(HardwareError::Fault),
                    }
                }
            },
        }
    }

    /// Whether the sensor behind this policy still counts as healthy.
    pub fn is_healthy(&self) -> (r: bool)
        ensures
            r == (self.consecutive_failures < UNHEALTHY_FAILURES),
    {
        self.consecutive_failures < UNHEALTHY_FAILURES
    }
}

/// The temperature encoded by a TMP102-style 12-bit register pair: `msb`
/// holds the top eight bits and the top nibble of `lsb` the bottom four; one
/// step is one sixteenth of a degree Celsius. The result is in tenths of a
/// degree, rounded to the nearest.
pub open spec fn sensor_reading_tenths(msb: u8, lsb: u8) -> int {
    ((msb * 16 + lsb / 16) * 5 + 4) / 8
}

/// Decodes one raw sensor register pair into tenths of a degree Celsius.
pub fn decode_sensor_reading(msb: u8, lsb: u8) -> (r: i32)
    ensures
        r == sensor_reading_tenths(msb, lsb),
{
    let raw: i32 = (msb as i32) * 16 + (lsb as i32) / 16;
    (raw * 5 + 4) / 8
}

/// The start address of each display row in HD44780 display memory.
pub open spec fn lcd_row_base(row: u8) -> u8 {
    if row == 0 {
        0x00
    } else if row == 1 {
        0x40
    } else if row == 2 {
        0x14
    } else {
        0x54
    }
}

/// The display-memory address of a cursor position.
pub fn lcd_cursor_offset(row: u8, col: u8) -> (r: u8)
    requires
        row < 4,
        col < 64,
    ensures
        r == lcd_row_base(row) + col,
{
    let base: u8 = if row == 0 {
        0x00
    } else if row == 1 {
        0x40
    } else if row == 2 {
        0x14
    } else {
        0x54
    };
    base + col
}

/// The two bytes that clock one nibble into an HD44780 behind an I2C
/// expander: the nibble with the control bits and enable high, then the same
/// with enable dropped.
pub open spec fn lcd_nibble_pair(nibble_with_ctrl: u8) -> Seq<u8> {
    seq![nibble_with_ctrl, nibble_with_ctrl & 0xFB]
}

/// The four bytes that send one command byte (register-select low) to an
/// HD44780 behind an I2C expander: high nibble first, then low nibble, each
/// clocked by an enable pulse.
pub fn lcd_command_frame(cmd: u8) -> (r: Vec<u8>)
    ensures
        r@ == lcd_nibble_pair((cmd & 0xF0) | 0x0C) + lcd_nibble_pair(((cmd << 4) & 0xF0) | 0x0C),
{
    let high: u8 = (cmd & 0xF0) | 0x0C;
    let low: u8 = ((cmd << 4) & 0xF0) | 0x0C;
    let mut frame: Vec<u8> = Vec::new();
    frame.push(high);
    frame.push(high & 0xFB);
    frame.push(low);
    frame.push(low & 0xFB);
    proof {
        assert(frame@ =~= lcd_nibble_pair((cmd & 0xF0) | 0x0C) + lcd_nibble_pair(
            ((cmd << 4) & 0xF0) | 0x0C,
        ));
    }
    frame
}

/// The four bytes that send one data byte (register-select high) to an
/// HD44780 behind an I2C expander.
pub fn lcd_data_frame(data: u8) -> (r: Vec<u8>)
    ensures
        r@ == lcd_nibble_pair((data & 0xF0) | 0x0D) + lcd_nibble_pair(((data << 4) & 0xF0) | 0x0D),
{
    let high: u8 = (data & 0xF0) | 0x0D;
    let low: u8 = ((data << 4) & 0xF0) | 0x0D;
    let mut frame: Vec<u8> = Vec::new();
    frame.push(high);
    frame.push(high & 0xFB);
    frame.push(low);
    frame.push(low & 0xFB);
    proof {
        assert(frame@ =~= lcd_nibble_pair((data & 0xF0) | 0x0D) + lcd_nibble_pair(
            ((data << 4) & 0xF0) | 0x0D,
        ));
    }
    frame
}

} // verus!
