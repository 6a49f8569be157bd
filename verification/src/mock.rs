//! Mock hardware for testing without physical devices.
//!
//! Every mock is verified against the capability contracts in
//! [`crate::hardware`]; a mock's operations never fail, so each reports
//! itself `reliable`. The mocks account dispense time instantly instead of
//! suspending: a mock pump adds the requested duration straight to its
//! odometer.

use vstd::prelude::*;
use vstd::string::StringExecFns;

use crate::hardware::{Display, EmergencyStop, HardwareError, Pump, StatusLed, TemperatureSensor};

verus! {

/// A pump that only keeps books.
#[derive(Clone, Debug)]
pub struct MockPump {
    /// A label for reports.
    pub name: String,
    /// Whether the motor is nominally on.
    pub running: bool,
    /// Accumulated runtime in milliseconds.
    pub runtime_ms: u64,
}

impl MockPump {
    /// A stopped pump with a zero odometer.
    pub fn new(name: &str) -> (r: Self)
        ensures
            r.name@ == name@,
            !r.running,
            r.runtime_ms == 0,
    {
        MockPump { name: name.to_owned(), running: false, runtime_ms: 0 }
    }
}

impl Pump for MockPump {
    open spec fn running(&self) -> bool {
        self.running
    }

    open spec fn total(&self) -> u64 {
        self.runtime_ms
    }

    open spec fn reliable(&self) -> bool {
        true
    }

    fn dispense(&mut self, duration_ms: u64) -> (r: Result<(), HardwareError>) {
        if self.running {
            return Ok(());
        }
        if self.runtime_ms <= u64::MAX - duration_ms {
            self.runtime_ms = self.runtime_ms + duration_ms;
        } else {
            self.runtime_ms = u64::MAX;
        }
        Ok(())
    }

    fn stop(&mut self) -> (r: Result<(), HardwareError>) {
        self.running = false;
        Ok(())
    }

    fn is_running(&self) -> (r: bool) {
        self.running
    }

    fn total_runtime_ms(&self) -> (r: u64) {
        self.runtime_ms
    }

    fn reset_counter(&mut self) {
        self.runtime_ms = 0;
    }
}

/// A sensor that reports a settable fixed temperature.
#[derive(Clone, Copy, Debug, PartialEq, Eq, Structural)]
pub struct MockTemperatureSensor {
    /// The temperature every read reports, in tenths of a degree Celsius.
    pub temperature: i32,
}

impl MockTemperatureSensor {
    /// A sensor that will report `initial_temp`.
    pub fn new(initial_temp: i32) -> (r: Self)
        ensures
            r.temperature == initial_temp,
    {
        MockTemperatureSensor { temperature: initial_temp }
    }

    /// Changes what the sensor reports.
    pub fn set_temperature(&mut self, temp: i32)
        ensures
            final(self).temperature == temp,
    {
        self.temperature = temp;
    }
}

impl TemperatureSensor for MockTemperatureSensor {
    open spec fn reading(&self) -> Option<i32> {
        Some(self.temperature)
    }

    open spec fn healthy(&self) -> bool {
        true
    }

    fn read_temperature(&mut self) -> (r: Result<i32, HardwareError>) {
        Ok(self.temperature)
    }

    fn is_healthy(&self) -> (r: bool) {
        true
    }
}

/// A display that collects its text in a buffer.
#[derive(Clone, Debug)]
pub struct MockDisplay {
    /// Everything written since the last clear.
    pub buffer: String,
}

impl MockDisplay {
    /// An empty display.
    pub fn new() -> (r: Self)
        ensures
            r.buffer@ == Seq::<char>::empty(),
    {
        MockDisplay { buffer: String::new() }
    }

    /// The text currently shown.
    pub fn get_buffer(&self) -> (r: String)
        ensures
            r@ == self.buffer@,
    {
        self.buffer.clone()
    }
}

impl Display for MockDisplay {
    open spec fn content(&self) -> String {
        self.buffer
    }

    open spec fn reliable(&self) -> bool {
        true
    }

    open spec fn in_bounds(&self, row: u8, col: u8) -> bool {
        true
    }

    fn write(&mut self, text: &str) -> (r: Result<(), HardwareError>) {
        self.buffer.append(text);
        Ok(())
    }

    fn clear(&mut self) -> (r: Result<(), HardwareError>) {
        self.buffer = String::new();
        Ok(())
    }

    fn set_cursor(&mut self, row: u8, col: u8) -> (r: Result<(), HardwareError>) {
        Ok(())
    }
}

/// An emergency stop button driven from test code.
#[derive(Clone, Copy, Debug, PartialEq, Eq, Structural)]
pub struct MockEmergencyStop {
    /// Whether the button is held down.
    pub pressed: bool,
}

impl MockEmergencyStop {
    /// A released button.
    pub fn new() -> (r: Self)
        ensures
            !r.pressed,
    {
        MockEmergencyStop { pressed: false }
    }

    /// Simulates pressing the button.
    pub fn press(&mut self)
        ensures
            final(self).pressed,
    {
        self.pressed = true;
    }

    /// Simulates releasing the button.
    pub fn release(&mut self)
        ensures
            !final(self).pressed,
    {
        self.pressed = false;
    }
}

impl EmergencyStop for MockEmergencyStop {
    open spec fn pressed(&self) -> bool {
        self.pressed
    }

    fn is_pressed(&self) -> (r: bool) {
        self.pressed
    }

    fn on_press<F: Fn() -> () + Send + 'static>(&mut self, _callback: F) {
    }
}

/// A status LED that only keeps its state.
#[derive(Clone, Copy, Debug, PartialEq, Eq, Structural)]
pub struct MockStatusLed {
    /// Whether the LED is lit.
    pub lit: bool,
}

impl MockStatusLed {
    /// A dark LED.
    pub fn new() -> (r: Self)
        ensures
            !r.lit,
    {
        MockStatusLed { lit: false }
    }

    /// Whether the LED is lit.
    pub fn is_on(&self) -> (r: bool)
        ensures
            r == self.lit,
    {
        self.lit
    }
}

impl StatusLed for MockStatusLed {
    open spec fn lit(&self) -> bool {
        self.lit
    }

    open spec fn reliable(&self) -> bool {
        true
    }

    fn on(&mut self) -> (r: Result<(), HardwareError>) {
        self.lit = true;
        Ok(())
    }

    fn off(&mut self) -> (r: Result<(), HardwareError>) {
        self.lit = false;
        Ok(())
    }

    fn blink(&mut self, on_ms: u64, off_ms: u64, count: u32) -> (r: Result<(), HardwareError>) {
        let mut i: u32 = 0;
        while i < count
            invariant
                i <= count,
                count > 0 && i > 0 ==> !self.lit,
                i == 0 ==> self == old(self),
            decreases count - i,
        {
            self.lit = true;
            self.lit = false;
            i = i + 1;
        }
        Ok(())
    }
}

} // verus!
