//! Tests for the mock hardware, the sensor resilience policy and the LCD
//! byte framing.

use hotchocolabot::hardware::{
    decode_sensor_reading, lcd_command_frame, lcd_cursor_offset, lcd_data_frame, Display,
    EmergencyStop, HardwareError, Pump, SensorResilience, StatusLed, TemperatureSensor,
};
use hotchocolabot::mock::{
    MockDisplay, MockEmergencyStop, MockPump, MockStatusLed, MockTemperatureSensor,
};

#[test]
fn test_mock_pump() {
    let mut pump = MockPump::new("test");
    assert!(!pump.is_running());

    pump.dispense(100).unwrap();

    assert!(!pump.is_running());
    assert!(pump.total_runtime_ms() >= 100);
}

#[test]
fn test_mock_pump_counter_reset() {
    let mut pump = MockPump::new("test");
    pump.dispense(50).unwrap();
    assert!(pump.total_runtime_ms() > 0);

    pump.reset_counter();
    assert_eq!(pump.total_runtime_ms(), 0);
}

#[test]
fn test_mock_pump_accumulates() {
    let mut pump = MockPump::new("test");
    pump.dispense(100).unwrap();
    pump.dispense(250).unwrap();
    assert!(pump.total_runtime_ms() >= 350);
    pump.stop().unwrap();
    assert!(!pump.is_running());
}

#[test]
fn test_mock_temperature_sensor() {
    let mut sensor = MockTemperatureSensor::new(250);
    let temp = sensor.read_temperature().unwrap();
    assert_eq!(temp, 250);

    sensor.set_temperature(300);
    let temp = sensor.read_temperature().unwrap();
    assert_eq!(temp, 300);
    assert!(sensor.is_healthy());
}

#[test]
fn test_mock_display() {
    let mut display = MockDisplay::new();
    display.write("Hello").unwrap();
    assert_eq!(display.get_buffer(), "Hello");

    display.clear().unwrap();
    assert_eq!(display.get_buffer(), "");
}

#[test]
fn test_mock_display_show_message_replaces() {
    let mut display = MockDisplay::new();
    display.write("old text").unwrap();
    display.show_message("fresh").unwrap();
    assert_eq!(display.get_buffer(), "fresh");
    display.set_cursor(0, 0).unwrap();
    assert_eq!(display.get_buffer(), "fresh");
}

#[test]
fn test_mock_emergency_stop() {
    let mut estop = MockEmergencyStop::new();
    assert!(!estop.is_pressed());

    estop.press();
    assert!(estop.is_pressed());

    estop.release();
    assert!(!estop.is_pressed());
}

#[test]
fn test_mock_emergency_stop_callback_registration() {
    let mut estop = MockEmergencyStop::new();
    estop.on_press(|| {});
    assert!(!estop.is_pressed());
    estop.press();
    assert!(estop.is_pressed());
}

#[test]
fn test_mock_status_led() {
    let mut led = MockStatusLed::new();
    assert!(!led.is_on());
    led.on().unwrap();
    assert!(led.is_on());
    led.off().unwrap();
    assert!(!led.is_on());
    led.blink(10, 10, 3).unwrap();
    assert!(!led.is_on());
}

#[test]
fn test_resilience_reports_fresh_reading() {
    let mut policy = SensorResilience::new();
    assert_eq!(policy.process_reading(Some(215)), Ok(215));
    assert_eq!(policy.consecutive_failures, 0);
    assert!(policy.is_healthy());
}

#[test]
fn test_resilience_substitutes_last_known_value() {
    let mut policy = SensorResilience::new();
    policy.process_reading(Some(215)).unwrap();
    for _ in 0..5 {
        assert_eq!(policy.process_reading(None), Ok(215));
    }
    // the sixth consecutive failure is no longer transient
    assert_eq!(policy.process_reading(None), Err(HardwareError::Fault));
}

#[test]
fn test_resilience_fails_without_history() {
    let mut policy = SensorResilience::new();
    assert_eq!(policy.process_reading(None), Err(HardwareError::Fault));
}

#[test]
fn test_resilience_health_threshold() {
    let mut policy = SensorResilience::new();
    policy.process_reading(Some(200)).unwrap();
    policy.process_reading(None).unwrap();
    policy.process_reading(None).unwrap();
    assert!(policy.is_healthy());
    policy.process_reading(None).unwrap();
    assert!(!policy.is_healthy());
    policy.process_reading(Some(210)).unwrap();
    assert!(policy.is_healthy());
}

#[test]
fn test_lcd_command_frame_bytes() {
    // clear-display command: high nibble 0x0, low nibble 0x1, rs low
    assert_eq!(lcd_command_frame(0x01), vec![0x0C, 0x08, 0x1C, 0x18]);
}

#[test]
fn test_lcd_data_frame_bytes() {
    // 'A' is 0x41: high nibble 0x4, low nibble 0x1, rs high
    assert_eq!(lcd_data_frame(0x41), vec![0x4D, 0x49, 0x1D, 0x19]);
}

#[test]
fn test_lcd_cursor_offsets() {
    assert_eq!(lcd_cursor_offset(0, 0), 0x00);
    assert_eq!(lcd_cursor_offset(1, 5), 0x45);
    assert_eq!(lcd_cursor_offset(2, 0), 0x14);
    assert_eq!(lcd_cursor_offset(3, 7), 0x5B);
}

#[test]
fn test_format_tenths_renders_one_decimal() {
    assert_eq!(hotchocolabot::text::format_tenths(650), "65.0");
    assert_eq!(hotchocolabot::text::format_tenths(655), "65.5");
    assert_eq!(hotchocolabot::text::format_tenths(0), "0.0");
    assert_eq!(hotchocolabot::text::format_tenths(-5), "-0.5");
    assert_eq!(hotchocolabot::text::format_tenths(-123), "-12.3");
}

#[test]
fn test_format_u64_decimal() {
    assert_eq!(hotchocolabot::text::format_u64(0), "0");
    assert_eq!(hotchocolabot::text::format_u64(7), "7");
    assert_eq!(hotchocolabot::text::format_u64(1234), "1234");
    assert_eq!(hotchocolabot::text::format_u64(1000), "1000");
}

#[test]
fn test_decode_sensor_reading() {
    // 0x410 raw is 65.0 degrees Celsius
    assert_eq!(decode_sensor_reading(0x41, 0x00), 650);
    // 0x190 raw is 25.0 degrees Celsius
    assert_eq!(decode_sensor_reading(0x19, 0x00), 250);
    assert_eq!(decode_sensor_reading(0x00, 0x00), 0);
    // half a degree: 0x008 raw is 0.5 degrees Celsius
    assert_eq!(decode_sensor_reading(0x00, 0x80), 5);
}
