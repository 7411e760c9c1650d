use std::collections::HashMap;

use embedded_hal::i2c::{ErrorKind, NoAcknowledgeSource};

use tof_display::cycle::{cycle_step, decimal_text, range_text, CycleAction, CycleStage, CYCLE_INTERVAL_MS};
use tof_display::frame::{read_frame, write_frame, BusReply, Transfer, TransportError};
use tof_display::oled::Oled;
use tof_display::vl6180x::{config_entry, Register, SensorError, Stage, CONFIG_LEN, DEFAULT_ADDRESS, MODEL_ID, VL6180X};

const NACK: TransportError = TransportError::Bus(ErrorKind::NoAcknowledge(NoAcknowledgeSource::Data));

const RECOMMENDED: [(u16, u8); 38] = [
    (0x0207, 0x01), (0x0208, 0x01), (0x0096, 0x00), (0x0097, 0xfd),
    (0x00e3, 0x01), (0x00e4, 0x03), (0x00e5, 0x02), (0x00e6, 0x01),
    (0x00e7, 0x03), (0x00f5, 0x02), (0x00d9, 0x05), (0x00db, 0xce),
    (0x00dc, 0x03), (0x00dd, 0xf8), (0x009f, 0x00), (0x00a3, 0x3c),
    (0x00b7, 0x00), (0x00bb, 0x3c), (0x00b2, 0x09), (0x00ca, 0x09),
    (0x0198, 0x01), (0x01b0, 0x17), (0x01ad, 0x00), (0x00ff, 0x05),
    (0x0100, 0x05), (0x0199, 0x05), (0x01a6, 0x1b), (0x01ac, 0x3e),
    (0x01a7, 0x1f), (0x0030, 0x00),
    (0x0011, 0x10), (0x010a, 0x30), (0x0031, 0xff), (0x0041, 0x63),
    (0x002e, 0x01), (0x001b, 0x09), (0x003e, 0x31), (0x0014, 0x24),
];

/// A register-level stand-in for the sensor that logs every transfer.
struct SimSensor {
    regs: HashMap<u16, u8>,
    log: Vec<Transfer>,
    failing: Option<u16>,
}

impl SimSensor {
    fn new(id: u8, fresh: u8) -> SimSensor {
        let mut regs = HashMap::new();
        regs.insert(0x000, id);
        regs.insert(0x016, fresh);
        SimSensor { regs, log: Vec::new(), failing: None }
    }

    fn execute(&mut self, t: &Transfer) -> BusReply {
        self.log.push(t.clone());
        match t {
            Transfer::Write { bytes, .. } => {
                assert_eq!(bytes.len(), 3);
                let reg = ((bytes[0] as u16) << 8) | bytes[1] as u16;
                if self.failing == Some(reg) {
                    return BusReply::Failed(NACK);
                }
                self.regs.insert(reg, bytes[2]);
                BusReply::Written
            }
            Transfer::WriteRead { bytes, .. } => {
                assert_eq!(bytes.len(), 2);
                let reg = ((bytes[0] as u16) << 8) | bytes[1] as u16;
                if self.failing == Some(reg) {
                    return BusReply::Failed(NACK);
                }
                BusReply::Read(*self.regs.get(&reg).unwrap_or(&0))
            }
        }
    }
}

fn bring_up(sensor: &mut VL6180X, dev: &mut SimSensor) {
    while let Some(t) = sensor.pending() {
        let reply = dev.execute(&t);
        sensor.advance(reply);
    }
}

fn write(address: u8, bytes: &[u8]) -> Transfer {
    Transfer::Write { address, bytes: bytes.to_vec() }
}

fn read(address: u8, bytes: &[u8]) -> Transfer {
    Transfer::WriteRead { address, bytes: bytes.to_vec() }
}

fn full_setup_log() -> Vec<Transfer> {
    let mut expected = vec![read(0x29, &[0x00, 0x00]), read(0x29, &[0x00, 0x16])];
    for (reg, value) in RECOMMENDED {
        expected.push(write(0x29, &[(reg >> 8) as u8, reg as u8, value]));
    }
    expected.push(write(0x29, &[0x00, 0x16, 0x00]));
    expected
}

/// Run one measurement cycle against the simulated sensor; returns the text
/// drawn, or `None` when the cycle halted.
fn run_cycle(sensor: &VL6180X, dev: &mut SimSensor) -> Option<String> {
    let reply = dev.execute(&sensor.start_ranging());
    match cycle_step(CycleStage::Starting, reply) {
        CycleAction::ReadRange => {}
        CycleAction::Halt => return None,
        CycleAction::Draw(_) => panic!("drawing before reading"),
    }
    let reply = dev.execute(&sensor.read_range());
    match cycle_step(CycleStage::Reading, reply) {
        CycleAction::Draw(text) => Some(text),
        other => panic!("expected a refresh, got {:?}", other),
    }
}

#[test]
fn formats_every_reading_in_range() {
    for r in 0u8..=254 {
        assert_eq!(range_text(BusReply::Read(r)), format!("{} mm", r));
    }
}

#[test]
fn formats_exact_values() {
    assert_eq!(range_text(BusReply::Read(0)), "0 mm");
    assert_eq!(range_text(BusReply::Read(9)), "9 mm");
    assert_eq!(range_text(BusReply::Read(10)), "10 mm");
    assert_eq!(range_text(BusReply::Read(42)), "42 mm");
    assert_eq!(range_text(BusReply::Read(100)), "100 mm");
    assert_eq!(range_text(BusReply::Read(254)), "254 mm");
    assert_eq!(decimal_text(205), "205");
}

#[test]
fn out_of_range_marker_has_no_digits() {
    let text = range_text(BusReply::Read(255));
    assert_eq!(text, "OUT mm");
    assert!(!text.chars().any(|c| c.is_ascii_digit()));
}

#[test]
fn failed_read_formats_error_marker() {
    assert_eq!(range_text(BusReply::Failed(NACK)), " Err");
    assert_eq!(range_text(BusReply::Written), " Err");
    assert_eq!(range_text(BusReply::Failed(TransportError::Bus(ErrorKind::ArbitrationLoss))), " Err");
}

#[test]
fn register_frames_are_big_endian() {
    assert_eq!(write_frame(0x29, 0x01b0, 0x17), write(0x29, &[0x01, 0xb0, 0x17]));
    assert_eq!(read_frame(0x29, 0x0062), read(0x29, &[0x00, 0x62]));
    assert_eq!(Register::RangeValue.addr(), 0x062);
    assert_eq!(Register::FreshOutOfReset.addr(), 0x016);
}

#[test]
fn steady_state_operations_are_single_frames() {
    let sensor = VL6180X::new();
    assert_eq!(sensor.address(), DEFAULT_ADDRESS);
    assert_eq!(sensor.start_ranging(), write(0x29, &[0x00, 0x18, 0x01]));
    assert_eq!(sensor.clear_int(), write(0x29, &[0x00, 0x15, 0x07]));
    assert_eq!(sensor.read_range(), read(0x29, &[0x00, 0x62]));
    assert_eq!(sensor.int_status(), read(0x29, &[0x00, 0x4f]));
    assert_eq!(sensor.get_model_id(), read(0x29, &[0x00, 0x00]));
    let other = VL6180X::with_address(0x30);
    assert_eq!(other.start_ranging(), write(0x30, &[0x00, 0x18, 0x01]));
}

#[test]
fn config_table_in_documented_order() {
    assert_eq!(CONFIG_LEN, RECOMMENDED.len());
    for (i, entry) in RECOMMENDED.iter().enumerate() {
        assert_eq!(config_entry(i), *entry);
    }
}

#[test]
fn identity_mismatch_is_distinct() {
    let mut dev = SimSensor::new(0xB3, 0x01);
    let mut sensor = VL6180X::new();
    bring_up(&mut sensor, &mut dev);
    assert_eq!(sensor.outcome(), Some(Err(SensorError::UnexpectedIdentity(0xB3))));
    assert_eq!(dev.log, vec![read(0x29, &[0x00, 0x00])]);
}

#[test]
fn identity_read_failure_is_transport_error() {
    let mut dev = SimSensor::new(MODEL_ID, 0x01);
    dev.failing = Some(0x000);
    let mut sensor = VL6180X::new();
    bring_up(&mut sensor, &mut dev);
    assert_eq!(sensor.outcome(), Some(Err(SensorError::Transport(NACK))));
}

#[test]
fn read_without_data_is_missing() {
    let mut sensor = VL6180X::new();
    sensor.advance(BusReply::Written);
    assert_eq!(sensor.outcome(), Some(Err(SensorError::Transport(TransportError::Missing))));
}

#[test]
fn fresh_reset_loads_config_then_clears_flag() {
    let mut dev = SimSensor::new(MODEL_ID, 0x01);
    let mut sensor = VL6180X::new();
    assert_eq!(sensor.stage(), Stage::Identify);
    assert_eq!(sensor.outcome(), None);
    bring_up(&mut sensor, &mut dev);
    assert_eq!(sensor.outcome(), Some(Ok(())));
    assert_eq!(dev.log, full_setup_log());
    assert_eq!(dev.regs[&0x016], 0x00);
}

#[test]
fn second_init_after_clear_loads_nothing() {
    let mut dev = SimSensor::new(MODEL_ID, 0x01);
    let mut sensor = VL6180X::new();
    bring_up(&mut sensor, &mut dev);
    dev.log.clear();
    sensor.init();
    assert_eq!(sensor.stage(), Stage::CheckReset);
    bring_up(&mut sensor, &mut dev);
    assert_eq!(sensor.stage(), Stage::Ready);
    assert_eq!(dev.log, vec![read(0x29, &[0x00, 0x16])]);
}

#[test]
fn configured_sensor_skips_config() {
    let mut dev = SimSensor::new(MODEL_ID, 0x00);
    let mut sensor = VL6180X::new();
    bring_up(&mut sensor, &mut dev);
    assert_eq!(sensor.outcome(), Some(Ok(())));
    assert_eq!(dev.log, vec![read(0x29, &[0x00, 0x00]), read(0x29, &[0x00, 0x16])]);
}

#[test]
fn unreadable_reset_status_is_transport_error() {
    let mut dev = SimSensor::new(MODEL_ID, 0x01);
    dev.failing = Some(0x016);
    let mut sensor = VL6180X::new();
    bring_up(&mut sensor, &mut dev);
    assert_eq!(sensor.outcome(), Some(Err(SensorError::Transport(NACK))));
    assert_eq!(dev.log.len(), 2);
}

#[test]
fn reset_status_without_data_is_missing() {
    let mut sensor = VL6180X::new();
    sensor.advance(BusReply::Read(MODEL_ID));
    sensor.advance(BusReply::Written);
    assert_eq!(sensor.outcome(), Some(Err(SensorError::Transport(TransportError::Missing))));
}

#[test]
fn init_does_not_retry_identity_mismatch() {
    let mut dev = SimSensor::new(0x42, 0x01);
    let mut sensor = VL6180X::new();
    bring_up(&mut sensor, &mut dev);
    sensor.init();
    assert_eq!(sensor.stage(), Stage::Failed(SensorError::UnexpectedIdentity(0x42)));
    assert_eq!(sensor.pending(), None);
    let mut fresh = VL6180X::new();
    fresh.init();
    assert_eq!(fresh.stage(), Stage::Identify);
}

#[test]
fn init_after_failed_identity_read_checks_identity_again() {
    let mut dev = SimSensor::new(MODEL_ID, 0x01);
    dev.failing = Some(0x000);
    let mut sensor = VL6180X::new();
    bring_up(&mut sensor, &mut dev);
    assert_eq!(sensor.outcome(), Some(Err(SensorError::Transport(NACK))));
    sensor.init();
    assert_eq!(sensor.stage(), Stage::Identify);
    assert_eq!(sensor.pending(), Some(read(0x29, &[0x00, 0x00])));
    // a wrong answer to the repeated check is still caught
    sensor.advance(BusReply::Read(0x00));
    assert_eq!(sensor.outcome(), Some(Err(SensorError::UnexpectedIdentity(0x00))));
    // and a right one leads on to the full bring-up
    dev.failing = None;
    dev.log.clear();
    let mut retried = VL6180X::new();
    retried.advance(BusReply::Failed(NACK));
    retried.init();
    bring_up(&mut retried, &mut dev);
    assert_eq!(retried.outcome(), Some(Ok(())));
    assert_eq!(dev.log, full_setup_log());
}

#[test]
fn init_retries_after_transport_error() {
    let mut dev = SimSensor::new(MODEL_ID, 0x00);
    dev.failing = Some(0x016);
    let mut sensor = VL6180X::new();
    bring_up(&mut sensor, &mut dev);
    assert_eq!(sensor.outcome(), Some(Err(SensorError::Transport(NACK))));
    dev.failing = None;
    sensor.init();
    assert_eq!(sensor.stage(), Stage::CheckReset);
    bring_up(&mut sensor, &mut dev);
    assert_eq!(sensor.outcome(), Some(Ok(())));
}

#[test]
fn failed_config_write_aborts_the_load() {
    let mut dev = SimSensor::new(MODEL_ID, 0x01);
    dev.failing = Some(0x00e6);
    let mut sensor = VL6180X::new();
    bring_up(&mut sensor, &mut dev);
    assert_eq!(sensor.outcome(), Some(Err(SensorError::Transport(NACK))));
    // two reads, then the writes up to and including the failing eighth entry
    assert_eq!(dev.log.len(), 2 + 8);
    assert_eq!(dev.regs[&0x016], 0x01);
}

#[test]
fn end_to_end_fresh_reset_then_42_mm() {
    let mut dev = SimSensor::new(MODEL_ID, 0x01);
    let mut sensor = VL6180X::new();
    bring_up(&mut sensor, &mut dev);
    assert_eq!(dev.log, full_setup_log());
    dev.regs.insert(0x062, 42);
    assert_eq!(run_cycle(&sensor, &mut dev), Some(String::from("42 mm")));
    assert_eq!(dev.regs[&0x018], 0x01);
}

#[test]
fn end_to_end_out_of_range() {
    let mut dev = SimSensor::new(MODEL_ID, 0x00);
    let mut sensor = VL6180X::new();
    bring_up(&mut sensor, &mut dev);
    dev.regs.insert(0x062, 255);
    assert_eq!(run_cycle(&sensor, &mut dev), Some(String::from("OUT mm")));
}

#[test]
fn end_to_end_read_failure_still_refreshes() {
    let mut dev = SimSensor::new(MODEL_ID, 0x00);
    let mut sensor = VL6180X::new();
    bring_up(&mut sensor, &mut dev);
    dev.failing = Some(0x062);
    assert_eq!(run_cycle(&sensor, &mut dev), Some(String::from(" Err")));
}

#[test]
fn failed_start_halts() {
    assert_eq!(cycle_step(CycleStage::Starting, BusReply::Failed(NACK)), CycleAction::Halt);
    assert_eq!(cycle_step(CycleStage::Starting, BusReply::Written), CycleAction::ReadRange);
    assert_eq!(CYCLE_INTERVAL_MS, 50);
}

#[test]
fn display_text_origin() {
    let oled = Oled::new();
    assert_eq!(oled.address(), 0x3C);
    assert_eq!(oled.text_origin(), (37, 39));
    assert_eq!(Oled::with_address(0x3D).address(), 0x3D);
}
