use kfs::controller::{
    decode_port_test_result, Configuration, ControllerStatus, ControllerTestResult, Origin,
    PortError,
};
use kfs::ps2::{Command, CommandTarget, RamAddress, RamAddressOutOfRange, Status};

#[test]
fn self_test_pass() {
    assert_eq!(decode_port_test_result(0x00), Ok(()));
}

#[test]
fn self_test_clock_stuck_high() {
    assert_eq!(decode_port_test_result(0x02), Err(PortError::ClockLineStuckHigh));
}

#[test]
fn self_test_unexpected() {
    assert_eq!(decode_port_test_result(0x10), Err(PortError::Unexpected(0x10)));
}

#[test]
fn self_test_other_codes() {
    assert_eq!(decode_port_test_result(0x01), Err(PortError::ClockLineStuckLow));
    assert_eq!(decode_port_test_result(0x03), Err(PortError::DataLineStuckLow));
    assert_eq!(decode_port_test_result(0x04), Err(PortError::DataLineStuckHigh));
    assert_eq!(decode_port_test_result(0xFF), Err(PortError::Unexpected(0xFF)));
}

#[test]
fn controller_test_result() {
    assert_eq!(ControllerTestResult::from(0x55), ControllerTestResult::Passed);
    assert_eq!(ControllerTestResult::from(0xFC), ControllerTestResult::Failed);
    assert_eq!(ControllerTestResult::from(0x12), ControllerTestResult::Unknown(0x12));
    assert_eq!(ControllerTestResult::Passed.as_byte(), 0x55);
    assert_eq!(ControllerTestResult::Failed.as_byte(), 0xFC);
    assert_eq!(ControllerTestResult::Unknown(0x12).as_byte(), 0x12);
}

#[test]
fn status_bits() {
    let s = Status::from_byte(0b1000_0011);
    assert!(s.output_buffer_is_full());
    assert!(s.input_buffer_is_full());
    assert!(!s.system_flag());
    assert_eq!(s.command_target(), CommandTarget::Device);
    assert!(!s.maybe_keyboard_lock());
    assert!(!s.maybe_receive_timeout());
    assert!(!s.timeout_error());
    assert!(s.parity_error());
    assert_eq!(s.as_byte(), 0x83);
    let s = Status::from_byte(0b0110_1100);
    assert!(!s.output_buffer_is_full());
    assert!(s.system_flag());
    assert_eq!(s.command_target(), CommandTarget::Controller);
    assert!(s.command_target().is_controller());
    assert!(!s.command_target().is_device());
    assert!(s.maybe_receive_timeout());
    assert!(s.timeout_error());
    assert!(s.bit(3));
    assert!(!s.bit(4));
}

#[test]
fn configuration_bits() {
    let c = Configuration::from_byte(0b0111_0111);
    assert!(c.first_port_interrupt_is_enabled());
    assert!(c.second_port_interrupt_is_enabled());
    assert!(c.system_flag());
    assert!(!c.should_be_zero());
    assert!(!c.first_port_clock_is_enabled());
    assert!(!c.second_port_clock_is_enabled());
    assert!(c.first_port_translation_is_enabled());
    assert!(!c.must_be_zero());
    let cleared = c
        .with_bit(Configuration::FIRST_PORT_INTERRUPT_ENABLED_BIT, false)
        .with_bit(Configuration::FIRST_PORT_CLOCK_DISABLED_BIT, false)
        .with_bit(Configuration::FIRST_PORT_TRANSLATION_ENABLED_BIT, false);
    assert_eq!(cleared.as_byte(), 0b0010_0110);
    assert_eq!(cleared.with_bit(Configuration::MUST_BE_ZERO_BIT, true).as_byte(), 0b1010_0110);
}

#[test]
fn controller_status_origin() {
    assert_eq!(ControllerStatus::from_byte(0b0001_0000).data_origin(), Origin::FirstPort);
    assert_eq!(ControllerStatus::from_byte(0b0011_0000).data_origin(), Origin::FirstPort);
    assert_eq!(ControllerStatus::from_byte(0b0010_0000).data_origin(), Origin::SecondPort);
    assert_eq!(ControllerStatus::from_byte(0b1100_1111).data_origin(), Origin::ControllerPort);
    let s = ControllerStatus::from_byte(0b1100_0101);
    assert!(s.system_reset());
    assert!(!s.a20_gate());
    assert!(s.second_port_clock());
    assert!(!s.second_port_data());
    assert!(!s.output_buffer_filled_by_first_port());
    assert!(!s.output_buffer_filled_by_second_port());
    assert!(s.first_port_clock());
    assert!(s.first_port_data());
    assert_eq!(s.as_byte(), 0xC5);
}

#[test]
fn command_bytes() {
    assert_eq!(Command::ReadRAM(RamAddress::controller_configuration()).as_byte(), 0x20);
    assert_eq!(Command::ReadRAM(RamAddress::new(0x3F)).as_byte(), 0x5F);
    assert_eq!(Command::WriteRAM(RamAddress::new(0x01)).as_byte(), 0x61);
    assert_eq!(Command::DisableSecondPort.as_byte(), 0xA7);
    assert_eq!(Command::EnableSecondPort.as_byte(), 0xA8);
    assert_eq!(Command::TestSecondPort.as_byte(), 0xA9);
    assert_eq!(Command::TestController.as_byte(), 0xAA);
    assert_eq!(Command::TestFirstPort.as_byte(), 0xAB);
    assert_eq!(Command::DiagnoticDump.as_byte(), 0xAC);
    assert_eq!(Command::DisableFirstPort.as_byte(), 0xAD);
    assert_eq!(Command::EnableFirstPort.as_byte(), 0xAE);
    assert_eq!(Command::ReadControllerInputPort.as_byte(), 0xC0);
    assert_eq!(Command::ReadControllerOutputPort.as_byte(), 0xD0);
    assert_eq!(Command::WriteToControllerOutputPort.as_byte(), 0xD1);
    assert_eq!(Command::WriteToFirstPortOutput.as_byte(), 0xD2);
    assert_eq!(Command::WriteToSecondPortOutput.as_byte(), 0xD3);
    assert_eq!(Command::WriteToSecondPortInput.as_byte(), 0xD4);
    let pulse = Command::PulseOutputLines { reset: true, unknown_1: false, unknown_2: true, unknown_3: false };
    assert_eq!(pulse.as_byte(), 0xF5);
    let none = Command::PulseOutputLines { reset: false, unknown_1: false, unknown_2: false, unknown_3: false };
    assert_eq!(none.as_byte(), 0xF0);
}

#[test]
fn ram_address_range() {
    assert_eq!(RamAddress::try_new(0x3F).map(|a| a.as_byte()), Ok(0x3F));
    assert_eq!(RamAddress::try_new(0x40).map(|a| a.as_byte()), Err(RamAddressOutOfRange(0x40)));
    assert_eq!(RamAddress::try_new(0x00).map(|a| a.as_byte()), Ok(0x00));
}
