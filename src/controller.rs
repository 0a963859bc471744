use vstd::prelude::*;

use crate::bits::{bit_of, read_bit, write_bit};

verus! {

/// Which physical channel filled the controller's output buffer.
#[derive(Debug, Clone, Copy, PartialEq, Eq, Structural)]
pub enum Origin {
    FirstPort,
    SecondPort,
    ControllerPort,
}

/// Whether a device port is switched on.
#[derive(Debug, Clone, Copy, PartialEq, Eq, PartialOrd, Ord, Structural)]
pub enum PortStatus {
    Enabled,
    Disabled,
}

/// Why a port failed its self-test.
#[derive(Debug, Clone, Copy, PartialEq, Eq, PartialOrd, Ord, Structural)]
pub enum PortError {
    ClockLineStuckLow,
    ClockLineStuckHigh,
    DataLineStuckLow,
    DataLineStuckHigh,
    Unexpected(u8),
}

/// Meaning of the response byte to a port self-test command.
pub open spec fn port_test_outcome(byte: u8) -> Result<(), PortError> {
    if byte == 0x00 {
        Ok(())
    } else if byte == 0x01 {
        Err(PortError::ClockLineStuckLow)
    } else if byte == 0x02 {
        Err(PortError::ClockLineStuckHigh)
    } else if byte == 0x03 {
        Err(PortError::DataLineStuckLow)
    } else if byte == 0x04 {
        Err(PortError::DataLineStuckHigh)
    } else {
        Err(PortError::Unexpected(byte))
    }
}

/// Interprets the response byte to a port self-test command.
pub fn decode_port_test_result(result: u8) -> (r: Result<(), PortError>)
    ensures
        r == port_test_outcome(result),
{
    match result {
        0x00 => Ok(()),
        0x01 => Err(PortError::ClockLineStuckLow),
        0x02 => Err(PortError::ClockLineStuckHigh),
        0x03 => Err(PortError::DataLineStuckLow),
        0x04 => Err(PortError::DataLineStuckHigh),
        _ => Err(PortError::Unexpected(result)),
    }
}

/// Response to the controller self-test command.
#[derive(Debug, Clone, Copy, PartialEq, Eq, Structural)]
pub enum ControllerTestResult {
    Passed,
    Failed,
    Unknown(u8),
}

/// Meaning of the response byte to the controller self-test command.
pub open spec fn controller_test_outcome(byte: u8) -> ControllerTestResult {
    if byte == 0x55 {
        ControllerTestResult::Passed
    } else if byte == 0xFC {
        ControllerTestResult::Failed
    } else {
        ControllerTestResult::Unknown(byte)
    }
}

impl From<u8> for ControllerTestResult {
    fn from(value: u8) -> (r: Self) {
        match value {
            0x55 => ControllerTestResult::Passed,
            0xFC => ControllerTestResult::Failed,
            _ => ControllerTestResult::Unknown(value),
        }
    }
}

impl vstd::std_specs::convert::FromSpecImpl<u8> for ControllerTestResult {
    open spec fn obeys_from_spec() -> bool {
        true
    }

    open spec fn from_spec(value: u8) -> Self {
        controller_test_outcome(value)
    }
}

impl ControllerTestResult {
    /// The response byte that stands for this result.
    pub fn as_byte(self) -> (r: u8)
        ensures
            r == match self {
                ControllerTestResult::Passed => 0x55u8,
                ControllerTestResult::Failed => 0xFCu8,
                ControllerTestResult::Unknown(value) => value,
            },
            !(self is Unknown) || (r != 0x55 && r != 0xFC) ==> controller_test_outcome(r) == self,
    {
        match self {
            ControllerTestResult::Passed => 0x55,
            ControllerTestResult::Failed => 0xFC,
            ControllerTestResult::Unknown(value) => value,
        }
    }
}

/// The controller's output port (read with command 0xD0), bit by bit.
#[derive(Debug, Clone, Copy, PartialEq, Eq, Structural)]
pub struct ControllerStatus(u8);

impl ControllerStatus {
    pub const SYSTEM_RESET_BIT: usize = 0;
    pub const A20_GATE_BIT: usize = 1;
    pub const SECOND_PORT_CLOCK_BIT: usize = 2;
    pub const SECOND_PORT_DATA_BIT: usize = 3;
    pub const OUTPUT_BUFFER_FILLED_BY_FIRST_PORT_BIT: usize = 4;
    pub const OUTPUT_BUFFER_FILLED_BY_SECOND_PORT_BIT: usize = 5;
    pub const FIRST_PORT_CLOCK_BIT: usize = 6;
    pub const FIRST_PORT_DATA_BIT: usize = 7;

    /// The register's value.
    pub closed spec fn byte(self) -> u8 {
        self.0
    }

    /// Where a byte came from, given the output port read right after it.
    pub open spec fn origin(self) -> Origin {
        if bit_of(self.byte(), 4) {
            Origin::FirstPort
        } else if bit_of(self.byte(), 5) {
            Origin::SecondPort
        } else {
            Origin::ControllerPort
        }
    }

    /// The register holding `byte`.
    pub closed spec fn from_byte_spec(byte: u8) -> Self {
        ControllerStatus(byte)
    }

    pub fn from_byte(byte: u8) -> (r: Self)
        ensures
            r == Self::from_byte_spec(byte),
            r.byte() == byte,
    {
        ControllerStatus(byte)
    }

    pub fn as_byte(self) -> (r: u8)
        ensures
            r == self.byte(),
    {
        self.0
    }

    pub fn bit(self, offset: usize) -> (r: bool)
        requires
            offset < 8,
        ensures
            r == bit_of(self.byte(), offset as u8),
    {
        read_bit(self.0, offset)
    }

    pub fn system_reset(self) -> (r: bool)
        ensures
            r == bit_of(self.byte(), 0),
    {
        self.bit(Self::SYSTEM_RESET_BIT)
    }

    pub fn a20_gate(self) -> (r: bool)
        ensures
            r == bit_of(self.byte(), 1),
    {
        self.bit(Self::A20_GATE_BIT)
    }

    pub fn second_port_clock(self) -> (r: bool)
        ensures
            r == bit_of(self.byte(), 2),
    {
        self.bit(Self::SECOND_PORT_CLOCK_BIT)
    }

    pub fn second_port_data(self) -> (r: bool)
        ensures
            r == bit_of(self.byte(), 3),
    {
        self.bit(Self::SECOND_PORT_DATA_BIT)
    }

    pub fn output_buffer_filled_by_first_port(self) -> (r: bool)
        ensures
            r == bit_of(self.byte(), 4),
    {
        self.bit(Self::OUTPUT_BUFFER_FILLED_BY_FIRST_PORT_BIT)
    }

    pub fn output_buffer_filled_by_second_port(self) -> (r: bool)
        ensures
            r == bit_of(self.byte(), 5),
    {
        self.bit(Self::OUTPUT_BUFFER_FILLED_BY_SECOND_PORT_BIT)
    }

    pub fn first_port_clock(self) -> (r: bool)
        ensures
            r == bit_of(self.byte(), 6),
    {
        self.bit(Self::FIRST_PORT_CLOCK_BIT)
    }

    pub fn first_port_data(self) -> (r: bool)
        ensures
            r == bit_of(self.byte(), 7),
    {
        self.bit(Self::FIRST_PORT_DATA_BIT)
    }

    /// Which channel produced the byte that was just read: the first port
    /// takes precedence over the second, and neither means the controller.
    pub fn data_origin(self) -> (r: Origin)
        ensures
            r == self.origin(),
    {
        if self.output_buffer_filled_by_first_port() {
            Origin::FirstPort
        } else if self.output_buffer_filled_by_second_port() {
            Origin::SecondPort
        } else {
            Origin::ControllerPort
        }
    }
}

/// The controller configuration byte (internal RAM byte 0), bit by bit.
#[derive(Debug, Clone, Copy, PartialEq, Eq, Structural)]
pub struct Configuration(u8);

impl Configuration {
    pub const FIRST_PORT_INTERRUPT_ENABLED_BIT: usize = 0;
    pub const SECOND_PORT_INTERRUPT_ENABLED_BIT: usize = 1;
    pub const SYSTEM_FLAG_BIT: usize = 2;
    pub const SHOULD_BE_ZERO_BIT: usize = 3;
    pub const FIRST_PORT_CLOCK_DISABLED_BIT: usize = 4;
    pub const SECOND_PORT_CLOCK_DISABLED_BIT: usize = 5;
    pub const FIRST_PORT_TRANSLATION_ENABLED_BIT: usize = 6;
    pub const MUST_BE_ZERO_BIT: usize = 7;

    /// The register's value.
    pub closed spec fn byte(self) -> u8 {
        self.0
    }

    /// The register holding `byte`.
    pub closed spec fn from_byte_spec(byte: u8) -> Self {
        Configuration(byte)
    }

    pub fn from_byte(byte: u8) -> (r: Self)
        ensures
            r == Self::from_byte_spec(byte),
            r.byte() == byte,
    {
        Configuration(byte)
    }

    pub fn as_byte(self) -> (r: u8)
        ensures
            r == self.byte(),
    {
        self.0
    }

    pub fn bit(self, offset: usize) -> (r: bool)
        requires
            offset < 8,
        ensures
            r == bit_of(self.byte(), offset as u8),
    {
        read_bit(self.0, offset)
    }

    /// The same configuration with bit `offset` set to `value`.
    pub fn with_bit(self, offset: usize, value: bool) -> (r: Self)
        requires
            offset < 8,
        ensures
            forall|i: u8| #![trigger bit_of(r.byte(), i)]
                i < 8 ==> bit_of(r.byte(), i) == if i == offset as u8 {
                    value
                } else {
                    bit_of(self.byte(), i)
                },
    {
        Configuration(write_bit(self.0, offset, value))
    }

    pub fn first_port_interrupt_is_enabled(&self) -> (r: bool)
        ensures
            r == bit_of(self.byte(), 0),
    {
        self.bit(Self::FIRST_PORT_INTERRUPT_ENABLED_BIT)
    }

    pub fn second_port_interrupt_is_enabled(&self) -> (r: bool)
        ensures
            r == bit_of(self.byte(), 1),
    {
        self.bit(Self::SECOND_PORT_INTERRUPT_ENABLED_BIT)
    }

    pub fn system_flag(&self) -> (r: bool)
        ensures
            r == bit_of(self.byte(), 2),
    {
        self.bit(Self::SYSTEM_FLAG_BIT)
    }

    pub fn should_be_zero(&self) -> (r: bool)
        ensures
            r == bit_of(self.byte(), 3),
    {
        self.bit(Self::SHOULD_BE_ZERO_BIT)
    }

    pub fn first_port_clock_is_enabled(&self) -> (r: bool)
        ensures
            r == !bit_of(self.byte(), 4),
    {
        !self.bit(Self::FIRST_PORT_CLOCK_DISABLED_BIT)
    }

    pub fn second_port_clock_is_enabled(&self) -> (r: bool)
        ensures
            r == !bit_of(self.byte(), 5),
    {
        !self.bit(Self::SECOND_PORT_CLOCK_DISABLED_BIT)
    }

    pub fn first_port_translation_is_enabled(&self) -> (r: bool)
        ensures
            r == bit_of(self.byte(), 6),
    {
        self.bit(Self::FIRST_PORT_TRANSLATION_ENABLED_BIT)
    }

    pub fn must_be_zero(&self) -> (r: bool)
        ensures
            r == bit_of(self.byte(), 7),
    {
        self.bit(Self::MUST_BE_ZERO_BIT)
    }
}

} // verus!
