use vstd::prelude::*;

use crate::bits::{bit_of, read_bit};

verus! {

/// A device identity reported after a reset of a port.
#[non_exhaustive]
#[derive(Debug, Clone, Copy, PartialEq, Eq, Structural)]
pub enum Type {
    AncientATKeyboard,
    StandardPS2Mouse,
    MouseWithScrollWheel,
    FiveButtonMouse,
    MF2Keyboard,
    Unknown(u8, u8),
}

/// A byte that is no address of the controller's internal RAM.
#[derive(Debug, Clone, Copy, PartialEq, Eq, Structural)]
pub struct RamAddressOutOfRange(pub u8);

/// One past the last address of the controller's internal RAM.
pub const RAM_SIZE: u8 = 0x40;

/// An address of the controller's internal RAM, below `RAM_SIZE`.
#[derive(Debug, Clone, Copy, PartialEq, Eq, Structural)]
pub struct RamAddress(u8);

impl RamAddress {
    /// The address.
    pub closed spec fn value(self) -> u8 {
        self.0
    }

    #[verifier::type_invariant]
    closed spec fn in_range(self) -> bool {
        self.0 < RAM_SIZE
    }

    /// The first address, where the configuration byte lives.
    pub fn controller_configuration() -> (r: Self)
        ensures
            r.value() == 0,
    {
        RamAddress(0)
    }

    /// The address `address`, which must lie in range.
    pub fn new(address: u8) -> (r: Self)
        requires
            address < RAM_SIZE,
        ensures
            r.value() == address,
    {
        RamAddress(address)
    }

    /// The address `address`, or an error when it lies out of range.
    pub fn try_new(address: u8) -> (r: Result<Self, RamAddressOutOfRange>)
        ensures
            address < RAM_SIZE ==> r is Ok && r->Ok_0.value() == address,
            address >= RAM_SIZE ==> r == Err::<Self, RamAddressOutOfRange>(
                RamAddressOutOfRange(address),
            ),
    {
        if address < RAM_SIZE {
            Ok(RamAddress(address))
        } else {
            Err(RamAddressOutOfRange(address))
        }
    }

    /// The address as a byte.
    pub fn as_byte(self) -> (r: u8)
        ensures
            r == self.value(),
            r < RAM_SIZE,
    {
        proof {
            use_type_invariant(&self);
        }
        self.0
    }
}

/// A command to the controller, written to its command register.
#[derive(Debug, Clone, Copy, PartialEq, Eq, Structural)]
pub enum Command {
    ReadRAM(RamAddress),
    WriteRAM(RamAddress),
    DisableSecondPort,
    EnableSecondPort,
    TestSecondPort,
    TestController,
    TestFirstPort,
    DiagnoticDump,
    DisableFirstPort,
    EnableFirstPort,
    ReadControllerInputPort,
    SetStatusSecondNibbleFromInputPortFirstNibble,
    SetStatusSecondNibbleFromInputPortSecondNibble,
    ReadControllerOutputPort,
    WriteToControllerOutputPort,
    WriteToFirstPortOutput,
    WriteToSecondPortOutput,
    WriteToSecondPortInput,
    /// A pulse of the output lines; a line whose flag is set is not pulsed.
    PulseOutputLines { reset: bool, unknown_1: bool, unknown_2: bool, unknown_3: bool },
}

/// `1 << shift` when `flag` holds, else 0.
pub open spec fn flag_bit(flag: bool, shift: nat) -> nat {
    if flag {
        pow2_small(shift)
    } else {
        0
    }
}

/// Powers of two up to the fourth line of a pulse mask.
pub open spec fn pow2_small(shift: nat) -> nat {
    if shift == 0 {
        1
    } else if shift == 1 {
        2
    } else if shift == 2 {
        4
    } else {
        8
    }
}

impl Command {
    /// The opcode that encodes the command.
    pub open spec fn opcode(self) -> u8 {
        match self {
            Command::ReadRAM(address) => (0x20 + address.value()) as u8,
            Command::WriteRAM(address) => (0x60 + address.value()) as u8,
            Command::DisableSecondPort => 0xA7,
            Command::EnableSecondPort => 0xA8,
            Command::TestSecondPort => 0xA9,
            Command::TestController => 0xAA,
            Command::TestFirstPort => 0xAB,
            Command::DiagnoticDump => 0xAC,
            Command::DisableFirstPort => 0xAD,
            Command::EnableFirstPort => 0xAE,
            Command::ReadControllerInputPort => 0xC0,
            Command::SetStatusSecondNibbleFromInputPortFirstNibble => 0xC1,
            Command::SetStatusSecondNibbleFromInputPortSecondNibble => 0xC2,
            Command::ReadControllerOutputPort => 0xD0,
            Command::WriteToControllerOutputPort => 0xD1,
            Command::WriteToFirstPortOutput => 0xD2,
            Command::WriteToSecondPortOutput => 0xD3,
            Command::WriteToSecondPortInput => 0xD4,
            Command::PulseOutputLines { reset, unknown_1, unknown_2, unknown_3 } => (0xF0 + flag_bit(
                reset,
                0,
            ) + flag_bit(unknown_1, 1) + flag_bit(unknown_2, 2) + flag_bit(unknown_3, 3)) as u8,
        }
    }

    /// Encodes the command as its opcode.
    pub fn as_byte(self) -> (r: u8)
        ensures
            r == self.opcode(),
            self is ReadRAM ==> 0x20 <= r < 0x60,
            self is WriteRAM ==> 0x60 <= r < 0xA0,
            self is PulseOutputLines ==> 0xF0 <= r,
    {
        match self {
            Command::ReadRAM(address) => 0x20 + address.as_byte(),
            Command::WriteRAM(address) => 0x60 + address.as_byte(),
            Command::DisableSecondPort => 0xA7,
            Command::EnableSecondPort => 0xA8,
            Command::TestSecondPort => 0xA9,
            Command::TestController => 0xAA,
            Command::TestFirstPort => 0xAB,
            Command::DiagnoticDump => 0xAC,
            Command::DisableFirstPort => 0xAD,
            Command::EnableFirstPort => 0xAE,
            Command::ReadControllerInputPort => 0xC0,
            Command::SetStatusSecondNibbleFromInputPortFirstNibble => 0xC1,
            Command::SetStatusSecondNibbleFromInputPortSecondNibble => 0xC2,
            Command::ReadControllerOutputPort => 0xD0,
            Command::WriteToControllerOutputPort => 0xD1,
            Command::WriteToFirstPortOutput => 0xD2,
            Command::WriteToSecondPortOutput => 0xD3,
            Command::WriteToSecondPortInput => 0xD4,
            Command::PulseOutputLines { reset, unknown_1, unknown_2, unknown_3 } => {
                let mut mask: u8 = 0;
                if reset {
                    mask = mask + 1;
                }
                if unknown_1 {
                    mask = mask + 2;
                }
                if unknown_2 {
                    mask = mask + 4;
                }
                if unknown_3 {
                    mask = mask + 8;
                }
                0xF0 + mask
            },
        }
    }
}

/// Whom the last byte written to the controller was meant for.
#[derive(Debug, Clone, Copy, PartialEq, Eq, PartialOrd, Ord, Structural)]
pub enum CommandTarget {
    Device,
    Controller,
}

impl CommandTarget {
    pub fn is_device(self) -> (r: bool)
        ensures
            r == (self == CommandTarget::Device),
    {
        self == CommandTarget::Device
    }

    pub fn is_controller(self) -> (r: bool)
        ensures
            r == (self == CommandTarget::Controller),
    {
        self == CommandTarget::Controller
    }
}

/// The controller's status register, bit by bit.
#[derive(Debug, Clone, Copy, PartialEq, Eq, Structural)]
pub struct Status(u8);

impl Status {
    pub const OUTPUT_BUFFER_IS_FULL_BIT: usize = 0;
    pub const INPUT_BUFFER_IS_FULL_BIT: usize = 1;
    pub const SYSTEM_FLAG_BIT: usize = 2;
    pub const COMMAND_TARGET_IS_CONTROLLER_BIT: usize = 3;
    pub const MAYBE_KEYBOARD_LOCK_BIT: usize = 4;
    pub const MAYBE_RECEIVE_TIMEOUT_BIT: usize = 5;
    pub const TIMEOUT_ERROR_BIT: usize = 6;
    pub const PARITY_ERROR_BIT: usize = 7;

    /// The register's value.
    pub closed spec fn byte(self) -> u8 {
        self.0
    }

    pub fn from_byte(byte: u8) -> (r: Self)
        ensures
            r.byte() == byte,
    {
        Status(byte)
    }

    pub fn as_byte(self) -> (r: u8)
        ensures
            r == self.byte(),
    {
        self.0
    }

    pub fn bit(self, offset: usize) -> (r: bool)
        requires
            offset < 8,
        ensures
            r == bit_of(self.byte(), offset as u8),
    {
        read_bit(self.0, offset)
    }

    /// A byte waits in the data register.
    pub fn output_buffer_is_full(&self) -> (r: bool)
        ensures
            r == bit_of(self.byte(), 0),
    {
        self.bit(Self::OUTPUT_BUFFER_IS_FULL_BIT)
    }

    /// The controller has not yet taken the last byte written to it.
    pub fn input_buffer_is_full(&self) -> (r: bool)
        ensures
            r == bit_of(self.byte(), 1),
    {
        self.bit(Self::INPUT_BUFFER_IS_FULL_BIT)
    }

    pub fn system_flag(&self) -> (r: bool)
        ensures
            r == bit_of(self.byte(), 2),
    {
        self.bit(Self::SYSTEM_FLAG_BIT)
    }

    pub fn command_target(&self) -> (r: CommandTarget)
        ensures
            r == if bit_of(self.byte(), 3) {
                CommandTarget::Controller
            } else {
                CommandTarget::Device
            },
    {
        if self.bit(Self::COMMAND_TARGET_IS_CONTROLLER_BIT) {
            CommandTarget::Controller
        } else {
            CommandTarget::Device
        }
    }

    pub fn maybe_keyboard_lock(&self) -> (r: bool)
        ensures
            r == bit_of(self.byte(), 4),
    {
        self.bit(Self::MAYBE_KEYBOARD_LOCK_BIT)
    }

    pub fn maybe_receive_timeout(&self) -> (r: bool)
        ensures
            r == bit_of(self.byte(), 5),
    {
        self.bit(Self::MAYBE_RECEIVE_TIMEOUT_BIT)
    }

    pub fn timeout_error(&self) -> (r: bool)
        ensures
            r == bit_of(self.byte(), 6),
    {
        self.bit(Self::TIMEOUT_ERROR_BIT)
    }

    pub fn parity_error(&self) -> (r: bool)
        ensures
            r == bit_of(self.byte(), 7),
    {
        self.bit(Self::PARITY_ERROR_BIT)
    }
}

} // verus!
