use vstd::prelude::*;

use crate::bits::{bit_of, lemma_bit_of_and, lemma_bits_determine_byte};
use crate::controller::{
    decode_port_test_result, port_test_outcome, Configuration, ControllerStatus,
    ControllerTestResult, Origin, PortError,
};
use crate::port::{Handle, ID};
use crate::ps2::{Command, RamAddress, Status, Type};

verus! {

/// Address of the data register.
pub const DATA_PORT_ID: ID = 0x60;

/// Address of the status register (read) and command register (write).
pub const CONTROLLER_PORT_ID: ID = 0x64;

/// Status polls spent waiting for an identification byte before concluding
/// that the device sends none.
pub const IDENTIFICATION_ATTEMPTS: u16 = 0x1000;

/// A single port access that the driver asks its caller to perform.
#[derive(Debug, Clone, Copy, PartialEq, Eq, Structural)]
pub enum Access {
    /// Read the status register; the byte read is the reply.
    ReadStatus,
    /// Read the data register; the byte read is the reply.
    ReadData,
    /// Write the byte to the command register.
    WriteCommand(u8),
    /// Write the byte to the data register.
    WriteData(u8),
}

/// What a finished operation yields.
#[derive(Debug, Clone, Copy, PartialEq, Eq)]
pub enum Outcome {
    Done,
    Byte(u8),
    Read(Origin, u8),
    Configuration(Configuration),
    ControllerStatus(ControllerStatus),
    PortTest(Result<(), PortError>),
    ControllerTest(ControllerTestResult),
    Initialized(Result<(Option<Type>, Option<Type>), ()>),
}

/// What the driver needs next: an access, or nothing more.
#[derive(Debug, Clone, Copy, PartialEq, Eq)]
pub enum Request {
    Access(Access),
    Finished(Outcome),
}

/// How to read the byte that answers a command.
#[derive(Debug, Clone, Copy, PartialEq, Eq, Structural)]
pub enum Answer {
    Configuration,
    ControllerStatus,
    FirstPortTest,
    SecondPortTest,
    ControllerTest,
}

/// Where the driver stands in the operation under way.
#[derive(Debug, Clone, Copy, PartialEq, Eq)]
pub enum Step {
    Finished(Outcome),
    // Single operations.
    Command(u8),
    CommandThenRead(u8, Answer),
    ReadAnswer(Answer),
    CommandThenData(u8, u8),
    SendData(u8),
    CommandThenWrite(u8, u8),
    PollWrite(u8),
    PollRead,
    FetchByte,
    PollReadOrigin,
    FetchByteOrigin,
    OriginCommand(u8),
    OriginRead(u8),
    Flush,
    FlushByte,
    // Initialization.
    InitDisableFirst,
    InitDisableSecond,
    InitFlush,
    InitFlushByte,
    InitReadConfigCommand,
    InitReadConfig,
    InitWriteConfigCommand(u8),
    InitWriteConfig(u8),
    InitEnableSecond,
    InitProbeCommand,
    InitProbe,
    InitDisableSecondAgain,
    InitReconfigureCommand,
    InitReconfigure,
    InitRewriteCommand(u8),
    InitRewrite(u8),
    InitTestFirstCommand(bool),
    InitTestFirst(bool),
    InitTestSecondCommand(bool),
    InitTestSecond(bool),
    InitEnableFirst,
    InitResetPoll,
    InitReset,
    InitAckPoll,
    InitAck,
    InitAckPoll2(u8),
    InitAck2(u8),
    InitIdPoll(u16),
    InitId,
    InitIdPoll2(u8),
    InitId2(u8),
}

/// The status byte says that a byte waits in the data register.
pub open spec fn output_full(status: u8) -> bool {
    bit_of(status, 0)
}

/// The status byte says that the controller has not taken the last byte
/// written to it.
pub open spec fn input_full(status: u8) -> bool {
    bit_of(status, 1)
}

/// The configuration with the first port's interrupt, clock-disable and
/// translation bits (0, 4 and 6) cleared.
pub open spec fn first_port_configured(config: u8) -> u8 {
    config & 0xAE
}

/// The configuration with the second port's clock-disable bit (5) cleared.
pub open spec fn second_port_configured(config: u8) -> u8 {
    config & 0xDF
}

/// The meaning of `byte` as an answer of kind `kind`.
pub open spec fn answer_outcome(kind: Answer, byte: u8) -> Outcome {
    match kind {
        Answer::Configuration => Outcome::Configuration(Configuration::from_byte_spec(byte)),
        Answer::ControllerStatus => Outcome::ControllerStatus(
            ControllerStatus::from_byte_spec(byte),
        ),
        Answer::FirstPortTest => Outcome::PortTest(port_test_outcome(byte)),
        Answer::SecondPortTest => Outcome::PortTest(port_test_outcome(byte)),
        Answer::ControllerTest => Outcome::ControllerTest(
            crate::controller::controller_test_outcome(byte),
        ),
    }
}

/// The end of initialization for ports that are found but not identified.
pub open spec fn initialized(first: Option<Type>) -> Step {
    Step::Finished(Outcome::Initialized(Ok((first, None))))
}

/// The step after the self-tests: failure when no port passed, else the
/// first port is enabled and identified if it passed.
pub open spec fn after_tests(first_ok: bool, second_ok: bool) -> Step {
    if !first_ok && !second_ok {
        Step::Finished(Outcome::Initialized(Err(())))
    } else if first_ok {
        Step::InitEnableFirst
    } else {
        initialized(None)
    }
}

/// The reset answer, once sorted in descending order, is the
/// acknowledgement 0xFA followed by the self-test pass 0xAA.
pub open spec fn reset_acknowledged(first: u8, second: u8) -> bool {
    (first == 0xFA && second == 0xAA) || (first == 0xAA && second == 0xFA)
}

/// The step after the first identification byte.
pub open spec fn after_identification(byte: u8) -> Step {
    if byte == 0x00 {
        initialized(Some(Type::StandardPS2Mouse))
    } else if byte == 0x03 {
        initialized(Some(Type::MouseWithScrollWheel))
    } else if byte == 0x04 {
        initialized(Some(Type::FiveButtonMouse))
    } else if byte == 0xAB || byte == 0xAC {
        Step::InitIdPoll2(byte)
    } else {
        initialized(Some(Type::Unknown(0x00, byte)))
    }
}

/// The device type of a two-byte identification.
pub open spec fn extended_type(first: u8, second: u8) -> Type {
    if first == 0xAB && (second == 0x83 || second == 0xC1) {
        Type::MF2Keyboard
    } else {
        Type::Unknown(first, second)
    }
}

impl Step {
    /// What the driver asks for in this step.
    pub open spec fn request(self) -> Request {
        match self {
            Step::Finished(outcome) => Request::Finished(outcome),
            Step::Command(command) => Request::Access(Access::WriteCommand(command)),
            Step::CommandThenRead(command, _) => Request::Access(Access::WriteCommand(command)),
            Step::ReadAnswer(_) => Request::Access(Access::ReadData),
            Step::CommandThenData(command, _) => Request::Access(Access::WriteCommand(command)),
            Step::SendData(value) => Request::Access(Access::WriteData(value)),
            Step::CommandThenWrite(command, _) => Request::Access(Access::WriteCommand(command)),
            Step::PollWrite(_) => Request::Access(Access::ReadStatus),
            Step::PollRead => Request::Access(Access::ReadStatus),
            Step::FetchByte => Request::Access(Access::ReadData),
            Step::PollReadOrigin => Request::Access(Access::ReadStatus),
            Step::FetchByteOrigin => Request::Access(Access::ReadData),
            Step::OriginCommand(_) => Request::Access(Access::WriteCommand(0xD0)),
            Step::OriginRead(_) => Request::Access(Access::ReadData),
            Step::Flush => Request::Access(Access::ReadStatus),
            Step::FlushByte => Request::Access(Access::ReadData),
            Step::InitDisableFirst => Request::Access(Access::WriteCommand(0xAD)),
            Step::InitDisableSecond => Request::Access(Access::WriteCommand(0xA7)),
            Step::InitFlush => Request::Access(Access::ReadStatus),
            Step::InitFlushByte => Request::Access(Access::ReadData),
            Step::InitReadConfigCommand => Request::Access(Access::WriteCommand(0x20)),
            Step::InitReadConfig => Request::Access(Access::ReadData),
            Step::InitWriteConfigCommand(_) => Request::Access(Access::WriteCommand(0x60)),
            Step::InitWriteConfig(config) => Request::Access(Access::WriteData(config)),
            Step::InitEnableSecond => Request::Access(Access::WriteCommand(0xA8)),
            Step::InitProbeCommand => Request::Access(Access::WriteCommand(0x20)),
            Step::InitProbe => Request::Access(Access::ReadData),
            Step::InitDisableSecondAgain => Request::Access(Access::WriteCommand(0xA7)),
            Step::InitReconfigureCommand => Request::Access(Access::WriteCommand(0x20)),
            Step::InitReconfigure => Request::Access(Access::ReadData),
            Step::InitRewriteCommand(_) => Request::Access(Access::WriteCommand(0x60)),
            Step::InitRewrite(config) => Request::Access(Access::WriteData(config)),
            Step::InitTestFirstCommand(_) => Request::Access(Access::WriteCommand(0xAB)),
            Step::InitTestFirst(_) => Request::Access(Access::ReadData),
            Step::InitTestSecondCommand(_) => Request::Access(Access::WriteCommand(0xA9)),
            Step::InitTestSecond(_) => Request::Access(Access::ReadData),
            Step::InitEnableFirst => Request::Access(Access::WriteCommand(0xAE)),
            Step::InitResetPoll => Request::Access(Access::ReadStatus),
            Step::InitReset => Request::Access(Access::WriteData(0xFF)),
            Step::InitAckPoll => Request::Access(Access::ReadStatus),
            Step::InitAck => Request::Access(Access::ReadData),
            Step::InitAckPoll2(_) => Request::Access(Access::ReadStatus),
            Step::InitAck2(_) => Request::Access(Access::ReadData),
            Step::InitIdPoll(_) => Request::Access(Access::ReadStatus),
            Step::InitId => Request::Access(Access::ReadData),
            Step::InitIdPoll2(_) => Request::Access(Access::ReadStatus),
            Step::InitId2(_) => Request::Access(Access::ReadData),
        }
    }

    /// The step after the requested access, given its reply: the byte read,
    /// or any byte after a write.
    pub open spec fn advance(self, reply: u8) -> Step {
        match self {
            Step::Finished(outcome) => Step::Finished(outcome),
            Step::Command(_) => Step::Finished(Outcome::Done),
            Step::CommandThenRead(_, kind) => Step::ReadAnswer(kind),
            Step::ReadAnswer(kind) => Step::Finished(answer_outcome(kind, reply)),
            Step::CommandThenData(_, value) => Step::SendData(value),
            Step::SendData(_) => Step::Finished(Outcome::Done),
            Step::CommandThenWrite(_, value) => Step::PollWrite(value),
            Step::PollWrite(value) => if input_full(reply) {
                Step::PollWrite(value)
            } else {
                Step::SendData(value)
            },
            Step::PollRead => if output_full(reply) {
                Step::FetchByte
            } else {
                Step::PollRead
            },
            Step::FetchByte => Step::Finished(Outcome::Byte(reply)),
            Step::PollReadOrigin => if output_full(reply) {
                Step::FetchByteOrigin
            } else {
                Step::PollReadOrigin
            },
            Step::FetchByteOrigin => Step::OriginCommand(reply),
            Step::OriginCommand(byte) => Step::OriginRead(byte),
            Step::OriginRead(byte) => Step::Finished(
                Outcome::Read(ControllerStatus::from_byte_spec(reply).origin(), byte),
            ),
            Step::Flush => if output_full(reply) {
                Step::FlushByte
            } else {
                Step::Finished(Outcome::Done)
            },
            Step::FlushByte => Step::Flush,
            Step::InitDisableFirst => Step::InitDisableSecond,
            Step::InitDisableSecond => Step::InitFlush,
            Step::InitFlush => if output_full(reply) {
                Step::InitFlushByte
            } else {
                Step::InitReadConfigCommand
            },
            Step::InitFlushByte => Step::InitFlush,
            Step::InitReadConfigCommand => Step::InitReadConfig,
            Step::InitReadConfig => Step::InitWriteConfigCommand(first_port_configured(reply)),
            Step::InitWriteConfigCommand(config) => Step::InitWriteConfig(config),
            Step::InitWriteConfig(_) => Step::InitEnableSecond,
            Step::InitEnableSecond => Step::InitProbeCommand,
            Step::InitProbeCommand => Step::InitProbe,
            Step::InitProbe => if !bit_of(reply, 5) {
                Step::InitDisableSecondAgain
            } else {
                Step::InitTestFirstCommand(false)
            },
            Step::InitDisableSecondAgain => Step::InitReconfigureCommand,
            Step::InitReconfigureCommand => Step::InitReconfigure,
            Step::InitReconfigure => Step::InitRewriteCommand(second_port_configured(reply)),
            Step::InitRewriteCommand(config) => Step::InitRewrite(config),
            Step::InitRewrite(_) => Step::InitTestFirstCommand(true),
            Step::InitTestFirstCommand(dual) => Step::InitTestFirst(dual),
            Step::InitTestFirst(dual) => if dual {
                Step::InitTestSecondCommand(port_test_outcome(reply) is Ok)
            } else {
                after_tests(port_test_outcome(reply) is Ok, false)
            },
            Step::InitTestSecondCommand(first_ok) => Step::InitTestSecond(first_ok),
            Step::InitTestSecond(first_ok) => after_tests(
                first_ok,
                port_test_outcome(reply) is Ok,
            ),
            Step::InitEnableFirst => Step::InitResetPoll,
            Step::InitResetPoll => if input_full(reply) {
                Step::InitResetPoll
            } else {
                Step::InitReset
            },
            Step::InitReset => Step::InitAckPoll,
            Step::InitAckPoll => if output_full(reply) {
                Step::InitAck
            } else {
                Step::InitAckPoll
            },
            Step::InitAck => Step::InitAckPoll2(reply),
            Step::InitAckPoll2(first) => if output_full(reply) {
                Step::InitAck2(first)
            } else {
                Step::InitAckPoll2(first)
            },
            Step::InitAck2(first) => if reset_acknowledged(first, reply) {
                Step::InitIdPoll(0)
            } else {
                initialized(None)
            },
            Step::InitIdPoll(attempts) => if output_full(reply) {
                Step::InitId
            } else if attempts + 1 < IDENTIFICATION_ATTEMPTS {
                Step::InitIdPoll((attempts + 1) as u16)
            } else {
                initialized(Some(Type::AncientATKeyboard))
            },
            Step::InitId => after_identification(reply),
            Step::InitIdPoll2(first) => if output_full(reply) {
                Step::InitId2(first)
            } else {
                Step::InitIdPoll2(first)
            },
            Step::InitId2(first) => initialized(Some(extended_type(first, reply))),
        }
    }
}

/// Reads a reply of kind `kind`.
fn read_answer(kind: Answer, byte: u8) -> (r: Outcome)
    ensures
        r == answer_outcome(kind, byte),
{
    match kind {
        Answer::Configuration => Outcome::Configuration(Configuration::from_byte(byte)),
        Answer::ControllerStatus => Outcome::ControllerStatus(ControllerStatus::from_byte(byte)),
        Answer::FirstPortTest => Outcome::PortTest(decode_port_test_result(byte)),
        Answer::SecondPortTest => Outcome::PortTest(decode_port_test_result(byte)),
        Answer::ControllerTest => Outcome::ControllerTest(ControllerTestResult::from(byte)),
    }
}

/// Clears the first port's interrupt, clock-disable and translation bits.
pub fn setup_first_port(config: u8) -> (r: u8)
    ensures
        r == first_port_configured(config),
{
    let c = Configuration::from_byte(config).with_bit(
        Configuration::FIRST_PORT_INTERRUPT_ENABLED_BIT,
        false,
    ).with_bit(Configuration::FIRST_PORT_CLOCK_DISABLED_BIT, false).with_bit(
        Configuration::FIRST_PORT_TRANSLATION_ENABLED_BIT,
        false,
    );
    let r = c.as_byte();
    proof {
        assert forall|i: u8| #![trigger bit_of(r, i)] i < 8 implies bit_of(r, i) == bit_of(
            config & 0xAE,
            i,
        ) by {
            lemma_bit_of_and(config, 0xAE, i);
            assert(bit_of(0xAEu8, i) == (i != 0 && i != 4 && i != 6)) by (bit_vector)
                requires
                    i < 8,
            ;
        }
        lemma_bits_determine_byte(r, config & 0xAE);
    }
    r
}

/// Clears the second port's clock-disable bit.
pub fn setup_second_port(config: u8) -> (r: u8)
    ensures
        r == second_port_configured(config),
{
    let c = Configuration::from_byte(config).with_bit(
        Configuration::SECOND_PORT_CLOCK_DISABLED_BIT,
        false,
    );
    let r = c.as_byte();
    proof {
        assert forall|i: u8| #![trigger bit_of(r, i)] i < 8 implies bit_of(r, i) == bit_of(
            config & 0xDF,
            i,
        ) by {
            lemma_bit_of_and(config, 0xDF, i);
            assert(bit_of(0xDFu8, i) == (i != 5)) by (bit_vector)
                requires
                    i < 8,
            ;
        }
        lemma_bits_determine_byte(r, config & 0xDF);
    }
    r
}

/// The step after the self-tests.
fn decide_after_tests(first_ok: bool, second_ok: bool) -> (r: Step)
    ensures
        r == after_tests(first_ok, second_ok),
{
    if !first_ok && !second_ok {
        Step::Finished(Outcome::Initialized(Err(())))
    } else if first_ok {
        Step::InitEnableFirst
    } else {
        Step::Finished(Outcome::Initialized(Ok((None, None))))
    }
}

/// Whether the reset answer, sorted in descending order, is (0xFA, 0xAA).
pub fn is_reset_acknowledged(byte_1: u8, byte_2: u8) -> (r: bool)
    ensures
        r == reset_acknowledged(byte_1, byte_2),
{
    let mut response = (byte_1, byte_2);
    if response.0 < response.1 {
        response = (response.1, response.0);
    }
    response.0 == 0xFA && response.1 == 0xAA
}

/// Classifies a device by its first identification byte, or asks for a
/// second one.
fn identify(byte: u8) -> (r: Step)
    ensures
        r == after_identification(byte),
{
    match byte {
        0x00 => Step::Finished(Outcome::Initialized(Ok((Some(Type::StandardPS2Mouse), None)))),
        0x03 => Step::Finished(Outcome::Initialized(Ok((Some(Type::MouseWithScrollWheel), None)))),
        0x04 => Step::Finished(Outcome::Initialized(Ok((Some(Type::FiveButtonMouse), None)))),
        0xAB | 0xAC => Step::InitIdPoll2(byte),
        _ => Step::Finished(Outcome::Initialized(Ok((Some(Type::Unknown(0x00, byte)), None)))),
    }
}

/// Classifies a device by its two identification bytes.
pub fn identify_extended(first: u8, second: u8) -> (r: Type)
    ensures
        r == extended_type(first, second),
{
    if first == 0xAB && (second == 0x83 || second == 0xC1) {
        Type::MF2Keyboard
    } else {
        Type::Unknown(first, second)
    }
}

/// Driver of the PS/2 controller. It owns the handles of the data and
/// command/status ports; an operation is started by one of its methods and
/// runs as a sequence of port accesses: `request` names the next access,
/// whose reply `advance` takes, until `request` reports the outcome.
pub struct Controller {
    data_port: Handle,
    controller_port: Handle,
    step: Step,
}

impl Controller {
    /// The step the driver stands at.
    pub closed spec fn step(&self) -> Step {
        self.step
    }

    /// The port of the data register's handle.
    pub closed spec fn data_port_id(&self) -> ID {
        self.data_port.port()
    }

    /// The port of the command register's handle.
    pub closed spec fn controller_port_id(&self) -> ID {
        self.controller_port.port()
    }

    /// A driver over the two ports, with no operation under way.
    pub fn new(data_port: Handle, controller_port: Handle) -> (r: Self)
        requires
            data_port.port() == DATA_PORT_ID,
            controller_port.port() == CONTROLLER_PORT_ID,
        ensures
            r.step() == Step::Finished(Outcome::Done),
            r.data_port_id() == DATA_PORT_ID,
            r.controller_port_id() == CONTROLLER_PORT_ID,
    {
        Controller { data_port, controller_port, step: Step::Finished(Outcome::Done) }
    }

    /// The data port's handle.
    pub fn data_port(&self) -> (r: &Handle)
        ensures
            r.port() == self.data_port_id(),
    {
        &self.data_port
    }

    /// The command/status port's handle.
    pub fn controller_port(&self) -> (r: &Handle)
        ensures
            r.port() == self.controller_port_id(),
    {
        &self.controller_port
    }

    /// Gives the two handles back.
    pub fn into_ports(self) -> (r: (Handle, Handle))
        ensures
            r.0.port() == self.data_port_id(),
            r.1.port() == self.controller_port_id(),
    {
        (self.data_port, self.controller_port)
    }

    /// Starts an operation that reads the configuration byte.
    pub fn configuration(&mut self)
        ensures
            final(self).step() == Step::CommandThenRead(0x20, Answer::Configuration),
            final(self).data_port_id() == old(self).data_port_id(),
            final(self).controller_port_id() == old(self).controller_port_id(),
    {
        let command = Command::ReadRAM(RamAddress::controller_configuration()).as_byte();
        self.step = Step::CommandThenRead(command, Answer::Configuration);
    }

    /// Starts an operation that writes the configuration byte.
    pub fn set_configuration(&mut self, configuration: Configuration)
        ensures
            final(self).step() == Step::CommandThenData(0x60, configuration.byte()),
            final(self).data_port_id() == old(self).data_port_id(),
            final(self).controller_port_id() == old(self).controller_port_id(),
    {
        let command = Command::WriteRAM(RamAddress::controller_configuration()).as_byte();
        self.step = Step::CommandThenData(command, configuration.as_byte());
    }

    /// Starts an operation that waits for a byte in the data register and reads it, with the
    /// channel that produced it.
    pub fn read(&mut self)
        ensures
            final(self).step() == Step::PollReadOrigin,
            final(self).data_port_id() == old(self).data_port_id(),
            final(self).controller_port_id() == old(self).controller_port_id(),
    {
        self.step = Step::PollReadOrigin;
    }

    /// Starts an operation that waits for a byte in the data register and reads it.
    pub fn read_without_origin(&mut self)
        ensures
            final(self).step() == Step::PollRead,
            final(self).data_port_id() == old(self).data_port_id(),
            final(self).controller_port_id() == old(self).controller_port_id(),
    {
        self.step = Step::PollRead;
    }

    /// Starts an operation that reads and drops every byte that is already waiting.
    pub fn flush(&mut self)
        ensures
            final(self).step() == Step::Flush,
            final(self).data_port_id() == old(self).data_port_id(),
            final(self).controller_port_id() == old(self).controller_port_id(),
    {
        self.step = Step::Flush;
    }

    /// Starts an operation that switches the second port off.
    pub fn disable_second_port(&mut self)
        ensures
            final(self).step() == Step::Command(0xA7),
            final(self).data_port_id() == old(self).data_port_id(),
            final(self).controller_port_id() == old(self).controller_port_id(),
    {
        self.step = Step::Command(Command::DisableSecondPort.as_byte());
    }

    /// Starts an operation that switches the second port on.
    pub fn enable_second_port(&mut self)
        ensures
            final(self).step() == Step::Command(0xA8),
            final(self).data_port_id() == old(self).data_port_id(),
            final(self).controller_port_id() == old(self).controller_port_id(),
    {
        self.step = Step::Command(Command::EnableSecondPort.as_byte());
    }

    /// Starts an operation that self-tests the second port.
    pub fn test_second_port(&mut self)
        ensures
            final(self).step() == Step::CommandThenRead(0xA9, Answer::SecondPortTest),
            final(self).data_port_id() == old(self).data_port_id(),
            final(self).controller_port_id() == old(self).controller_port_id(),
    {
        let command = Command::TestSecondPort.as_byte();
        self.step = Step::CommandThenRead(command, Answer::SecondPortTest);
    }

    /// Starts an operation that self-tests the controller.
    pub fn test_controller(&mut self)
        ensures
            final(self).step() == Step::CommandThenRead(0xAA, Answer::ControllerTest),
            final(self).data_port_id() == old(self).data_port_id(),
            final(self).controller_port_id() == old(self).controller_port_id(),
    {
        let command = Command::TestController.as_byte();
        self.step = Step::CommandThenRead(command, Answer::ControllerTest);
    }

    /// Starts an operation that self-tests the first port.
    pub fn test_first_port(&mut self)
        ensures
            final(self).step() == Step::CommandThenRead(0xAB, Answer::FirstPortTest),
            final(self).data_port_id() == old(self).data_port_id(),
            final(self).controller_port_id() == old(self).controller_port_id(),
    {
        self.step = Step::CommandThenRead(Command::TestFirstPort.as_byte(), Answer::FirstPortTest);
    }

    /// Starts an operation that switches the first port off.
    pub fn disable_first_port(&mut self)
        ensures
            final(self).step() == Step::Command(0xAD),
            final(self).data_port_id() == old(self).data_port_id(),
            final(self).controller_port_id() == old(self).controller_port_id(),
    {
        self.step = Step::Command(Command::DisableFirstPort.as_byte());
    }

    /// Starts an operation that switches the first port on.
    pub fn enable_first_port(&mut self)
        ensures
            final(self).step() == Step::Command(0xAE),
            final(self).data_port_id() == old(self).data_port_id(),
            final(self).controller_port_id() == old(self).controller_port_id(),
    {
        self.step = Step::Command(Command::EnableFirstPort.as_byte());
    }

    /// Starts an operation that reads the controller's output port.
    pub fn controller_status(&mut self)
        ensures
            final(self).step() == Step::CommandThenRead(0xD0, Answer::ControllerStatus),
            final(self).data_port_id() == old(self).data_port_id(),
            final(self).controller_port_id() == old(self).controller_port_id(),
    {
        let command = Command::ReadControllerOutputPort.as_byte();
        self.step = Step::CommandThenRead(command, Answer::ControllerStatus);
    }

    /// Starts an operation that writes the controller's output port.
    pub fn set_controller_status(&mut self, status: ControllerStatus)
        ensures
            final(self).step() == Step::CommandThenWrite(0xD1, status.byte()),
            final(self).data_port_id() == old(self).data_port_id(),
            final(self).controller_port_id() == old(self).controller_port_id(),
    {
        let command = Command::WriteToControllerOutputPort.as_byte();
        self.step = Step::CommandThenWrite(command, status.as_byte());
    }

    /// Starts an operation that sends `value` to the first port's device.
    pub fn write_to_first_port(&mut self, value: u8)
        ensures
            final(self).step() == Step::PollWrite(value),
            final(self).data_port_id() == old(self).data_port_id(),
            final(self).controller_port_id() == old(self).controller_port_id(),
    {
        self.step = Step::PollWrite(value);
    }

    /// Starts an operation that sends `value` to the second port's device.
    pub fn write_to_second_port(&mut self, value: u8)
        ensures
            final(self).step() == Step::CommandThenWrite(0xD4, value),
            final(self).data_port_id() == old(self).data_port_id(),
            final(self).controller_port_id() == old(self).controller_port_id(),
    {
        self.step = Step::CommandThenWrite(Command::WriteToSecondPortInput.as_byte(), value);
    }

    /// Starts an operation that puts `value` in the output buffer as if the second port's device
    /// had sent it.
    pub fn set_second_port_output(&mut self, value: u8)
        ensures
            final(self).step() == Step::CommandThenWrite(0xD3, value),
            final(self).data_port_id() == old(self).data_port_id(),
            final(self).controller_port_id() == old(self).controller_port_id(),
    {
        self.step = Step::CommandThenWrite(Command::WriteToSecondPortOutput.as_byte(), value);
    }

    /// Starts an operation that resets the system: it pulses the reset line (bit 0 of the
    /// "don't pulse" mask clear) and no other output line, with command 0xFE.
    pub fn reset_controller(&mut self)
        ensures
            final(self).step() == Step::Command(0xFE),
            final(self).data_port_id() == old(self).data_port_id(),
            final(self).controller_port_id() == old(self).controller_port_id(),
    {
        let pulse = Command::PulseOutputLines {
            reset: false,
            unknown_1: true,
            unknown_2: true,
            unknown_3: true,
        };
        let command = pulse.as_byte();
        self.step = Step::Command(command);
    }

    /// Starts the initialization handshake. Its outcome is `Initialized`: the device types found on
    /// the two ports, or an error when no port passed its self-test. Both ports are self-tested
    /// (the second one only on a dual-channel controller), but only the first port is enabled,
    /// reset and identified; the second port's type is always `None`.
    pub fn initialize(&mut self)
        ensures
            final(self).step() == Step::InitDisableFirst,
            final(self).data_port_id() == old(self).data_port_id(),
            final(self).controller_port_id() == old(self).controller_port_id(),
    {
        self.step = Step::InitDisableFirst;
    }

    /// What the current step asks for.
    pub fn request(&self) -> (r: Request)
        ensures
            r == self.step().request(),
    {
        match self.step {
            Step::Finished(outcome) => Request::Finished(outcome),
            Step::Command(command) => Request::Access(Access::WriteCommand(command)),
            Step::CommandThenRead(command, _) => Request::Access(Access::WriteCommand(command)),
            Step::ReadAnswer(_) => Request::Access(Access::ReadData),
            Step::CommandThenData(command, _) => Request::Access(Access::WriteCommand(command)),
            Step::SendData(value) => Request::Access(Access::WriteData(value)),
            Step::CommandThenWrite(command, _) => Request::Access(Access::WriteCommand(command)),
            Step::PollWrite(_) => Request::Access(Access::ReadStatus),
            Step::PollRead => Request::Access(Access::ReadStatus),
            Step::FetchByte => Request::Access(Access::ReadData),
            Step::PollReadOrigin => Request::Access(Access::ReadStatus),
            Step::FetchByteOrigin => Request::Access(Access::ReadData),
            Step::OriginCommand(_) => Request::Access(
                Access::WriteCommand(Command::ReadControllerOutputPort.as_byte()),
            ),
            Step::OriginRead(_) => Request::Access(Access::ReadData),
            Step::Flush => Request::Access(Access::ReadStatus),
            Step::FlushByte => Request::Access(Access::ReadData),
            Step::InitDisableFirst => Request::Access(
                Access::WriteCommand(Command::DisableFirstPort.as_byte()),
            ),
            Step::InitDisableSecond => Request::Access(
                Access::WriteCommand(Command::DisableSecondPort.as_byte()),
            ),
            Step::InitFlush => Request::Access(Access::ReadStatus),
            Step::InitFlushByte => Request::Access(Access::ReadData),
            Step::InitReadConfigCommand => Request::Access(
                Access::WriteCommand(
                    Command::ReadRAM(RamAddress::controller_configuration()).as_byte(),
                ),
            ),
            Step::InitReadConfig => Request::Access(Access::ReadData),
            Step::InitWriteConfigCommand(_) => Request::Access(
                Access::WriteCommand(
                    Command::WriteRAM(RamAddress::controller_configuration()).as_byte(),
                ),
            ),
            Step::InitWriteConfig(config) => Request::Access(Access::WriteData(config)),
            Step::InitEnableSecond => Request::Access(
                Access::WriteCommand(Command::EnableSecondPort.as_byte()),
            ),
            Step::InitProbeCommand => Request::Access(
                Access::WriteCommand(
                    Command::ReadRAM(RamAddress::controller_configuration()).as_byte(),
                ),
            ),
            Step::InitProbe => Request::Access(Access::ReadData),
            Step::InitDisableSecondAgain => Request::Access(
                Access::WriteCommand(Command::DisableSecondPort.as_byte()),
            ),
            Step::InitReconfigureCommand => Request::Access(
                Access::WriteCommand(
                    Command::ReadRAM(RamAddress::controller_configuration()).as_byte(),
                ),
            ),
            Step::InitReconfigure => Request::Access(Access::ReadData),
            Step::InitRewriteCommand(_) => Request::Access(
                Access::WriteCommand(
                    Command::WriteRAM(RamAddress::controller_configuration()).as_byte(),
                ),
            ),
            Step::InitRewrite(config) => Request::Access(Access::WriteData(config)),
            Step::InitTestFirstCommand(_) => Request::Access(
                Access::WriteCommand(Command::TestFirstPort.as_byte()),
            ),
            Step::InitTestFirst(_) => Request::Access(Access::ReadData),
            Step::InitTestSecondCommand(_) => Request::Access(
                Access::WriteCommand(Command::TestSecondPort.as_byte()),
            ),
            Step::InitTestSecond(_) => Request::Access(Access::ReadData),
            Step::InitEnableFirst => Request::Access(
                Access::WriteCommand(Command::EnableFirstPort.as_byte()),
            ),
            Step::InitResetPoll => Request::Access(Access::ReadStatus),
            Step::InitReset => Request::Access(Access::WriteData(0xFF)),
            Step::InitAckPoll => Request::Access(Access::ReadStatus),
            Step::InitAck => Request::Access(Access::ReadData),
            Step::InitAckPoll2(_) => Request::Access(Access::ReadStatus),
            Step::InitAck2(_) => Request::Access(Access::ReadData),
            Step::InitIdPoll(_) => Request::Access(Access::ReadStatus),
            Step::InitId => Request::Access(Access::ReadData),
            Step::InitIdPoll2(_) => Request::Access(Access::ReadStatus),
            Step::InitId2(_) => Request::Access(Access::ReadData),
        }
    }

    /// Takes the reply to the access that `request` asked for: the byte
    /// read, or any byte after a write.
    pub fn advance(&mut self, reply: u8)
        ensures
            final(self).step() == old(self).step().advance(reply),
            final(self).data_port_id() == old(self).data_port_id(),
            final(self).controller_port_id() == old(self).controller_port_id(),
    {
        let status = Status::from_byte(reply);
        let next = match self.step {
            Step::Finished(outcome) => Step::Finished(outcome),
            Step::Command(_) => Step::Finished(Outcome::Done),
            Step::CommandThenRead(_, kind) => Step::ReadAnswer(kind),
            Step::ReadAnswer(kind) => Step::Finished(read_answer(kind, reply)),
            Step::CommandThenData(_, value) => Step::SendData(value),
            Step::SendData(_) => Step::Finished(Outcome::Done),
            Step::CommandThenWrite(_, value) => Step::PollWrite(value),
            Step::PollWrite(value) => if status.input_buffer_is_full() {
                Step::PollWrite(value)
            } else {
                Step::SendData(value)
            },
            Step::PollRead => if status.output_buffer_is_full() {
                Step::FetchByte
            } else {
                Step::PollRead
            },
            Step::FetchByte => Step::Finished(Outcome::Byte(reply)),
            Step::PollReadOrigin => if status.output_buffer_is_full() {
                Step::FetchByteOrigin
            } else {
                Step::PollReadOrigin
            },
            Step::FetchByteOrigin => Step::OriginCommand(reply),
            Step::OriginCommand(byte) => Step::OriginRead(byte),
            Step::OriginRead(byte) => Step::Finished(
                Outcome::Read(ControllerStatus::from_byte(reply).data_origin(), byte),
            ),
            Step::Flush => if status.output_buffer_is_full() {
                Step::FlushByte
            } else {
                Step::Finished(Outcome::Done)
            },
            Step::FlushByte => Step::Flush,
            Step::InitDisableFirst => Step::InitDisableSecond,
            Step::InitDisableSecond => Step::InitFlush,
            Step::InitFlush => if status.output_buffer_is_full() {
                Step::InitFlushByte
            } else {
                Step::InitReadConfigCommand
            },
            Step::InitFlushByte => Step::InitFlush,
            Step::InitReadConfigCommand => Step::InitReadConfig,
            Step::InitReadConfig => Step::InitWriteConfigCommand(setup_first_port(reply)),
            Step::InitWriteConfigCommand(config) => Step::InitWriteConfig(config),
            Step::InitWriteConfig(_) => Step::InitEnableSecond,
            Step::InitEnableSecond => Step::InitProbeCommand,
            Step::InitProbeCommand => Step::InitProbe,
            Step::InitProbe => if Configuration::from_byte(reply).second_port_clock_is_enabled() {
                Step::InitDisableSecondAgain
            } else {
                Step::InitTestFirstCommand(false)
            },
            Step::InitDisableSecondAgain => Step::InitReconfigureCommand,
            Step::InitReconfigureCommand => Step::InitReconfigure,
            Step::InitReconfigure => Step::InitRewriteCommand(setup_second_port(reply)),
            Step::InitRewriteCommand(config) => Step::InitRewrite(config),
            Step::InitRewrite(_) => Step::InitTestFirstCommand(true),
            Step::InitTestFirstCommand(dual) => Step::InitTestFirst(dual),
            Step::InitTestFirst(dual) => {
                let first_ok = decode_port_test_result(reply).is_ok();
                if dual {
                    Step::InitTestSecondCommand(first_ok)
                } else {
                    decide_after_tests(first_ok, false)
                }
            },
            Step::InitTestSecondCommand(first_ok) => Step::InitTestSecond(first_ok),
            Step::InitTestSecond(first_ok) => decide_after_tests(
                first_ok,
                decode_port_test_result(reply).is_ok(),
            ),
            Step::InitEnableFirst => Step::InitResetPoll,
            Step::InitResetPoll => if status.input_buffer_is_full() {
                Step::InitResetPoll
            } else {
                Step::InitReset
            },
            Step::InitReset => Step::InitAckPoll,
            Step::InitAckPoll => if status.output_buffer_is_full() {
                Step::InitAck
            } else {
                Step::InitAckPoll
            },
            Step::InitAck => Step::InitAckPoll2(reply),
            Step::InitAckPoll2(first) => if status.output_buffer_is_full() {
                Step::InitAck2(first)
            } else {
                Step::InitAckPoll2(first)
            },
            Step::InitAck2(first) => if is_reset_acknowledged(first, reply) {
                Step::InitIdPoll(0)
            } else {
                Step::Finished(Outcome::Initialized(Ok((None, None))))
            },
            Step::InitIdPoll(attempts) => if status.output_buffer_is_full() {
                Step::InitId
            } else if attempts < IDENTIFICATION_ATTEMPTS - 1 {
                Step::InitIdPoll(attempts + 1)
            } else {
                Step::Finished(Outcome::Initialized(Ok((Some(Type::AncientATKeyboard), None))))
            },
            Step::InitId => identify(reply),
            Step::InitIdPoll2(first) => if status.output_buffer_is_full() {
                Step::InitId2(first)
            } else {
                Step::InitIdPoll2(first)
            },
            Step::InitId2(first) => Step::Finished(
                Outcome::Initialized(Ok((Some(identify_extended(first, reply)), None))),
            ),
        };
        self.step = next;
    }
}


/// The step reached from `step` after the replies `replies`, in order.
pub open spec fn run(step: Step, replies: Seq<u8>) -> Step
    decreases replies.len(),
{
    if replies.len() == 0 {
        step
    } else {
        run(step.advance(replies[0]), replies.drop_first())
    }
}

/// A finished operation asks for no access and stays finished, whatever
/// replies come.
pub proof fn lemma_finished_is_final(outcome: Outcome, replies: Seq<u8>)
    ensures
        Step::Finished(outcome).request() == Request::Finished(outcome),
        run(Step::Finished(outcome), replies) == Step::Finished(outcome),
    decreases replies.len(),
{
    if replies.len() > 0 {
        lemma_finished_is_final(outcome, replies.drop_first());
    }
}

/// When every port that was tested failed its self-test, initialization
/// ends at once with the failure: the step that reads the last test answer
/// finishes, so no reset and no identification read follows.
pub proof fn lemma_no_working_port(written: u8, first: u8, second: u8)
    requires
        port_test_outcome(first) is Err,
        port_test_outcome(second) is Err,
    ensures
        run(Step::InitTestFirstCommand(false), seq![written, first]) == Step::Finished(
            Outcome::Initialized(Err(())),
        ),
        run(Step::InitTestFirstCommand(true), seq![written, first, written, second])
            == Step::Finished(Outcome::Initialized(Err(()))),
{
    let single = seq![written, first];
    let s0 = Step::InitTestFirstCommand(false);
    assert(single.drop_first() =~= seq![first]);
    assert(seq![first].drop_first() =~= Seq::<u8>::empty());
    assert(run(s0.advance(written).advance(first), Seq::<u8>::empty()) == Step::Finished(
        Outcome::Initialized(Err(())),
    ));
    assert(run(s0.advance(written), seq![first]) == Step::Finished(Outcome::Initialized(Err(()))));
    assert(run(s0, single) == Step::Finished(Outcome::Initialized(Err(()))));
    let dual = seq![written, first, written, second];
    let d0 = Step::InitTestFirstCommand(true);
    let d1 = d0.advance(written);
    let d2 = d1.advance(first);
    let d3 = d2.advance(written);
    let d4 = d3.advance(second);
    assert(dual.drop_first() =~= seq![first, written, second]);
    assert(seq![first, written, second].drop_first() =~= seq![written, second]);
    assert(seq![written, second].drop_first() =~= seq![second]);
    assert(seq![second].drop_first() =~= Seq::<u8>::empty());
    assert(d4 == Step::Finished(Outcome::Initialized(Err(()))));
    assert(run(d4, Seq::<u8>::empty()) == d4);
    assert(run(d3, seq![second]) == d4);
    assert(run(d2, seq![written, second]) == d4);
    assert(run(d1, seq![first, written, second]) == d4);
    assert(run(d0, dual) == d4);
}

/// Initialization fails only on the answer of the last self-test, when that
/// test failed and no earlier one passed.
pub proof fn lemma_failure_needs_failed_tests(step: Step, reply: u8)
    requires
        !(step is Finished),
        step.advance(reply) == Step::Finished(Outcome::Initialized(Err(()))),
    ensures
        step == Step::InitTestFirst(false) || step == Step::InitTestSecond(false),
        port_test_outcome(reply) is Err,
{
}


/// Only the first port is reset and identified, and only once it passed
/// its self-test: the step that enables it follows the answer of the last
/// self-test, with the first port's test passed.
pub proof fn lemma_identification_needs_first_port(step: Step, reply: u8)
    requires
        step.advance(reply) == Step::InitEnableFirst,
    ensures
        (step == Step::InitTestFirst(false) && port_test_outcome(reply) is Ok) || step
            == Step::InitTestSecond(true),
{
}


/// Along any run, whatever was read before (a flush of any length, any
/// configuration), initialization fails only on the answer to a self-test
/// that failed while no earlier one passed, and nothing is asked after it:
/// no port is enabled or reset and no identification byte is read.
pub proof fn lemma_failure_run(step: Step, replies: Seq<u8>)
    requires
        !(step is Finished),
        run(step, replies) == Step::Finished(Outcome::Initialized(Err(()))),
    ensures
        exists|i: int|
            #![trigger replies[i]]
            0 <= i < replies.len() && (run(step, replies.take(i)) == Step::InitTestFirst(false)
                || run(step, replies.take(i)) == Step::InitTestSecond(false)) && port_test_outcome(
                replies[i],
            ) is Err && forall|j: int|
                #![trigger replies.take(j)]
                i < j <= replies.len() ==> run(step, replies.take(j)) == Step::Finished(
                    Outcome::Initialized(Err(())),
                ),
    decreases replies.len(),
{
    let fail = Step::Finished(Outcome::Initialized(Err(())));
    if replies.len() == 0 {
        assert(run(step, replies) == step);
    } else {
        let next = step.advance(replies[0]);
        assert(replies.take(0) =~= Seq::<u8>::empty());
        assert(run(step, replies.take(0)) == step);
        if next is Finished {
            lemma_finished_is_final(next->Finished_0, replies.drop_first());
            assert(next == fail);
            lemma_failure_needs_failed_tests(step, replies[0]);
            assert forall|j: int| #![trigger replies.take(j)] 0 < j <= replies.len() implies run(
                step,
                replies.take(j),
            ) == fail by {
                assert(replies.take(j).drop_first() =~= replies.drop_first().take(j - 1));
                lemma_finished_is_final(next->Finished_0, replies.drop_first().take(j - 1));
            }
            assert(0 <= 0 < replies.len() && (run(step, replies.take(0)) == Step::InitTestFirst(
                false,
            ) || run(step, replies.take(0)) == Step::InitTestSecond(false)) && port_test_outcome(
                replies[0],
            ) is Err);
        } else {
            let rest = replies.drop_first();
            lemma_failure_run(next, rest);
            let k = choose|k: int|
                #![trigger rest[k]]
                0 <= k < rest.len() && (run(next, rest.take(k)) == Step::InitTestFirst(false)
                    || run(next, rest.take(k)) == Step::InitTestSecond(false)) && port_test_outcome(
                    rest[k],
                ) is Err && forall|j: int|
                    #![trigger rest.take(j)]
                    k < j <= rest.len() ==> run(next, rest.take(j)) == fail;
            assert(replies.take(k + 1).drop_first() =~= rest.take(k));
            assert(replies[k + 1] == rest[k]);
            assert forall|j: int| #![trigger replies.take(j)] k + 1 < j <= replies.len() implies run(
                step,
                replies.take(j),
            ) == fail by {
                assert(replies.take(j).drop_first() =~= rest.take(j - 1));
            }
        }
    }
}

} // verus!
