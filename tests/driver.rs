use std::collections::VecDeque;

use kfs::controller::{Origin, PortError};
use kfs::driver::{
    is_reset_acknowledged, identify_extended, setup_first_port, setup_second_port, Access,
    Controller, Outcome, Request, CONTROLLER_PORT_ID, DATA_PORT_ID,
};
use kfs::port::Manager;
use kfs::ps2::Type;

/// A simulated controller: the output buffer starts with `stale` bytes,
/// and each write listed in `answers` puts its bytes in the buffer, in the
/// order the writes happen.
struct Bench {
    data: VecDeque<u8>,
    answers: Vec<(Access, Vec<u8>)>,
    input_busy: u32,
    log: Vec<Access>,
}

impl Bench {
    fn new(stale: &[u8], answers: &[(Access, &[u8])]) -> Bench {
        Bench {
            data: stale.iter().copied().collect(),
            answers: answers.iter().map(|(a, b)| (*a, b.to_vec())).collect(),
            input_busy: 0,
            log: Vec::new(),
        }
    }

    fn run(&mut self, controller: &mut Controller) -> Outcome {
        for _ in 0..100_000 {
            match controller.request() {
                Request::Finished(outcome) => return outcome,
                Request::Access(access) => {
                    self.log.push(access);
                    let reply = match access {
                        Access::ReadStatus => {
                            let mut status = 0u8;
                            if !self.data.is_empty() {
                                status |= 0x01;
                            }
                            if self.input_busy > 0 {
                                self.input_busy -= 1;
                                status |= 0x02;
                            }
                            status
                        }
                        Access::ReadData => self.data.pop_front().expect("no byte left"),
                        Access::WriteCommand(_) | Access::WriteData(_) => {
                            if let Some(i) = self.answers.iter().position(|(a, _)| *a == access) {
                                let (_, bytes) = self.answers.remove(i);
                                self.data.extend(bytes);
                            }
                            0
                        }
                    };
                    controller.advance(reply);
                }
            }
        }
        panic!("the operation did not finish");
    }
}

const READ_CONFIG: Access = Access::WriteCommand(0x20);
const TEST_FIRST: Access = Access::WriteCommand(0xAB);
const TEST_SECOND: Access = Access::WriteCommand(0xA9);
const RESET: Access = Access::WriteData(0xFF);

fn controller() -> Controller {
    let mut manager = Manager::new();
    let data = manager.try_aquire(DATA_PORT_ID).unwrap();
    let command = manager.try_aquire(CONTROLLER_PORT_ID).unwrap();
    Controller::new(data, command)
}

#[test]
fn initialize_fails_when_no_port_passes() {
    let mut c = controller();
    // Second clock stays disabled: single channel; the first test fails.
    let mut bench = Bench::new(&[], &[(READ_CONFIG, &[0x00]), (READ_CONFIG, &[0x20]), (TEST_FIRST, &[0x01])]);
    c.initialize();
    assert_eq!(bench.run(&mut c), Outcome::Initialized(Err(())));
    // The last access read the self-test answer: no reset, no identification.
    assert_eq!(bench.log.last(), Some(&Access::ReadData));
    assert!(!bench.log.contains(&Access::WriteData(0xFF)));
    assert!(bench.data.is_empty());
}

#[test]
fn initialize_fails_when_both_ports_fail() {
    let mut c = controller();
    // Second clock enabled: dual channel; both tests fail.
    let mut bench = Bench::new(
        &[],
        &[
            (READ_CONFIG, &[0x00]),
            (READ_CONFIG, &[0x00]),
            (READ_CONFIG, &[0x00]),
            (TEST_FIRST, &[0x02]),
            (TEST_SECOND, &[0x10]),
        ],
    );
    c.initialize();
    assert_eq!(bench.run(&mut c), Outcome::Initialized(Err(())));
    assert!(bench.log.contains(&Access::WriteCommand(0xA9)));
    assert!(!bench.log.contains(&Access::WriteData(0xFF)));
    assert_eq!(bench.log.last(), Some(&Access::ReadData));
}

#[test]
fn initialize_identifies_mf2_keyboard() {
    let mut c = controller();
    // A stale byte to flush; acknowledgement in reverse order; AB 83.
    let mut bench = Bench::new(
        &[0x99],
        &[
            (READ_CONFIG, &[0x47]),
            (READ_CONFIG, &[0x20]),
            (TEST_FIRST, &[0x00]),
            (RESET, &[0xAA, 0xFA, 0xAB, 0x83]),
        ],
    );
    bench.input_busy = 0;
    c.initialize();
    assert_eq!(bench.run(&mut c), Outcome::Initialized(Ok((Some(Type::MF2Keyboard), None))));
    let expected = vec![
        Access::WriteCommand(0xAD),
        Access::WriteCommand(0xA7),
        Access::ReadStatus,
        Access::ReadData,
        Access::ReadStatus,
    ];
    assert_eq!(bench.log[..5].to_vec(), expected);
    // The configuration written back has bits 0, 4 and 6 cleared.
    assert!(bench.log.contains(&Access::WriteData(0x47 & 0xAE)));
    assert!(bench.log.contains(&Access::WriteCommand(0xAE)));
    assert!(bench.log.contains(&Access::WriteData(0xFF)));
}

#[test]
fn initialize_dual_channel_second_passes_only() {
    let mut c = controller();
    let mut bench = Bench::new(
        &[],
        &[
            (READ_CONFIG, &[0x00]),
            (READ_CONFIG, &[0x00]),
            (READ_CONFIG, &[0x20]),
            (TEST_FIRST, &[0x01]),
            (TEST_SECOND, &[0x00]),
        ],
    );
    c.initialize();
    assert_eq!(bench.run(&mut c), Outcome::Initialized(Ok((None, None))));
    // The second port's clock-disable bit is cleared in the stored configuration.
    assert!(bench.log.contains(&Access::WriteData(0x00)));
    assert!(!bench.log.contains(&Access::WriteData(0xFF)));
}

#[test]
fn initialize_ancient_keyboard_when_no_identification() {
    let mut c = controller();
    let mut bench = Bench::new(
        &[],
        &[(READ_CONFIG, &[0x00]), (READ_CONFIG, &[0x20]), (TEST_FIRST, &[0x00]), (RESET, &[0xFA, 0xAA])],
    );
    bench.input_busy = 3;
    c.initialize();
    assert_eq!(bench.run(&mut c), Outcome::Initialized(Ok((Some(Type::AncientATKeyboard), None))));
    let polls = bench.log.iter().rev().take_while(|a| **a == Access::ReadStatus).count();
    assert_eq!(polls, 0x1000);
}

#[test]
fn initialize_mouse_types() {
    for (id, ty) in [(0x00u8, Type::StandardPS2Mouse), (0x03, Type::MouseWithScrollWheel), (0x04, Type::FiveButtonMouse), (0x42, Type::Unknown(0x00, 0x42))] {
        let mut c = controller();
        let mut bench = Bench::new(
            &[],
            &[(READ_CONFIG, &[0x00]), (READ_CONFIG, &[0x20]), (TEST_FIRST, &[0x00]), (RESET, &[0xFA, 0xAA, id])],
        );
        c.initialize();
        assert_eq!(bench.run(&mut c), Outcome::Initialized(Ok((Some(ty), None))));
    }
}

#[test]
fn initialize_unacknowledged_reset() {
    let mut c = controller();
    let mut bench = Bench::new(
        &[],
        &[(READ_CONFIG, &[0x00]), (READ_CONFIG, &[0x20]), (TEST_FIRST, &[0x00]), (RESET, &[0xFE, 0xAA])],
    );
    c.initialize();
    assert_eq!(bench.run(&mut c), Outcome::Initialized(Ok((None, None))));
}

#[test]
fn single_operations() {
    let mut c = controller();
    let mut bench = Bench::new(&[], &[(TEST_FIRST, &[0x04])]);
    c.test_first_port();
    assert_eq!(bench.run(&mut c), Outcome::PortTest(Err(PortError::DataLineStuckHigh)));
    assert_eq!(bench.log, vec![Access::WriteCommand(0xAB), Access::ReadData]);

    let mut bench = Bench::new(&[0x7A], &[(Access::WriteCommand(0xD0), &[0x10])]);
    c.read();
    assert_eq!(bench.run(&mut c), Outcome::Read(Origin::FirstPort, 0x7A));
    assert_eq!(
        bench.log,
        vec![Access::ReadStatus, Access::ReadData, Access::WriteCommand(0xD0), Access::ReadData]
    );

    let mut bench = Bench::new(&[0x1C], &[]);
    c.read_without_origin();
    assert_eq!(bench.run(&mut c), Outcome::Byte(0x1C));

    let mut bench = Bench::new(&[1, 2, 3], &[]);
    c.flush();
    assert_eq!(bench.run(&mut c), Outcome::Done);
    assert!(bench.data.is_empty());

    let mut bench = Bench::new(&[], &[]);
    c.write_to_second_port(0xF4);
    assert_eq!(bench.run(&mut c), Outcome::Done);
    assert_eq!(
        bench.log,
        vec![Access::WriteCommand(0xD4), Access::ReadStatus, Access::WriteData(0xF4)]
    );

    let mut bench = Bench::new(&[], &[]);
    c.reset_controller();
    assert_eq!(bench.run(&mut c), Outcome::Done);
    assert_eq!(bench.log, vec![Access::WriteCommand(0xFE)]);
}

#[test]
fn write_waits_for_input_buffer() {
    let mut c = controller();
    c.write_to_first_port(0xED);
    assert_eq!(c.request(), Request::Access(Access::ReadStatus));
    c.advance(0x02);
    assert_eq!(c.request(), Request::Access(Access::ReadStatus));
    c.advance(0x00);
    assert_eq!(c.request(), Request::Access(Access::WriteData(0xED)));
    c.advance(0);
    assert_eq!(c.request(), Request::Finished(Outcome::Done));
}

#[test]
fn helpers() {
    assert_eq!(setup_first_port(0xFF), 0xAE);
    assert_eq!(setup_second_port(0xFF), 0xDF);
    assert!(is_reset_acknowledged(0xFA, 0xAA));
    assert!(is_reset_acknowledged(0xAA, 0xFA));
    assert!(!is_reset_acknowledged(0xFA, 0xFA));
    assert_eq!(identify_extended(0xAB, 0xC1), Type::MF2Keyboard);
    assert_eq!(identify_extended(0xAC, 0x83), Type::Unknown(0xAC, 0x83));
}

#[test]
fn initialize_fails_after_long_flush() {
    let mut c = controller();
    let stale: Vec<u8> = (0..37).collect();
    let mut bench = Bench::new(
        &stale,
        &[(READ_CONFIG, &[0x00]), (READ_CONFIG, &[0x20]), (TEST_FIRST, &[0x03])],
    );
    c.initialize();
    assert_eq!(bench.run(&mut c), Outcome::Initialized(Err(())));
    assert_eq!(bench.log.last(), Some(&Access::ReadData));
    assert!(!bench.log.contains(&Access::WriteCommand(0xAE)));
    assert!(!bench.log.contains(&Access::WriteData(0xFF)));
    assert_eq!(c.request(), Request::Finished(Outcome::Initialized(Err(()))));
}
