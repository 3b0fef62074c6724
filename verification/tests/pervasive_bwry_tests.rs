use std::collections::VecDeque;

use epdsi::bus::{BusOp, WireRecord, transcript};
use epdsi::bus3::{PinStep, Spi3Op, byte_from_levels, levels_of, pin_steps};
use epdsi::controllers::{
    OtpStep, PervasiveBwryController, PervasiveBwryOtpError, PervasiveBwryVariant,
};
use epdsi::panels::{E2154QS0F1, E2417QS0A3, EPD_154_QS_0F, EPD_417_QS_0A};
use epdsi::traits::{ColorChannel, EpdController, EpdPanel};

type OtpError = PervasiveBwryOtpError<(), (), (), (), (), ()>;

#[derive(Debug, Clone, Copy, PartialEq, Eq)]
enum Event {
    /// A byte written with DC in the given state (true = data, false = command).
    Write(bool, u8),
    /// A byte read with DC in the given state.
    Read(bool, u8),
}

impl Event {
    fn cmd(byte: u8) -> Self {
        Event::Write(false, byte)
    }
    fn data(byte: u8) -> Self {
        Event::Write(true, byte)
    }
    fn read(byte: u8) -> Self {
        Event::Read(true, byte)
    }
}

/// A panel on the 3-wire pins: decodes the bytes clocked to it and answers reads, bit by bit,
/// from `queue`.
struct PinPanel<'q> {
    queue: &'q mut VecDeque<u8>,
    dc: bool,
    cs_low: bool,
    data_is_output: bool,
    data_level: bool,
    written: Vec<bool>,
    answer: Option<(u8, usize)>,
    events: Vec<Event>,
}

impl<'q> PinPanel<'q> {
    fn new(queue: &'q mut VecDeque<u8>) -> Self {
        PinPanel {
            queue,
            dc: false,
            cs_low: false,
            data_is_output: false,
            data_level: false,
            written: Vec::new(),
            answer: None,
            events: Vec::new(),
        }
    }

    /// The level the panel drives on DATA when the host samples it.
    fn sample(&mut self) -> bool {
        let (byte, bit) = match self.answer {
            Some(current) => current,
            None => (self.queue.pop_front().expect("read past the panel's answers"), 0),
        };
        let level = byte & (0x80 >> bit) != 0;
        if bit == 7 {
            self.events.push(Event::Read(self.dc, byte));
            self.answer = None;
        } else {
            self.answer = Some((byte, bit + 1));
        }
        level
    }

    /// Drives the pins through one operation's steps; returns the byte a read assembled.
    fn run(&mut self, op: Spi3Op) -> Option<u8> {
        let mut levels = [false; 8];
        let mut sampled = 0;
        for step in pin_steps(op) {
            match step {
                PinStep::CsHigh => self.cs_low = false,
                PinStep::CsLow => self.cs_low = true,
                PinStep::DcHigh => self.dc = true,
                PinStep::DcLow => self.dc = false,
                PinStep::DataOutput => self.data_is_output = true,
                PinStep::DataInput => self.data_is_output = false,
                PinStep::DataHigh => self.data_level = true,
                PinStep::DataLow => self.data_level = false,
                PinStep::SckHigh => {
                    if self.cs_low && self.data_is_output {
                        self.written.push(self.data_level);
                        if self.written.len() == 8 {
                            let byte = byte_from_levels(self.written.clone().try_into().unwrap());
                            self.events.push(Event::Write(self.dc, byte));
                            self.written.clear();
                        }
                    }
                },
                PinStep::SampleData => {
                    assert!(self.cs_low && !self.data_is_output, "sampled an undriven line");
                    levels[sampled] = self.sample();
                    sampled += 1;
                },
                PinStep::SckLow
                | PinStep::RstHigh
                | PinStep::RstLow
                | PinStep::DelayUs(_)
                | PinStep::DelayMs(_)
                | PinStep::WaitBusy => {},
            }
        }
        if sampled == 8 { Some(byte_from_levels(levels)) } else { None }
    }
}

/// Carries out 3-wire operations against a panel that answers reads with `queue`, recording
/// the bytes on the wire; returns the byte the last read returned.
fn perform(ops: &[Spi3Op], queue: &mut VecDeque<u8>, dc: &mut bool, events: &mut Vec<Event>) -> Option<u8> {
    let mut panel = PinPanel::new(queue);
    panel.dc = *dc;
    let mut last = None;
    for op in ops {
        if let Some(b) = panel.run(*op) {
            last = Some(b);
        }
    }
    assert!(!panel.cs_low, "CS must be deasserted after each operation");
    *dc = panel.dc;
    events.extend(panel.events);
    last
}

/// Runs the whole OTP read against a panel answering with `canned`.
fn read_otp(controller: &mut PervasiveBwryController, canned: &[u8]) -> (Result<(), OtpError>, Vec<Event>) {
    let mut queue: VecDeque<u8> = canned.iter().copied().collect();
    let mut events = Vec::new();
    let mut dc = false;
    let (mut session, mut ops) = controller.begin_read_otp();
    loop {
        let byte = perform(&ops, &mut queue, &mut dc, &mut events).expect("every step ends in a read");
        match controller.read_otp_step::<(), (), (), (), (), ()>(&mut session, byte) {
            OtpStep::Read(next) => ops = next,
            OtpStep::Finished(result) => {
                assert!(session.is_done());
                return (result, events);
            },
        }
    }
}

fn synthetic_otp(len: usize) -> Vec<u8> {
    (0..len).map(|i| if i == 0 { 0xA5 } else { i as u8 }).collect()
}

fn slice(otp: &[u8], start: usize, end: usize) -> Vec<u8> {
    otp[start..end].to_vec()
}

fn wire(ops: Vec<BusOp>) -> Vec<WireRecord> {
    transcript(&ops)
}

#[test]
fn test_pervasive_bwry_panel_dimensions() {
    assert_eq!(E2154QS0F1::WIDTH, 152);
    assert_eq!(E2154QS0F1::HEIGHT, 152);
    assert_eq!(EPD_154_QS_0F::WIDTH, 152);
    assert_eq!(E2417QS0A3::WIDTH, 400);
    assert_eq!(E2417QS0A3::HEIGHT, 300);
    assert_eq!(EPD_417_QS_0A::WIDTH, 400);
}

#[test]
fn test_spi3bus_write_cmd_and_data_byte_framing() {
    let mut queue = VecDeque::new();
    let mut panel = PinPanel::new(&mut queue);
    assert_eq!(panel.run(Spi3Op::WriteCmd(0x70)), None);
    assert_eq!(panel.run(Spi3Op::WriteData(0xA5)), None);
    assert_eq!(panel.events, vec![Event::cmd(0x70), Event::data(0xA5)]);
    // CS must be deasserted (unselected) after each byte.
    assert!(!panel.cs_low);
    // Bytes are clocked most significant bit first; reading the same levels back gives the
    // byte again.
    for byte in [0x70u8, 0xA5] {
        let levels = levels_of(byte);
        for (i, level) in levels.iter().enumerate() {
            assert_eq!(*level, byte & (1 << (7 - i)) != 0);
        }
        assert_eq!(byte_from_levels(levels), byte);
    }
}

#[test]
fn test_spi3bus_read_bytes() {
    let mut queue: VecDeque<u8> = [0x12u8, 0x34].into_iter().collect();
    let mut panel = PinPanel::new(&mut queue);
    let a = panel.run(Spi3Op::ReadDataByte).unwrap();
    let b = panel.run(Spi3Op::ReadByteNoDc).unwrap();
    assert_eq!(a, 0x12);
    assert_eq!(b, 0x34);
    assert_eq!(panel.events, vec![Event::read(0x12), Event::read(0x34)]);
}

#[test]
fn spi3_pin_steps_frame_each_byte() {
    let cmd = pin_steps(Spi3Op::WriteCmd(0x80));
    assert_eq!(cmd.len(), 3 + 8 * 6 + 1);
    assert_eq!(&cmd[..4], &[PinStep::DcLow, PinStep::CsLow, PinStep::DataOutput, PinStep::DataHigh]);
    assert_eq!(cmd[3 + 6], PinStep::DataLow);
    assert_eq!(cmd.last(), Some(&PinStep::CsHigh));
    let read = pin_steps(Spi3Op::ReadByteNoDc);
    assert_eq!(read.len(), 2 + 8 * 5 + 1);
    assert_eq!(read.iter().filter(|s| **s == PinStep::SampleData).count(), 8);
    assert_eq!(
        pin_steps(Spi3Op::Reset),
        vec![
            PinStep::DelayMs(20),
            PinStep::RstHigh,
            PinStep::DelayMs(10),
            PinStep::RstLow,
            PinStep::DelayMs(20),
            PinStep::RstHigh,
            PinStep::DelayMs(10),
            PinStep::CsHigh,
            PinStep::DelayMs(10),
            PinStep::WaitBusy,
        ]
    );
}

#[test]
fn test_pervasive_bwry_chip_id_mismatch() {
    let mut controller = PervasiveBwryController::new(E2154QS0F1::WIDTH, E2154QS0F1::HEIGHT);
    let (result, _) = read_otp(&mut controller, &[0x00, 0x01]);
    assert_eq!(result, Err(PervasiveBwryOtpError::UnexpectedChipId(0x0001)));
}

#[test]
fn test_pervasive_bwry_chip_id_normalization() {
    let mut controller = PervasiveBwryController::new(E2417QS0A3::WIDTH, E2417QS0A3::HEIGHT)
        .with_variant(PervasiveBwryVariant::DriverA);
    let (result, _) = read_otp(&mut controller, &[0x83, 0x02]);
    assert_eq!(result, Err(PervasiveBwryOtpError::UnexpectedChipId(0x0302)));
}

#[test]
fn test_pervasive_bwry_driverf_read_otp_sequence() {
    let otp = synthetic_otp(48);
    let mut canned = vec![0x03, 0x02];
    canned.push(0xAA);
    canned.extend_from_slice(&otp);
    let mut controller = PervasiveBwryController::new(E2154QS0F1::WIDTH, E2154QS0F1::HEIGHT)
        .with_variant(PervasiveBwryVariant::DriverF);
    let (result, events) = read_otp(&mut controller, &canned);
    assert_eq!(result, Ok(()));

    let mut expected = vec![
        Event::cmd(0x70),
        Event::read(0x03),
        Event::read(0x02),
        Event::cmd(0xa4),
        Event::data(0x15),
        Event::data(0x00),
        Event::data(0x01),
        Event::cmd(0xa1),
        Event::read(0xAA),
        Event::read(0xA5),
    ];
    for &b in &otp[1..48] {
        expected.push(Event::Read(true, b));
    }
    assert_eq!(events, expected);
}

#[test]
fn test_pervasive_bwry_driverf_invalid_otp_marker() {
    let mut controller = PervasiveBwryController::new(E2154QS0F1::WIDTH, E2154QS0F1::HEIGHT)
        .with_variant(PervasiveBwryVariant::DriverF);
    let (result, _) = read_otp(&mut controller, &[0x03, 0x02, 0xAA, 0x00]);
    assert_eq!(result, Err(PervasiveBwryOtpError::InvalidOtpMarker));
}

#[test]
fn test_pervasive_bwry_drivera_read_otp_sequence() {
    let otp = synthetic_otp(112);
    let mut canned = vec![0x06, 0x05];
    canned.push(0xAA);
    canned.extend_from_slice(&otp);
    let mut controller = PervasiveBwryController::new(E2417QS0A3::WIDTH, E2417QS0A3::HEIGHT)
        .with_variant(PervasiveBwryVariant::DriverA);
    let (result, events) = read_otp(&mut controller, &canned);
    assert_eq!(result, Ok(()));

    let mut expected = vec![
        Event::cmd(0x70),
        Event::read(0x06),
        Event::read(0x05),
        Event::cmd(0xa2),
        Event::data(0x00),
        Event::data(0x15),
        Event::data(0x00),
        Event::cmd(0xa0),
        Event::cmd(0x92),
        Event::read(0xAA),
        Event::read(0xA5),
    ];
    for &b in &otp[1..112] {
        expected.push(Event::Read(true, b));
    }
    assert_eq!(events, expected);
}

#[test]
fn test_pervasive_bwry_drivera_bank2_fallback() {
    let otp = synthetic_otp(112);
    let mut canned = vec![0x06, 0x05];
    canned.push(0xAA);
    canned.push(0x00);
    canned.extend(std::iter::repeat(0xFF).take(0x70 - 1));
    canned.push(0xA5);
    canned.extend_from_slice(&otp[1..112]);
    let mut controller = PervasiveBwryController::new(E2417QS0A3::WIDTH, E2417QS0A3::HEIGHT)
        .with_variant(PervasiveBwryVariant::DriverA);
    let (result, _) = read_otp(&mut controller, &canned);
    assert_eq!(result, Ok(()));
}

#[test]
fn test_pervasive_bwry_drivera_invalid_otp_marker() {
    let mut canned = vec![0x06, 0x05, 0xAA, 0x00];
    canned.extend(std::iter::repeat(0xFF).take(0x70 - 1));
    canned.push(0x00);
    let mut controller = PervasiveBwryController::new(E2417QS0A3::WIDTH, E2417QS0A3::HEIGHT)
        .with_variant(PervasiveBwryVariant::DriverA);
    let (result, _) = read_otp(&mut controller, &canned);
    assert_eq!(result, Err(PervasiveBwryOtpError::InvalidOtpMarker));
}

#[test]
fn test_pervasive_bwry_init_sequence_uses_otp_data() {
    let otp = synthetic_otp(48);
    let mut canned = vec![0x03, 0x02, 0xAA];
    canned.extend_from_slice(&otp);
    let mut controller = PervasiveBwryController::new(E2154QS0F1::WIDTH, E2154QS0F1::HEIGHT)
        .with_temperature(25)
        .with_variant(PervasiveBwryVariant::DriverF);
    let (result, _) = read_otp(&mut controller, &canned);
    assert_eq!(result, Ok(()));

    let records = wire(controller.init_sequence());
    assert_eq!(
        records,
        vec![
            WireRecord::Command(0xe0),
            WireRecord::Data(vec![0x02]),
            WireRecord::Command(0xe6),
            WireRecord::Data(vec![25]),
            WireRecord::Command(0xa5),
            WireRecord::Command(0x01),
            WireRecord::Data(slice(&otp, 16, 17)),
            WireRecord::Command(0x00),
            WireRecord::Data(slice(&otp, 17, 19)),
            WireRecord::Command(0x03),
            WireRecord::Data(slice(&otp, 30, 33)),
            WireRecord::Command(0x06),
            WireRecord::Data(slice(&otp, 23, 30)),
            WireRecord::Command(0x50),
            WireRecord::Data(slice(&otp, 39, 40)),
            WireRecord::Command(0x60),
            WireRecord::Data(slice(&otp, 40, 42)),
            WireRecord::Command(0x61),
            WireRecord::Data(slice(&otp, 19, 23)),
            WireRecord::Command(0xe7),
            WireRecord::Data(slice(&otp, 33, 34)),
            WireRecord::Command(0xe3),
            WireRecord::Data(slice(&otp, 42, 43)),
            WireRecord::Command(0x4d),
            WireRecord::Data(slice(&otp, 43, 44)),
            WireRecord::Command(0xb4),
            WireRecord::Data(slice(&otp, 44, 45)),
            WireRecord::Command(0xb5),
            WireRecord::Data(slice(&otp, 45, 46)),
            WireRecord::Command(0xe9),
            WireRecord::Data(vec![0x01]),
            WireRecord::Command(0x30),
            WireRecord::Data(vec![0x08]),
        ]
    );
    assert!(!records.contains(&WireRecord::Command(0x04)));
}

#[test]
fn test_pervasive_bwry_drivera_init_sequence_powers_on() {
    let mut controller = PervasiveBwryController::new(E2417QS0A3::WIDTH, E2417QS0A3::HEIGHT)
        .with_variant(PervasiveBwryVariant::DriverA);
    let records = wire(controller.init_sequence());
    assert!(records.contains(&WireRecord::Command(0x04)));
}

#[test]
fn test_pervasive_bwry_write_frame_and_pattern() {
    let mut controller = PervasiveBwryController::new(E2154QS0F1::WIDTH, E2154QS0F1::HEIGHT);
    assert_eq!(
        wire(controller.write_frame(ColorChannel::BlackWhite, &[0xAA, 0xBB])),
        vec![WireRecord::Command(0x10), WireRecord::Data(vec![0xAA, 0xBB])]
    );
    assert_eq!(
        wire(controller.write_frame_pattern(ColorChannel::BlackWhite, 0x11, 4)),
        vec![WireRecord::Command(0x10), WireRecord::Data(vec![0x11; 4])]
    );
}

#[test]
fn test_pervasive_bwry_trigger_refresh_and_sleep() {
    let mut controller = PervasiveBwryController::new(E2154QS0F1::WIDTH, E2154QS0F1::HEIGHT)
        .with_variant(PervasiveBwryVariant::DriverF);
    assert_eq!(
        wire(controller.trigger_refresh()),
        vec![
            WireRecord::Command(0x04),
            WireRecord::Command(0x12),
            WireRecord::Data(vec![0x00]),
        ]
    );
    assert_eq!(
        wire(controller.sleep()),
        vec![WireRecord::Command(0x02), WireRecord::Data(vec![0x00])]
    );

    let mut controller = PervasiveBwryController::new(E2417QS0A3::WIDTH, E2417QS0A3::HEIGHT)
        .with_variant(PervasiveBwryVariant::DriverA);
    assert_eq!(
        wire(controller.trigger_refresh()),
        vec![WireRecord::Command(0x12), WireRecord::Data(vec![0x00])]
    );
    assert_eq!(
        wire(controller.sleep()),
        vec![
            WireRecord::Command(0x02),
            WireRecord::Data(vec![0x00]),
            WireRecord::Command(0x00),
            WireRecord::Data(vec![0x00, 0x00]),
        ]
    );
}

#[test]
fn bwry_failed_marker_is_still_recorded_and_init_reads_the_image() {
    // A DriverA read that finds the marker only in the second bank keeps the bank-2 bytes.
    let otp = synthetic_otp(112);
    let mut canned = vec![0x06, 0x05, 0xAA, 0x00];
    canned.extend(std::iter::repeat(0xFF).take(0x70 - 1));
    canned.extend_from_slice(&otp);
    let mut controller = PervasiveBwryController::new(E2417QS0A3::WIDTH, E2417QS0A3::HEIGHT)
        .with_variant(PervasiveBwryVariant::DriverA);
    let (result, events) = read_otp(&mut controller, &canned);
    assert_eq!(result, Ok(()));
    // chip id (2) + dummy + bad marker + 111 skipped + marker + 111 data bytes
    assert_eq!(events.iter().filter(|e| matches!(e, Event::Read(..))).count(), 2 + 1 + 1 + 111 + 1 + 111);
    let records = wire(controller.init_sequence());
    assert_eq!(records[4], WireRecord::Command(0x01));
    assert_eq!(records[5], WireRecord::Data(vec![0x10]));
}
