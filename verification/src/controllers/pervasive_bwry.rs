//! Pervasive Displays BWRY (Black/White/Red/Yellow, Spectra-4) E-Paper Display Controller.
//!
//! The BWRY COG family sources nearly all of its init-time register values (PSR, booster, PLL,
//! CDI/VCOM, resolution) from the panel's on-chip OTP memory, read once over the bit-banged
//! 3-wire bus ([`crate::bus3::Spi3Bus`]) before the normal init sequence runs.
//!
//! The OTP read is a handshake whose next step depends on what the panel answered (the chip ID,
//! the bank-start marker), so it is planned one read at a time: [`PervasiveBwryController::
//! begin_read_otp`] starts an [`OtpSession`], and [`PervasiveBwryController::read_otp_step`]
//! takes each byte read and says what to do next.

use vstd::prelude::*;
use crate::bus::{BusOp, Op, cmd_data, ops_of, push_op, send_command, send_command_with_data};
use crate::bus3::{Spi3BusError, Spi3Op};
use crate::controllers::common::{fill_ops, plan_fill};
use crate::traits::{ColorChannel, EpdController};

verus! {

/// Panel Setting Register (PSR)
pub const PSR: u8 = 0x00;
/// Power Off command
pub const POWER_OFF: u8 = 0x02;
/// Power On command
pub const POWER_ON: u8 = 0x04;
/// Write image data (single packed 2bpp BWRY plane)
pub const WRITE_DATA: u8 = 0x10;
/// Display Refresh command (DRF)
pub const DISPLAY_REFRESH: u8 = 0x12;
/// VCOM and Data Interval Setting (CDI)
pub const CDI: u8 = 0x50;
/// Active/state select register
pub const ACTIVE_STATE: u8 = 0xE0;
/// Input Temperature value selection (BWRY uses 0xE6, not the BWR family's 0xE5)
pub const INPUT_TEMP: u8 = 0xE6;
/// OTP read chip-ID command
pub const READ_CHIP_ID: u8 = 0x70;

/// The byte every valid OTP bank starts with.
pub const OTP_MARKER: u8 = 0xA5;

/// Size of the OTP register image kept by the controller (the larger, DriverA, case).
pub const OTP_CAPACITY: usize = 112;

/// Pervasive BWRY COG driver IC variant family.
#[derive(Debug, Clone, Copy, PartialEq, Eq, Structural)]
pub enum PervasiveBwryVariant {
    /// Driver F (e.g. `E2154QS0F1`). 48-byte OTP read, chip ID `0x0302` (raw `0x8302` is
    /// normalized to `0x0302`).
    DriverF,
    /// Driver A (e.g. `E2417QS0A3`). 112-byte OTP read with bank-2 fallback, chip ID `0x0605`.
    DriverA,
}

impl Default for PervasiveBwryVariant {
    fn default() -> (r: Self)
        ensures
            r == PervasiveBwryVariant::DriverF,
    {
        PervasiveBwryVariant::DriverF
    }
}

/// The chip ID each variant answers the handshake with.
pub open spec fn expected_chip_id(variant: PervasiveBwryVariant) -> u16 {
    match variant {
        PervasiveBwryVariant::DriverF => 0x0302,
        PervasiveBwryVariant::DriverA => 0x0605,
    }
}

/// The number of OTP bytes each variant reads, marker included.
pub open spec fn otp_len(variant: PervasiveBwryVariant) -> int {
    match variant {
        PervasiveBwryVariant::DriverF => 48,
        PervasiveBwryVariant::DriverA => 112,
    }
}

/// The chip ID two read bytes spell, high byte first, with the raw `0x8302` read as `0x0302`.
pub open spec fn chip_id(hi: u8, lo: u8) -> u16 {
    let raw = (hi as int) * 256 + (lo as int);
    if raw == 0x8302 {
        0x0302
    } else {
        raw as u16
    }
}

/// Error type for the OTP read, extending bit-banged bus errors with handshake failures.
#[derive(Debug, Clone, Copy, PartialEq, Eq)]
pub enum PervasiveBwryOtpError<CSE, SCKE, DATAE, DCE, RSTE, BUSYE> {
    /// Underlying bit-banged bus/GPIO error.
    Bus(Spi3BusError<CSE, SCKE, DATAE, DCE, RSTE, BUSYE>),
    /// OTP chip-ID handshake returned an unexpected value.
    UnexpectedChipId(u16),
    /// OTP bank-start marker (`0xA5`) was not found at either the primary or bank-2 fallback offset.
    InvalidOtpMarker,
}

impl<CSE, SCKE, DATAE, DCE, RSTE, BUSYE> From<Spi3BusError<CSE, SCKE, DATAE, DCE, RSTE, BUSYE>> for PervasiveBwryOtpError<CSE, SCKE, DATAE, DCE, RSTE, BUSYE> {
    fn from(e: Spi3BusError<CSE, SCKE, DATAE, DCE, RSTE, BUSYE>) -> (r: Self) {
        PervasiveBwryOtpError::Bus(e)
    }
}

impl<CSE, SCKE, DATAE, DCE, RSTE, BUSYE> vstd::std_specs::convert::FromSpecImpl<Spi3BusError<CSE, SCKE, DATAE, DCE, RSTE, BUSYE>> for PervasiveBwryOtpError<CSE, SCKE, DATAE, DCE, RSTE, BUSYE> {
    open spec fn obeys_from_spec() -> bool {
        true
    }

    open spec fn from_spec(e: Spi3BusError<CSE, SCKE, DATAE, DCE, RSTE, BUSYE>) -> Self {
        PervasiveBwryOtpError::Bus(e)
    }
}

/// Where an OTP read stands: which byte the panel is to send next.
#[derive(Debug, Clone, Copy, PartialEq, Eq, Structural)]
pub enum OtpPhase {
    /// The chip ID's high byte.
    ChipIdHigh,
    /// The chip ID's low byte.
    ChipIdLow,
    /// The dummy byte ahead of the OTP bank.
    Dummy,
    /// The first bank's start marker.
    Marker,
    /// The second bank's start marker (DriverA), after 111 discarded bytes.
    Bank2Marker,
    /// OTP byte `i`.
    Data(usize),
    /// The read is over.
    Done,
}

/// The state of an OTP read.
pub struct OtpSessionView {
    /// The variant the handshake follows.
    pub variant: PervasiveBwryVariant,
    /// The byte expected next.
    pub phase: OtpPhase,
    /// The chip ID's high byte, once read.
    pub hi: u8,
}

/// What an OTP read step asks for, abstractly.
pub enum OtpOutcome {
    /// Carry out these operations; the byte read by the last one is the next input.
    Read(Seq<Spi3Op>),
    /// The read completed.
    Done,
    /// The chip answered with another ID.
    WrongChip(u16),
    /// No bank-start marker was found.
    NoMarker,
    /// A pin failed.
    BusFault,
}

/// One OTP read in progress.
#[derive(Debug, Clone, Copy)]
pub struct OtpSession {
    variant: PervasiveBwryVariant,
    phase: OtpPhase,
    hi: u8,
}

impl View for OtpSession {
    type V = OtpSessionView;

    closed spec fn view(&self) -> OtpSessionView {
        OtpSessionView { variant: self.variant, phase: self.phase, hi: self.hi }
    }
}

impl OtpSession {
    /// A data phase always names a byte past the marker and inside the variant's OTP image.
    #[verifier::type_invariant]
    closed spec fn wf(self) -> bool {
        self.phase matches OtpPhase::Data(i) ==> 1 <= i < otp_len(self.variant)
    }

    /// Whether the read is over.
    pub fn is_done(&self) -> (r: bool)
        ensures
            r == (self@.phase == OtpPhase::Done),
    {
        match self.phase {
            OtpPhase::Done => true,
            _ => false,
        }
    }
}

/// The operations that select the variant's OTP bank, ending with the dummy byte's read.
pub open spec fn bank_request(variant: PervasiveBwryVariant) -> Seq<Spi3Op> {
    match variant {
        PervasiveBwryVariant::DriverF => seq![
            Spi3Op::WriteCmd(0xA4),
            Spi3Op::WriteData(0x15),
            Spi3Op::WriteData(0x00),
            Spi3Op::WriteData(0x01),
            Spi3Op::WaitBusy,
            Spi3Op::WriteCmd(0xA1),
            Spi3Op::ReadDataByte,
        ],
        PervasiveBwryVariant::DriverA => seq![
            Spi3Op::WriteCmd(0xA2),
            Spi3Op::WriteData(0x00),
            Spi3Op::WriteData(0x15),
            Spi3Op::WriteData(0x00),
            Spi3Op::WriteCmd(0xA0),
            Spi3Op::WriteCmd(0x92),
            Spi3Op::ReadDataByte,
        ],
    }
}

/// The operations that start an OTP read: reset, chip-ID command, 8 ms, first ID byte.
pub open spec fn otp_opening() -> Seq<Spi3Op> {
    seq![Spi3Op::Reset, Spi3Op::WriteCmd(READ_CHIP_ID), Spi3Op::DelayMs(8), Spi3Op::ReadDataByte]
}

/// One step of the OTP read: given the state, the OTP image so far and the byte just read, the
/// next state, the new OTP image and what to do next.
pub open spec fn otp_transition(s: OtpSessionView, otp: Seq<u8>, byte: u8) -> (
    OtpSessionView,
    Seq<u8>,
    OtpOutcome,
) {
    let next_byte = OtpOutcome::Read(seq![Spi3Op::ReadByteNoDc]);
    match s.phase {
        OtpPhase::ChipIdHigh => (
            OtpSessionView { phase: OtpPhase::ChipIdLow, hi: byte, ..s },
            otp,
            OtpOutcome::Read(seq![Spi3Op::ReadDataByte]),
        ),
        OtpPhase::ChipIdLow => if chip_id(s.hi, byte) == expected_chip_id(s.variant) {
            (
                OtpSessionView { phase: OtpPhase::Dummy, ..s },
                otp,
                OtpOutcome::Read(bank_request(s.variant)),
            )
        } else {
            (
                OtpSessionView { phase: OtpPhase::Done, ..s },
                otp,
                OtpOutcome::WrongChip(chip_id(s.hi, byte)),
            )
        },
        OtpPhase::Dummy => (OtpSessionView { phase: OtpPhase::Marker, ..s }, otp, next_byte),
        OtpPhase::Marker => if byte == OTP_MARKER {
            (OtpSessionView { phase: OtpPhase::Data(1), ..s }, otp.update(0, byte), next_byte)
        } else if s.variant == PervasiveBwryVariant::DriverA {
            (
                OtpSessionView { phase: OtpPhase::Bank2Marker, ..s },
                otp.update(0, byte),
                OtpOutcome::Read(Seq::new(112, |i: int| Spi3Op::ReadByteNoDc)),
            )
        } else {
            (OtpSessionView { phase: OtpPhase::Done, ..s }, otp.update(0, byte), OtpOutcome::NoMarker)
        },
        OtpPhase::Bank2Marker => if byte == OTP_MARKER {
            (OtpSessionView { phase: OtpPhase::Data(1), ..s }, otp.update(0, byte), next_byte)
        } else {
            (OtpSessionView { phase: OtpPhase::Done, ..s }, otp.update(0, byte), OtpOutcome::NoMarker)
        },
        OtpPhase::Data(i) => if i + 1 >= otp_len(s.variant) {
            (OtpSessionView { phase: OtpPhase::Done, ..s }, otp.update(i as int, byte), OtpOutcome::Done)
        } else {
            (
                OtpSessionView { phase: OtpPhase::Data((i + 1) as usize), ..s },
                otp.update(i as int, byte),
                next_byte,
            )
        },
        OtpPhase::Done => (s, otp, OtpOutcome::Done),
    }
}

/// The state an OTP read starts in.
pub open spec fn otp_start(variant: PervasiveBwryVariant) -> OtpSessionView {
    OtpSessionView { variant, phase: OtpPhase::ChipIdHigh, hi: 0 }
}

/// An OTP read fed `bytes` in turn, one per requested read, until it stops asking for more or
/// the bytes run out: the final state, the OTP image and the last outcome.
pub open spec fn otp_run(s: OtpSessionView, otp: Seq<u8>, bytes: Seq<u8>) -> (
    OtpSessionView,
    Seq<u8>,
    OtpOutcome,
)
    decreases bytes.len(),
{
    if bytes.len() == 0 {
        (s, otp, OtpOutcome::Read(Seq::empty()))
    } else {
        let t = otp_transition(s, otp, bytes[0]);
        if t.2 is Read && bytes.len() > 1 {
            otp_run(t.0, t.1, bytes.drop_first())
        } else {
            t
        }
    }
}

proof fn lemma_otp_data_run(s: OtpSessionView, otp: Seq<u8>, i: usize, rest: Seq<u8>)
    requires
        s.phase == OtpPhase::Data(i),
        1 <= i < otp_len(s.variant),
        rest.len() == otp_len(s.variant) - i,
        otp.len() == 112,
    ensures
        ({
            let r = otp_run(s, otp, rest);
            &&& r.2 is Done
            &&& r.0.phase == OtpPhase::Done
            &&& r.1 == otp.subrange(0, i as int) + rest + otp.subrange(otp_len(s.variant), 112)
        }),
    decreases rest.len(),
{
    let n = otp_len(s.variant);
    let t = otp_transition(s, otp, rest[0]);
    if i + 1 >= n {
        assert(otp.update(i as int, rest[0]) =~= otp.subrange(0, i as int) + rest + otp.subrange(
            n,
            112,
        ));
    } else {
        let j = (i + 1) as usize;
        lemma_otp_data_run(t.0, t.1, j, rest.drop_first());
        assert(t.1.subrange(0, j as int) =~= otp.subrange(0, i as int) + seq![rest[0]]);
        assert(t.1.subrange(n, 112) =~= otp.subrange(n, 112));
        assert(otp.subrange(0, i as int) + seq![rest[0]] + rest.drop_first() =~= otp.subrange(
            0,
            i as int,
        ) + rest);
    }
}

/// A read whose chip ID matches and whose first bank starts with the marker succeeds, and the
/// OTP image then holds the marker followed by the bytes read after it, the rest unchanged.
pub proof fn lemma_otp_read_stores_the_bank(
    variant: PervasiveBwryVariant,
    otp: Seq<u8>,
    hi: u8,
    lo: u8,
    dummy: u8,
    rest: Seq<u8>,
)
    requires
        otp.len() == 112,
        chip_id(hi, lo) == expected_chip_id(variant),
        rest.len() == otp_len(variant) - 1,
    ensures
        ({
            let r = otp_run(otp_start(variant), otp, seq![hi, lo, dummy, OTP_MARKER] + rest);
            &&& r.2 is Done
            &&& r.1 == seq![OTP_MARKER] + rest + otp.subrange(otp_len(variant), 112)
        }),
{
    let bytes = seq![hi, lo, dummy, OTP_MARKER] + rest;
    let s0 = otp_start(variant);
    let t1 = otp_transition(s0, otp, hi);
    let t2 = otp_transition(t1.0, t1.1, lo);
    let t3 = otp_transition(t2.0, t2.1, dummy);
    let t4 = otp_transition(t3.0, t3.1, OTP_MARKER);
    assert(bytes.drop_first() =~= seq![lo, dummy, OTP_MARKER] + rest);
    assert(bytes.drop_first().drop_first() =~= seq![dummy, OTP_MARKER] + rest);
    assert(bytes.drop_first().drop_first().drop_first() =~= seq![OTP_MARKER] + rest);
    assert(bytes.drop_first().drop_first().drop_first().drop_first() =~= rest);
    let b1 = bytes.drop_first();
    let b2 = b1.drop_first();
    let b3 = b2.drop_first();
    assert(bytes[0] == hi && b1[0] == lo && b2[0] == dummy && b3[0] == OTP_MARKER);
    assert(otp_run(s0, otp, bytes) == otp_run(t1.0, t1.1, b1));
    assert(otp_run(t1.0, t1.1, b1) == otp_run(t2.0, t2.1, b2));
    assert(otp_run(t2.0, t2.1, b2) == otp_run(t3.0, t3.1, b3));
    assert(otp_run(t3.0, t3.1, b3) == otp_run(t4.0, t4.1, rest));
    lemma_otp_data_run(t4.0, t4.1, 1, rest);
    assert(t4.1.subrange(0, 1) =~= seq![OTP_MARKER]);
    assert(t4.1.subrange(otp_len(variant), 112) =~= otp.subrange(otp_len(variant), 112));
}

/// On DriverA a missing first-bank marker falls back to the second bank: when the second
/// marker is there, the read succeeds with the bytes that follow it.
pub proof fn lemma_otp_read_falls_back_to_bank2(
    otp: Seq<u8>,
    hi: u8,
    lo: u8,
    dummy: u8,
    bad: u8,
    rest: Seq<u8>,
)
    requires
        otp.len() == 112,
        chip_id(hi, lo) == expected_chip_id(PervasiveBwryVariant::DriverA),
        bad != OTP_MARKER,
        rest.len() == 111,
    ensures
        ({
            let r = otp_run(
                otp_start(PervasiveBwryVariant::DriverA),
                otp,
                seq![hi, lo, dummy, bad, OTP_MARKER] + rest,
            );
            &&& r.2 is Done
            &&& r.1 == seq![OTP_MARKER] + rest
        }),
{
    let bytes = seq![hi, lo, dummy, bad, OTP_MARKER] + rest;
    let s0 = otp_start(PervasiveBwryVariant::DriverA);
    let t1 = otp_transition(s0, otp, hi);
    let t2 = otp_transition(t1.0, t1.1, lo);
    let t3 = otp_transition(t2.0, t2.1, dummy);
    let t4 = otp_transition(t3.0, t3.1, bad);
    let t5 = otp_transition(t4.0, t4.1, OTP_MARKER);
    assert(bytes.drop_first() =~= seq![lo, dummy, bad, OTP_MARKER] + rest);
    assert(bytes.drop_first().drop_first() =~= seq![dummy, bad, OTP_MARKER] + rest);
    assert(bytes.drop_first().drop_first().drop_first() =~= seq![bad, OTP_MARKER] + rest);
    assert(bytes.drop_first().drop_first().drop_first().drop_first() =~= seq![OTP_MARKER] + rest);
    assert(bytes.drop_first().drop_first().drop_first().drop_first().drop_first() =~= rest);
    let b1 = bytes.drop_first();
    let b2 = b1.drop_first();
    let b3 = b2.drop_first();
    let b4 = b3.drop_first();
    assert(bytes[0] == hi && b1[0] == lo && b2[0] == dummy && b3[0] == bad && b4[0]
        == OTP_MARKER);
    assert(otp_run(s0, otp, bytes) == otp_run(t1.0, t1.1, b1));
    assert(otp_run(t1.0, t1.1, b1) == otp_run(t2.0, t2.1, b2));
    assert(otp_run(t2.0, t2.1, b2) == otp_run(t3.0, t3.1, b3));
    assert(otp_run(t3.0, t3.1, b3) == otp_run(t4.0, t4.1, b4));
    assert(otp_run(t4.0, t4.1, b4) == otp_run(t5.0, t5.1, rest));
    lemma_otp_data_run(t5.0, t5.1, 1, rest);
    assert(t5.1.subrange(0, 1) =~= seq![OTP_MARKER]);
    assert(seq![OTP_MARKER] + rest + t5.1.subrange(112, 112) =~= seq![OTP_MARKER] + rest);
}

/// A read whose first bank lacks the marker fails without asking for more bytes: on DriverF at
/// once, and on DriverA when the second bank's marker is missing too.
pub proof fn lemma_otp_read_fails_without_a_marker(
    variant: PervasiveBwryVariant,
    otp: Seq<u8>,
    hi: u8,
    lo: u8,
    dummy: u8,
    first: u8,
    second: u8,
    more: Seq<u8>,
)
    requires
        chip_id(hi, lo) == expected_chip_id(variant),
        first != OTP_MARKER,
        variant == PervasiveBwryVariant::DriverA ==> second != OTP_MARKER,
    ensures
        variant == PervasiveBwryVariant::DriverF ==> ({
            let r = otp_run(otp_start(variant), otp, seq![hi, lo, dummy, first] + more);
            &&& r.2 == OtpOutcome::NoMarker
            &&& r.0.phase == OtpPhase::Done
        }),
        variant == PervasiveBwryVariant::DriverA ==> ({
            let r = otp_run(otp_start(variant), otp, seq![hi, lo, dummy, first, second] + more);
            &&& r.2 == OtpOutcome::NoMarker
            &&& r.0.phase == OtpPhase::Done
        }),
{
    let s0 = otp_start(variant);
    let t1 = otp_transition(s0, otp, hi);
    let t2 = otp_transition(t1.0, t1.1, lo);
    let t3 = otp_transition(t2.0, t2.1, dummy);
    let t4 = otp_transition(t3.0, t3.1, first);
    if variant == PervasiveBwryVariant::DriverF {
        let bytes = seq![hi, lo, dummy, first] + more;
        let b1 = bytes.drop_first();
        let b2 = b1.drop_first();
        let b3 = b2.drop_first();
        assert(b1 =~= seq![lo, dummy, first] + more);
        assert(b2 =~= seq![dummy, first] + more);
        assert(b3 =~= seq![first] + more);
        assert(bytes[0] == hi && b1[0] == lo && b2[0] == dummy && b3[0] == first);
        assert(otp_run(s0, otp, bytes) == otp_run(t1.0, t1.1, b1));
        assert(otp_run(t1.0, t1.1, b1) == otp_run(t2.0, t2.1, b2));
        assert(otp_run(t2.0, t2.1, b2) == otp_run(t3.0, t3.1, b3));
        assert(otp_run(t3.0, t3.1, b3) == t4);
    } else {
        let t5 = otp_transition(t4.0, t4.1, second);
        let bytes = seq![hi, lo, dummy, first, second] + more;
        let b1 = bytes.drop_first();
        let b2 = b1.drop_first();
        let b3 = b2.drop_first();
        let b4 = b3.drop_first();
        assert(b1 =~= seq![lo, dummy, first, second] + more);
        assert(b2 =~= seq![dummy, first, second] + more);
        assert(b3 =~= seq![first, second] + more);
        assert(b4 =~= seq![second] + more);
        assert(bytes[0] == hi && b1[0] == lo && b2[0] == dummy && b3[0] == first && b4[0]
            == second);
        assert(otp_run(s0, otp, bytes) == otp_run(t1.0, t1.1, b1));
        assert(otp_run(t1.0, t1.1, b1) == otp_run(t2.0, t2.1, b2));
        assert(otp_run(t2.0, t2.1, b2) == otp_run(t3.0, t3.1, b3));
        assert(otp_run(t3.0, t3.1, b3) == otp_run(t4.0, t4.1, b4));
        assert(otp_run(t4.0, t4.1, b4) == t5);
    }
}

/// A chip that answers with another ID stops the read after its second byte, reporting the
/// (normalized) ID, with the OTP image untouched.
pub proof fn lemma_otp_read_rejects_other_chips(
    variant: PervasiveBwryVariant,
    otp: Seq<u8>,
    hi: u8,
    lo: u8,
    more: Seq<u8>,
)
    requires
        chip_id(hi, lo) != expected_chip_id(variant),
    ensures
        ({
            let r = otp_run(otp_start(variant), otp, seq![hi, lo] + more);
            &&& r.2 == OtpOutcome::WrongChip(chip_id(hi, lo))
            &&& r.1 == otp
        }),
{
    let bytes = seq![hi, lo] + more;
    let s0 = otp_start(variant);
    let t1 = otp_transition(s0, otp, hi);
    let b1 = bytes.drop_first();
    assert(b1 =~= seq![lo] + more);
    assert(bytes[0] == hi && b1[0] == lo);
    assert(otp_run(s0, otp, bytes) == otp_run(t1.0, t1.1, b1));
}

/// What the transport is asked to do after a byte of the OTP read.
pub enum OtpStep<CSE, SCKE, DATAE, DCE, RSTE, BUSYE> {
    /// Carry out these operations in order; hand the byte read by the last one to
    /// [`PervasiveBwryController::read_otp_step`].
    Read(Vec<Spi3Op>),
    /// The read is over, with this result.
    Finished(Result<(), PervasiveBwryOtpError<CSE, SCKE, DATAE, DCE, RSTE, BUSYE>>),
}

impl<CSE, SCKE, DATAE, DCE, RSTE, BUSYE> View for OtpStep<CSE, SCKE, DATAE, DCE, RSTE, BUSYE> {
    type V = OtpOutcome;

    open spec fn view(&self) -> OtpOutcome {
        match self {
            OtpStep::Read(ops) => OtpOutcome::Read(ops@),
            OtpStep::Finished(Ok(())) => OtpOutcome::Done,
            OtpStep::Finished(Err(PervasiveBwryOtpError::UnexpectedChipId(id))) => OtpOutcome::WrongChip(*id),
            OtpStep::Finished(Err(PervasiveBwryOtpError::InvalidOtpMarker)) => OtpOutcome::NoMarker,
            OtpStep::Finished(Err(PervasiveBwryOtpError::Bus(_))) => OtpOutcome::BusFault,
        }
    }
}

/// The configuration and OTP image of a BWRY controller.
pub struct PervasiveBwryConfig {
    /// Panel width in pixels.
    pub width: u32,
    /// Panel height in pixels.
    pub height: u32,
    /// Ambient temperature in degrees Celsius.
    pub temperature_c: i8,
    /// COG driver family.
    pub variant: PervasiveBwryVariant,
    /// The OTP register image ([`OTP_CAPACITY`] bytes; DriverF fills the first 48).
    pub otp: Seq<u8>,
}

/// A fresh controller: 25 °C, DriverF, an all-zero OTP image.
pub open spec fn default_config(width: u32, height: u32) -> PervasiveBwryConfig {
    PervasiveBwryConfig {
        width,
        height,
        temperature_c: 25,
        variant: PervasiveBwryVariant::DriverF,
        otp: Seq::new(112, |i: int| 0u8),
    }
}

/// The OTP bytes `[start, end)` written as one register's parameters.
pub open spec fn otp_register(command: u8, otp: Seq<u8>, start: int, end: int) -> Seq<Op> {
    cmd_data(command, otp.subrange(start, end))
}

/// The register writes of each variant, from the OTP image.
pub open spec fn variant_init(variant: PervasiveBwryVariant, otp: Seq<u8>) -> Seq<Op> {
    match variant {
        PervasiveBwryVariant::DriverF => seq![Op::Command(0xA5), Op::WaitBusyWithDelay(false)]
            + otp_register(0x01, otp, 16, 17) + otp_register(PSR, otp, 17, 19) + otp_register(
            0x03,
            otp,
            30,
            33,
        ) + otp_register(0x06, otp, 23, 30) + otp_register(CDI, otp, 39, 40) + otp_register(
            0x60,
            otp,
            40,
            42,
        ) + otp_register(0x61, otp, 19, 23) + otp_register(0xE7, otp, 33, 34) + otp_register(
            0xE3,
            otp,
            42,
            43,
        ) + otp_register(0x4D, otp, 43, 44) + otp_register(0xB4, otp, 44, 45) + otp_register(
            0xB5,
            otp,
            45,
            46,
        ) + cmd_data(0xE9, seq![0x01u8]) + cmd_data(0x30, seq![0x08u8]),
        PervasiveBwryVariant::DriverA => otp_register(0x01, otp, 16, 17) + otp_register(
            PSR,
            otp,
            17,
            19,
        ) + otp_register(0x03, otp, 30, 33) + otp_register(0x06, otp, 23, 26) + otp_register(
            CDI,
            otp,
            39,
            40,
        ) + otp_register(0x60, otp, 40, 42) + otp_register(0x61, otp, 19, 23) + otp_register(
            0xE3,
            otp,
            42,
            43,
        ) + otp_register(0xE7, otp, 33, 34) + otp_register(0x65, otp, 34, 38) + otp_register(
            0x30,
            otp,
            38,
            39,
        ) + cmd_data(0xE9, seq![0x01u8]) + seq![Op::Command(POWER_ON), Op::WaitBusyWithDelay(false)],
    }
}

/// The initialisation sequence: reset, common preamble, then the variant's OTP-derived writes.
pub open spec fn init_plan(c: PervasiveBwryConfig) -> Seq<Op> {
    seq![Op::HardReset(20), Op::WaitBusyWithDelay(false)] + cmd_data(ACTIVE_STATE, seq![0x02u8])
        + cmd_data(INPUT_TEMP, seq![c.temperature_c as u8]) + variant_init(c.variant, c.otp)
}

/// Pervasive Displays BWRY (Black/White/Red/Yellow) COG Controller IC driver.
#[derive(Debug, Clone, Copy, PartialEq, Eq)]
pub struct PervasiveBwryController {
    width: u32,
    height: u32,
    temperature_c: i8,
    variant: PervasiveBwryVariant,
    otp_data: [u8; 112],
}

impl View for PervasiveBwryController {
    type V = PervasiveBwryConfig;

    closed spec fn view(&self) -> PervasiveBwryConfig {
        PervasiveBwryConfig {
            width: self.width,
            height: self.height,
            temperature_c: self.temperature_c,
            variant: self.variant,
            otp: self.otp_data@,
        }
    }
}

/// Every controller holds a full OTP image: [`OTP_CAPACITY`] bytes, whatever its variant reads.
pub proof fn lemma_otp_image_is_full(c: PervasiveBwryController)
    ensures
        c@.otp.len() == OTP_CAPACITY,
{
}

fn otp_bytes(otp: &[u8; 112], start: usize, end: usize) -> (r: Vec<u8>)
    requires
        start <= end <= 112,
    ensures
        r@ == otp@.subrange(start as int, end as int),
{
    let mut r: Vec<u8> = Vec::new();
    let mut i = start;
    while i < end
        invariant
            start <= i <= end <= 112,
            r@ == otp@.subrange(start as int, i as int),
        decreases end - i,
    {
        r.push(otp[i]);
        i = i + 1;
        assert(r@ =~= otp@.subrange(start as int, i as int));
    }
    r
}

fn plan_otp_register(ops: &mut Vec<BusOp>, command: u8, otp: &[u8; 112], start: usize, end: usize)
    requires
        start <= end <= 112,
    ensures
        ops_of(final(ops)@) == ops_of(old(ops)@) + otp_register(command, otp@, start as int, end as int),
{
    let bytes = otp_bytes(otp, start, end);
    send_command_with_data(ops, command, bytes.as_slice());
}

fn plan_byte_register(ops: &mut Vec<BusOp>, command: u8, value: u8)
    ensures
        ops_of(final(ops)@) == ops_of(old(ops)@) + cmd_data(command, seq![value]),
{
    let data = [value];
    assert(data@ =~= seq![value]);
    send_command_with_data(ops, command, &data);
}

fn plan_variant_init(ops: &mut Vec<BusOp>, variant: PervasiveBwryVariant, otp: &[u8; 112])
    ensures
        ops_of(final(ops)@) == ops_of(old(ops)@) + variant_init(variant, otp@),
{
    let ghost start = ops_of(ops@);
    match variant {
        PervasiveBwryVariant::DriverF => {
            send_command(ops, 0xA5);
            push_op(ops, BusOp::WaitBusyWithDelay(false));
            plan_otp_register(ops, 0x01, otp, 16, 17);
            plan_otp_register(ops, PSR, otp, 17, 19);
            plan_otp_register(ops, 0x03, otp, 30, 33);
            plan_otp_register(ops, 0x06, otp, 23, 30);
            plan_otp_register(ops, CDI, otp, 39, 40);
            plan_otp_register(ops, 0x60, otp, 40, 42);
            plan_otp_register(ops, 0x61, otp, 19, 23);
            plan_otp_register(ops, 0xE7, otp, 33, 34);
            plan_otp_register(ops, 0xE3, otp, 42, 43);
            plan_otp_register(ops, 0x4D, otp, 43, 44);
            plan_otp_register(ops, 0xB4, otp, 44, 45);
            plan_otp_register(ops, 0xB5, otp, 45, 46);
            plan_byte_register(ops, 0xE9, 0x01);
            // PLL: fixed, not OTP-derived, for this variant.
            plan_byte_register(ops, 0x30, 0x08);
        },
        PervasiveBwryVariant::DriverA => {
            plan_otp_register(ops, 0x01, otp, 16, 17);
            plan_otp_register(ops, PSR, otp, 17, 19);
            plan_otp_register(ops, 0x03, otp, 30, 33);
            plan_otp_register(ops, 0x06, otp, 23, 26);
            plan_otp_register(ops, CDI, otp, 39, 40);
            plan_otp_register(ops, 0x60, otp, 40, 42);
            plan_otp_register(ops, 0x61, otp, 19, 23);
            plan_otp_register(ops, 0xE3, otp, 42, 43);
            plan_otp_register(ops, 0xE7, otp, 33, 34);
            plan_otp_register(ops, 0x65, otp, 34, 38);
            plan_otp_register(ops, 0x30, otp, 38, 39);
            plan_byte_register(ops, 0xE9, 0x01);
            send_command(ops, POWER_ON);
            push_op(ops, BusOp::WaitBusyWithDelay(false));
        },
    }
    assert(ops_of(final(ops)@) =~= start + variant_init(variant, otp@));
}

fn raw_chip_id(hi: u8, lo: u8) -> (r: u16)
    ensures
        r == chip_id(hi, lo),
{
    let raw = ((hi as u16) << 8u16) | (lo as u16);
    assert(((hi as u16) << 8u16) | (lo as u16) == (hi as int) * 256 + (lo as int)) by (bit_vector);
    if raw == 0x8302 {
        0x0302
    } else {
        raw
    }
}

impl PervasiveBwryController {
    /// Creates a new Pervasive BWRY controller instance with target resolution.
    pub fn new(width: u32, height: u32) -> (r: Self)
        ensures
            r@ == default_config(width, height),
    {
        let r = Self {
            width,
            height,
            temperature_c: 25,
            variant: PervasiveBwryVariant::DriverF,
            otp_data: [0u8; 112],
        };
        assert(r.otp_data@ =~= Seq::new(112, |i: int| 0u8));
        r
    }

    /// Sets operating ambient temperature in Celsius (builder method).
    pub fn with_temperature(self, temperature_c: i8) -> (r: Self)
        ensures
            r@ == (PervasiveBwryConfig { temperature_c, ..self@ }),
    {
        let mut s = self;
        s.temperature_c = temperature_c;
        s
    }

    /// Sets ambient temperature in Celsius.
    pub fn set_temperature(&mut self, temperature_c: i8)
        ensures
            final(self)@ == (PervasiveBwryConfig { temperature_c, ..old(self)@ }),
    {
        self.temperature_c = temperature_c;
    }

    /// Returns current operating ambient temperature in Celsius.
    pub fn temperature(&self) -> (r: i8)
        ensures
            r == self@.temperature_c,
    {
        self.temperature_c
    }

    /// Sets driver IC variant (builder method).
    pub fn with_variant(self, variant: PervasiveBwryVariant) -> (r: Self)
        ensures
            r@ == (PervasiveBwryConfig { variant, ..self@ }),
    {
        let mut s = self;
        s.variant = variant;
        s
    }

    /// Sets driver IC variant.
    pub fn set_variant(&mut self, variant: PervasiveBwryVariant)
        ensures
            final(self)@ == (PervasiveBwryConfig { variant, ..old(self)@ }),
    {
        self.variant = variant;
    }

    /// Returns current driver IC variant.
    pub fn variant(&self) -> (r: PervasiveBwryVariant)
        ensures
            r == self@.variant,
    {
        self.variant
    }

    /// Starts the OTP read for the configured variant: the returned operations reset the
    /// panel, send the chip-ID command and read the ID's first byte.
    pub fn begin_read_otp(&self) -> (r: (OtpSession, Vec<Spi3Op>))
        ensures
            r.0@ == (OtpSessionView { variant: self@.variant, phase: OtpPhase::ChipIdHigh, hi: 0 }),
            r.1@ == otp_opening(),
    {
        let ops = vec![
            Spi3Op::Reset,
            Spi3Op::WriteCmd(READ_CHIP_ID),
            Spi3Op::DelayMs(8),
            Spi3Op::ReadDataByte,
        ];
        assert(ops@ =~= otp_opening());
        (OtpSession { variant: self.variant, phase: OtpPhase::ChipIdHigh, hi: 0 }, ops)
    }

    /// Takes the byte the last requested operation read and advances the OTP read: the chip
    /// ID is checked, the bank-start marker looked for (on DriverA, again 112 bytes on in the
    /// second bank), and the image filled in, as [`otp_transition`] states.
    pub fn read_otp_step<CSE, SCKE, DATAE, DCE, RSTE, BUSYE>(
        &mut self,
        session: &mut OtpSession,
        byte: u8,
    ) -> (r: OtpStep<CSE, SCKE, DATAE, DCE, RSTE, BUSYE>)
        ensures
            final(session)@ == otp_transition(old(session)@, old(self)@.otp, byte).0,
            final(self)@ == (PervasiveBwryConfig {
                otp: otp_transition(old(session)@, old(self)@.otp, byte).1,
                ..old(self)@
            }),
            r@ == otp_transition(old(session)@, old(self)@.otp, byte).2,
    {
        proof {
            use_type_invariant(&*session);
        }
        let variant = session.variant;
        let len: usize = match variant {
            PervasiveBwryVariant::DriverF => 48,
            PervasiveBwryVariant::DriverA => 112,
        };
        match session.phase {
            OtpPhase::ChipIdHigh => {
                *session = OtpSession { variant, phase: OtpPhase::ChipIdLow, hi: byte };
                let ops = vec![Spi3Op::ReadDataByte];
                assert(ops@ =~= seq![Spi3Op::ReadDataByte]);
                OtpStep::Read(ops)
            },
            OtpPhase::ChipIdLow => {
                let id = raw_chip_id(session.hi, byte);
                let expected: u16 = match variant {
                    PervasiveBwryVariant::DriverF => 0x0302,
                    PervasiveBwryVariant::DriverA => 0x0605,
                };
                if id != expected {
                    *session = OtpSession { variant, phase: OtpPhase::Done, hi: session.hi };
                    return OtpStep::Finished(Err(PervasiveBwryOtpError::UnexpectedChipId(id)));
                }
                *session = OtpSession { variant, phase: OtpPhase::Dummy, hi: session.hi };
                let ops = match variant {
                    PervasiveBwryVariant::DriverF => vec![
                        Spi3Op::WriteCmd(0xA4),
                        Spi3Op::WriteData(0x15),
                        Spi3Op::WriteData(0x00),
                        Spi3Op::WriteData(0x01),
                        Spi3Op::WaitBusy,
                        Spi3Op::WriteCmd(0xA1),
                        Spi3Op::ReadDataByte,
                    ],
                    PervasiveBwryVariant::DriverA => vec![
                        Spi3Op::WriteCmd(0xA2),
                        Spi3Op::WriteData(0x00),
                        Spi3Op::WriteData(0x15),
                        Spi3Op::WriteData(0x00),
                        Spi3Op::WriteCmd(0xA0),
                        Spi3Op::WriteCmd(0x92),
                        Spi3Op::ReadDataByte,
                    ],
                };
                assert(ops@ =~= bank_request(variant));
                OtpStep::Read(ops)
            },
            OtpPhase::Dummy => {
                *session = OtpSession { variant, phase: OtpPhase::Marker, hi: session.hi };
                let ops = vec![Spi3Op::ReadByteNoDc];
                assert(ops@ =~= seq![Spi3Op::ReadByteNoDc]);
                OtpStep::Read(ops)
            },
            OtpPhase::Marker => {
                self.otp_data[0] = byte;
                if byte == OTP_MARKER {
                    *session = OtpSession { variant, phase: OtpPhase::Data(1), hi: session.hi };
                    let ops = vec![Spi3Op::ReadByteNoDc];
                    assert(ops@ =~= seq![Spi3Op::ReadByteNoDc]);
                    OtpStep::Read(ops)
                } else {
                    match variant {
                        PervasiveBwryVariant::DriverA => {
                            // Bank-2 fallback: discard 111 bytes, then read the marker again.
                            *session = OtpSession {
                                variant,
                                phase: OtpPhase::Bank2Marker,
                                hi: session.hi,
                            };
                            let mut ops: Vec<Spi3Op> = Vec::new();
                            let mut k: usize = 0;
                            while k < 112
                                invariant
                                    k <= 112,
                                    ops@ == Seq::new(k as nat, |i: int| Spi3Op::ReadByteNoDc),
                                decreases 112 - k,
                            {
                                ops.push(Spi3Op::ReadByteNoDc);
                                k = k + 1;
                                assert(ops@ =~= Seq::new(k as nat, |i: int| Spi3Op::ReadByteNoDc));
                            }
                            OtpStep::Read(ops)
                        },
                        PervasiveBwryVariant::DriverF => {
                            *session = OtpSession { variant, phase: OtpPhase::Done, hi: session.hi };
                            OtpStep::Finished(Err(PervasiveBwryOtpError::InvalidOtpMarker))
                        },
                    }
                }
            },
            OtpPhase::Bank2Marker => {
                self.otp_data[0] = byte;
                if byte == OTP_MARKER {
                    *session = OtpSession { variant, phase: OtpPhase::Data(1), hi: session.hi };
                    let ops = vec![Spi3Op::ReadByteNoDc];
                    assert(ops@ =~= seq![Spi3Op::ReadByteNoDc]);
                    OtpStep::Read(ops)
                } else {
                    *session = OtpSession { variant, phase: OtpPhase::Done, hi: session.hi };
                    OtpStep::Finished(Err(PervasiveBwryOtpError::InvalidOtpMarker))
                }
            },
            OtpPhase::Data(i) => {
                self.otp_data[i] = byte;
                if i + 1 >= len {
                    *session = OtpSession { variant, phase: OtpPhase::Done, hi: session.hi };
                    OtpStep::Finished(Ok(()))
                } else {
                    *session = OtpSession { variant, phase: OtpPhase::Data(i + 1), hi: session.hi };
                    let ops = vec![Spi3Op::ReadByteNoDc];
                    assert(ops@ =~= seq![Spi3Op::ReadByteNoDc]);
                    OtpStep::Read(ops)
                }
            },
            OtpPhase::Done => OtpStep::Finished(Ok(())),
        }
    }
}

impl EpdController for PervasiveBwryController {
    open spec fn init_ok(&self) -> bool {
        true
    }

    open spec fn init_ops(&self) -> Seq<Op> {
        init_plan(self@)
    }

    open spec fn after_init(&self) -> Self {
        *self
    }

    open spec fn window_ok(&self, x_start: u32, y_start: u32, x_end: u32, y_end: u32) -> bool {
        true
    }

    open spec fn window_ops(&self, x_start: u32, y_start: u32, x_end: u32, y_end: u32) -> Seq<Op> {
        Seq::empty()
    }

    open spec fn with_window(&self, x_start: u32, y_start: u32, x_end: u32, y_end: u32) -> Self {
        *self
    }

    open spec fn cursor_ok(&self, x: u32, y: u32) -> bool {
        true
    }

    open spec fn cursor_ops(&self, x: u32, y: u32) -> Seq<Op> {
        Seq::empty()
    }

    open spec fn frame_ops(&self, channel: ColorChannel, data: Seq<u8>) -> Seq<Op> {
        cmd_data(WRITE_DATA, data)
    }

    open spec fn pattern_ok(&self, byte: u8, count: usize) -> bool {
        true
    }

    open spec fn pattern_ops(&self, channel: ColorChannel, byte: u8, count: usize) -> Seq<Op> {
        fill_ops(WRITE_DATA, byte, count)
    }

    open spec fn refresh_ok(&self) -> bool {
        true
    }

    open spec fn refresh_ops(&self) -> Seq<Op> {
        (if self@.variant == PervasiveBwryVariant::DriverF {
            seq![Op::Command(POWER_ON), Op::WaitBusyWithDelay(false)]
        } else {
            Seq::empty()
        }) + cmd_data(DISPLAY_REFRESH, seq![0x00u8]) + seq![Op::WaitBusyWithDelay(false)]
    }

    open spec fn sleep_ops(&self) -> Seq<Op> {
        cmd_data(POWER_OFF, seq![0x00u8]) + seq![Op::WaitBusyWithDelay(false)] + (if self@.variant
            == PervasiveBwryVariant::DriverA {
            otp_register(PSR, self@.otp, 26, 28) + seq![Op::DelayMs(100)]
        } else {
            Seq::empty()
        })
    }

    fn can_init(&self) -> (r: bool) {
        true
    }

    fn can_set_window(&self, x_start: u32, y_start: u32, x_end: u32, y_end: u32) -> (r: bool) {
        true
    }

    fn can_set_cursor(&self, x: u32, y: u32) -> (r: bool) {
        true
    }

    fn can_fill(&self, byte: u8, count: usize) -> (r: bool) {
        true
    }

    fn can_refresh(&self) -> (r: bool) {
        true
    }

    fn init_sequence(&mut self) -> (ops: Vec<BusOp>) {
        let mut ops: Vec<BusOp> = Vec::new();
        push_op(&mut ops, BusOp::HardReset(20));
        // BUSY is active low on the BWRY family.
        push_op(&mut ops, BusOp::WaitBusyWithDelay(false));
        plan_byte_register(&mut ops, ACTIVE_STATE, 0x02);
        plan_byte_register(&mut ops, INPUT_TEMP, self.temperature_c as u8);
        plan_variant_init(&mut ops, self.variant, &self.otp_data);
        assert(ops_of(ops@) =~= init_plan(self@));
        ops
    }

    /// The BWRY family streams the full frame: nothing to plan.
    fn set_window(&mut self, x_start: u32, y_start: u32, x_end: u32, y_end: u32) -> (ops: Vec<
        BusOp,
    >) {
        let ops: Vec<BusOp> = Vec::new();
        assert(ops_of(ops@) =~= Seq::<Op>::empty());
        ops
    }

    /// No RAM cursor register: nothing to plan.
    fn set_cursor(&mut self, x: u32, y: u32) -> (ops: Vec<BusOp>) {
        let ops: Vec<BusOp> = Vec::new();
        assert(ops_of(ops@) =~= Seq::<Op>::empty());
        ops
    }

    /// One packed 2 bpp plane carries every colour: the channel does not change the command.
    fn write_frame(&mut self, channel: ColorChannel, data: &[u8]) -> (ops: Vec<BusOp>) {
        let mut ops: Vec<BusOp> = Vec::new();
        send_command_with_data(&mut ops, WRITE_DATA, data);
        assert(ops_of(ops@) =~= cmd_data(WRITE_DATA, data@));
        ops
    }

    fn write_frame_pattern(&mut self, channel: ColorChannel, byte: u8, count: usize) -> (ops: Vec<
        BusOp,
    >) {
        let mut ops: Vec<BusOp> = Vec::new();
        plan_fill(&mut ops, WRITE_DATA, byte, count);
        assert(ops_of(ops@) =~= fill_ops(WRITE_DATA, byte, count));
        ops
    }

    fn trigger_refresh(&mut self) -> (ops: Vec<BusOp>) {
        let mut ops: Vec<BusOp> = Vec::new();
        let ghost start = ops_of(ops@);
        match self.variant {
            PervasiveBwryVariant::DriverF => {
                send_command(&mut ops, POWER_ON);
                push_op(&mut ops, BusOp::WaitBusyWithDelay(false));
            },
            PervasiveBwryVariant::DriverA => {},
        }
        plan_byte_register(&mut ops, DISPLAY_REFRESH, 0x00);
        push_op(&mut ops, BusOp::WaitBusyWithDelay(false));
        assert(ops_of(ops@) =~= self.refresh_ops());
        ops
    }

    fn sleep(&mut self) -> (ops: Vec<BusOp>) {
        let mut ops: Vec<BusOp> = Vec::new();
        plan_byte_register(&mut ops, POWER_OFF, 0x00);
        push_op(&mut ops, BusOp::WaitBusyWithDelay(false));
        let ghost mid = ops_of(ops@);
        match self.variant {
            PervasiveBwryVariant::DriverA => {
                // DriverA re-sends the PSR from the OTP image before the long power-down delay.
                plan_otp_register(&mut ops, PSR, &self.otp_data, 26, 28);
                push_op(&mut ops, BusOp::DelayMs(100));
            },
            PervasiveBwryVariant::DriverF => {
                assert(mid + Seq::<Op>::empty() =~= mid);
            },
        }
        assert(ops_of(ops@) =~= self.sleep_ops());
        ops
    }
}


/// The Pervasive BWRY COG sleeps with power-off `0x02 [00]` and a wait for BUSY; DriverA then
/// restores its panel setting `0x00` from OTP bytes 26 and 27 and settles for 100 ms.
pub proof fn lemma_pervasive_bwry_sleep(c: PervasiveBwryController)
    ensures
        ({
            let ops = c.sleep_ops();
            &&& ops[0] == Op::Command(0x02) && ops[1] == Op::Data(seq![0x00u8])
            &&& ops[2] == Op::WaitBusyWithDelay(false)
            &&& c@.variant == PervasiveBwryVariant::DriverF ==> ops.len() == 3
            &&& c@.variant == PervasiveBwryVariant::DriverA ==> ops.len() == 6 && ops[3]
                == Op::Command(0x00) && ops[4] == Op::Data(seq![c@.otp[26], c@.otp[27]]) && ops[5]
                == Op::DelayMs(100)
        }),
{
    lemma_otp_image_is_full(c);
    assert(c@.otp.subrange(26, 28) =~= seq![c@.otp[26], c@.otp[27]]);
}

} // verus!
