//! Bit-banged "3-wire" half-duplex SPI bus for the Pervasive Displays BWRY COG family's OTP
//! register read handshake.
//!
//! The handshake clocks a single bidirectional DATA wire by hand, switching it between output
//! (write) and input (read) per byte, with every byte framed by its own chip-select pulse. This
//! module holds the pins, the error type, the vocabulary of byte-level operations a handshake is
//! planned in ([`Spi3Op`]), and the MSB-first bit order a byte is clocked in.

use vstd::prelude::*;

verus! {

/// A GPIO pin whose direction can be switched at runtime between push-pull output and floating
/// input, required for the bit-banged bidirectional DATA line used by [`Spi3Bus`].
pub trait DynamicPin {
    /// Error type for pin operations.
    type Error: core::fmt::Debug;

    /// Reconfigures the pin as a push-pull output.
    fn set_as_output(&mut self) -> Result<(), Self::Error>;

    /// Reconfigures the pin as a floating input.
    fn set_as_input(&mut self) -> Result<(), Self::Error>;

    /// Drives the pin high. Only valid while configured as an output.
    fn set_high(&mut self) -> Result<(), Self::Error>;

    /// Drives the pin low. Only valid while configured as an output.
    fn set_low(&mut self) -> Result<(), Self::Error>;

    /// Reads the pin level. Only valid while configured as an input.
    fn is_high(&mut self) -> Result<bool, Self::Error>;
}

/// Error wrapper categorizing errors from the individual GPIO pins driving [`Spi3Bus`].
#[derive(Debug, Clone, Copy, PartialEq, Eq)]
pub enum Spi3BusError<CSE, SCKE, DATAE, DCE, RSTE, BUSYE> {
    /// Error toggling the Chip Select pin.
    Cs(CSE),
    /// Error toggling the bit-banged Clock pin.
    Sck(SCKE),
    /// Error toggling or reading the bidirectional Data pin.
    Data(DATAE),
    /// Error toggling the Data/Command pin.
    Dc(DCE),
    /// Error toggling the Reset pin.
    Reset(RSTE),
    /// Error reading the Busy input pin.
    Busy(BUSYE),
}

/// One byte-level operation of a 3-wire handshake.
#[derive(Debug, Clone, Copy, PartialEq, Eq, Structural)]
pub enum Spi3Op {
    /// The reset sequence (20 ms, RST high 10 ms, low 20 ms, high 10 ms, CS high 10 ms), then a
    /// wait for BUSY (active low) to read idle.
    Reset,
    /// One command byte: DC low, CS pulse around the byte.
    WriteCmd(u8),
    /// One data byte: DC high, CS pulse around the byte.
    WriteData(u8),
    /// A pause of the given number of milliseconds.
    DelayMs(u32),
    /// Poll BUSY (active low) 1 ms apart until idle, giving up once more than
    /// [`SPI3_BUSY_RETRY_LIMIT`] polls have read busy.
    WaitBusy,
    /// Read one byte with DC driven high.
    ReadDataByte,
    /// Read one byte leaving DC as it is.
    ReadByteNoDc,
}

/// Safety cap of the 3-wire bus's busy wait: once more than 1,500 polls have read busy, 1 ms
/// apart, the wait gives up.
pub const SPI3_BUSY_RETRY_LIMIT: u64 = 1_500;

/// Bit-banged 3-wire (SCK + bidirectional DATA) bus wrapper, plus the CS/DC/RST/BUSY GPIO pins
/// needed to frame each byte.
pub struct Spi3Bus<CS, SCK, DATA, DC, RST, BUSY> {
    cs: CS,
    sck: SCK,
    data: DATA,
    dc: DC,
    rst: RST,
    busy: BUSY,
}

impl<CS, SCK, DATA, DC, RST, BUSY> Spi3Bus<CS, SCK, DATA, DC, RST, BUSY> {
    /// The six pins, in constructor order.
    pub closed spec fn pins(&self) -> (CS, SCK, DATA, DC, RST, BUSY) {
        (self.cs, self.sck, self.data, self.dc, self.rst, self.busy)
    }

    /// Constructs a new bit-banged 3-wire bus wrapper.
    pub fn new(cs: CS, sck: SCK, data: DATA, dc: DC, rst: RST, busy: BUSY) -> (r: Self)
        ensures
            r.pins() == (cs, sck, data, dc, rst, busy),
    {
        Self { cs, sck, data, dc, rst, busy }
    }

    /// Consumes the bus, returning its individual pins.
    pub fn release(self) -> (r: (CS, SCK, DATA, DC, RST, BUSY))
        ensures
            r == self.pins(),
    {
        (self.cs, self.sck, self.data, self.dc, self.rst, self.busy)
    }

    /// Access all six pins at once, for the transport that clocks the bytes.
    pub fn parts_mut(&mut self) -> (r: (&mut CS, &mut SCK, &mut DATA, &mut DC, &mut RST, &mut BUSY))
        ensures
            *r.0 == old(self).pins().0,
            *r.1 == old(self).pins().1,
            *r.2 == old(self).pins().2,
            *r.3 == old(self).pins().3,
            *r.4 == old(self).pins().4,
            *r.5 == old(self).pins().5,
            final(self).pins().0 == *final(r.0),
            final(self).pins().1 == *final(r.1),
            final(self).pins().2 == *final(r.2),
            final(self).pins().3 == *final(r.3),
            final(self).pins().4 == *final(r.4),
            final(self).pins().5 == *final(r.5),
    {
        (&mut self.cs, &mut self.sck, &mut self.data, &mut self.dc, &mut self.rst, &mut self.busy)
    }
}

/// The level DATA carries in clock cycle `i` (0 first) when `value` is sent: bytes go out most
/// significant bit first.
pub open spec fn bit_level(value: u8, i: int) -> bool {
    (value >> ((7 - i) as u8)) & 1 == 1
}

/// The byte a sequence of eight sampled levels spells, first level most significant.
pub open spec fn byte_of_levels(levels: Seq<bool>) -> u8 {
    ((if levels[0] { 0x80u8 } else { 0u8 }) | (if levels[1] { 0x40u8 } else { 0u8 }) | (
    if levels[2] {
        0x20u8
    } else {
        0u8
    }) | (if levels[3] { 0x10u8 } else { 0u8 }) | (if levels[4] { 0x08u8 } else { 0u8 }) | (
    if levels[5] {
        0x04u8
    } else {
        0u8
    }) | (if levels[6] { 0x02u8 } else { 0u8 }) | (if levels[7] { 0x01u8 } else { 0u8 }))
}

/// The eight levels DATA carries while `value` is clocked out, first cycle first.
pub fn levels_of(value: u8) -> (r: [bool; 8])
    ensures
        forall|i: int| 0 <= i < 8 ==> r@[i] == bit_level(value, i),
{
    let r = [
        (value >> 7u8) & 1 == 1,
        (value >> 6u8) & 1 == 1,
        (value >> 5u8) & 1 == 1,
        (value >> 4u8) & 1 == 1,
        (value >> 3u8) & 1 == 1,
        (value >> 2u8) & 1 == 1,
        (value >> 1u8) & 1 == 1,
        (value >> 0u8) & 1 == 1,
    ];
    assert forall|i: int| 0 <= i < 8 implies r@[i] == bit_level(value, i) by {
        assert(r@[i] == r[i]);
    }
    r
}

/// The byte eight sampled levels spell, first cycle most significant.
pub fn byte_from_levels(levels: [bool; 8]) -> (r: u8)
    ensures
        r == byte_of_levels(levels@),
{
    assert(levels@[0] == levels[0] && levels@[1] == levels[1] && levels@[2] == levels[2]
        && levels@[3] == levels[3] && levels@[4] == levels[4] && levels@[5] == levels[5]
        && levels@[6] == levels[6] && levels@[7] == levels[7]);
    (if levels[0] { 0x80u8 } else { 0u8 }) | (if levels[1] { 0x40u8 } else { 0u8 }) | (
    if levels[2] {
        0x20u8
    } else {
        0u8
    }) | (if levels[3] { 0x10u8 } else { 0u8 }) | (if levels[4] { 0x08u8 } else { 0u8 }) | (
    if levels[5] {
        0x04u8
    } else {
        0u8
    }) | (if levels[6] { 0x02u8 } else { 0u8 }) | (if levels[7] { 0x01u8 } else { 0u8 })
}

/// Clocking a byte out and sampling the same levels back in rebuilds the byte: the write order
/// and the read order agree.
pub proof fn lemma_levels_roundtrip(value: u8)
    ensures
        byte_of_levels(Seq::new(8, |i: int| bit_level(value, i))) == value,
{
    let l = Seq::new(8, |i: int| bit_level(value, i));
    assert(l[0] == ((value >> 7u8) & 1 == 1));
    assert(l[1] == ((value >> 6u8) & 1 == 1));
    assert(l[2] == ((value >> 5u8) & 1 == 1));
    assert(l[3] == ((value >> 4u8) & 1 == 1));
    assert(l[4] == ((value >> 3u8) & 1 == 1));
    assert(l[5] == ((value >> 2u8) & 1 == 1));
    assert(l[6] == ((value >> 1u8) & 1 == 1));
    assert(l[7] == ((value >> 0u8) & 1 == 1));
    assert(((if (value >> 7u8) & 1 == 1 { 0x80u8 } else { 0u8 }) | (if (value >> 6u8) & 1 == 1 {
        0x40u8
    } else {
        0u8
    }) | (if (value >> 5u8) & 1 == 1 { 0x20u8 } else { 0u8 }) | (if (value >> 4u8) & 1 == 1 {
        0x10u8
    } else {
        0u8
    }) | (if (value >> 3u8) & 1 == 1 { 0x08u8 } else { 0u8 }) | (if (value >> 2u8) & 1 == 1 {
        0x04u8
    } else {
        0u8
    }) | (if (value >> 1u8) & 1 == 1 { 0x02u8 } else { 0u8 }) | (if (value >> 0u8) & 1 == 1 {
        0x01u8
    } else {
        0u8
    })) == value) by (bit_vector);
}


/// One step of clocking a 3-wire operation on the pins.
#[derive(Debug, Clone, Copy, PartialEq, Eq, Structural)]
pub enum PinStep {
    /// Drive CS high (deselect).
    CsHigh,
    /// Drive CS low (select).
    CsLow,
    /// Drive DC high (data).
    DcHigh,
    /// Drive DC low (command).
    DcLow,
    /// Drive RST high.
    RstHigh,
    /// Drive RST low.
    RstLow,
    /// Drive SCK high.
    SckHigh,
    /// Drive SCK low.
    SckLow,
    /// Switch DATA to a push-pull output.
    DataOutput,
    /// Switch DATA to a floating input.
    DataInput,
    /// Drive DATA high.
    DataHigh,
    /// Drive DATA low.
    DataLow,
    /// Read DATA's level: the next bit of the byte being read, most significant first.
    SampleData,
    /// Pause for the given number of microseconds.
    DelayUs(u32),
    /// Pause for the given number of milliseconds.
    DelayMs(u32),
    /// Poll BUSY (active low) 1 ms apart until idle, giving up once more than
    /// [`SPI3_BUSY_RETRY_LIMIT`] polls have read busy.
    WaitBusy,
}

/// The pin steps that clock bit `i` of `value` out: DATA set to the bit's level, then one SCK
/// pulse, a microsecond between edges.
pub open spec fn bit_out_steps(value: u8, i: int) -> Seq<PinStep> {
    seq![
        if bit_level(value, i) {
            PinStep::DataHigh
        } else {
            PinStep::DataLow
        },
        PinStep::DelayUs(1),
        PinStep::SckHigh,
        PinStep::DelayUs(1),
        PinStep::SckLow,
        PinStep::DelayUs(1),
    ]
}

/// The pin steps that clock the first `n` bits of `value` out, most significant first.
pub open spec fn bits_out(value: u8, n: nat) -> Seq<PinStep>
    decreases n,
{
    if n == 0 {
        Seq::empty()
    } else {
        bits_out(value, (n - 1) as nat) + bit_out_steps(value, n - 1)
    }
}

/// The pin steps that clock one bit in: SCK high, a microsecond, DATA sampled, SCK low, a
/// microsecond.
pub open spec fn bit_in_steps() -> Seq<PinStep> {
    seq![
        PinStep::SckHigh,
        PinStep::DelayUs(1),
        PinStep::SampleData,
        PinStep::SckLow,
        PinStep::DelayUs(1),
    ]
}

/// The pin steps that clock `n` bits in.
pub open spec fn bits_in(n: nat) -> Seq<PinStep>
    decreases n,
{
    if n == 0 {
        Seq::empty()
    } else {
        bits_in((n - 1) as nat) + bit_in_steps()
    }
}

/// The pin steps of one 3-wire operation: the reset pulses, a byte written in its own CS pulse
/// with DATA driven, or a byte read in its own CS pulse with DATA floating.
pub open spec fn op_pin_steps(op: Spi3Op) -> Seq<PinStep> {
    match op {
        Spi3Op::Reset => seq![
            PinStep::DelayMs(20),
            PinStep::RstHigh,
            PinStep::DelayMs(10),
            PinStep::RstLow,
            PinStep::DelayMs(20),
            PinStep::RstHigh,
            PinStep::DelayMs(10),
            PinStep::CsHigh,
            PinStep::DelayMs(10),
            PinStep::WaitBusy,
        ],
        Spi3Op::WriteCmd(b) => seq![PinStep::DcLow, PinStep::CsLow, PinStep::DataOutput] + bits_out(
            b,
            8,
        ) + seq![PinStep::CsHigh],
        Spi3Op::WriteData(b) => seq![PinStep::DcHigh, PinStep::CsLow, PinStep::DataOutput]
            + bits_out(b, 8) + seq![PinStep::CsHigh],
        Spi3Op::DelayMs(ms) => seq![PinStep::DelayMs(ms)],
        Spi3Op::WaitBusy => seq![PinStep::WaitBusy],
        Spi3Op::ReadDataByte => seq![PinStep::DcHigh, PinStep::CsLow, PinStep::DataInput] + bits_in(
            8,
        ) + seq![PinStep::CsHigh],
        Spi3Op::ReadByteNoDc => seq![PinStep::CsLow, PinStep::DataInput] + bits_in(8) + seq![
            PinStep::CsHigh,
        ],
    }
}

/// Appends the pin steps that clock `value` out, most significant bit first.
fn push_bits_out(steps: &mut Vec<PinStep>, value: u8)
    ensures
        final(steps)@ == old(steps)@ + bits_out(value, 8),
{
    let ghost start = steps@;
    let levels = levels_of(value);
    let mut i: usize = 0;
    while i < 8
        invariant
            0 <= i <= 8,
            steps@ == start + bits_out(value, i as nat),
            forall|k: int| 0 <= k < 8 ==> levels@[k] == bit_level(value, k),
        decreases 8 - i,
    {
        assert(levels@[i as int] == levels[i as int]);
        steps.push(if levels[i] { PinStep::DataHigh } else { PinStep::DataLow });
        steps.push(PinStep::DelayUs(1));
        steps.push(PinStep::SckHigh);
        steps.push(PinStep::DelayUs(1));
        steps.push(PinStep::SckLow);
        steps.push(PinStep::DelayUs(1));
        assert(steps@ == start + bits_out(value, (i + 1) as nat));
        i = i + 1;
    }
}

/// Appends the pin steps that clock a byte in.
fn push_bits_in(steps: &mut Vec<PinStep>)
    ensures
        final(steps)@ == old(steps)@ + bits_in(8),
{
    let ghost start = steps@;
    let mut i: usize = 0;
    while i < 8
        invariant
            0 <= i <= 8,
            steps@ == start + bits_in(i as nat),
        decreases 8 - i,
    {
        steps.push(PinStep::SckHigh);
        steps.push(PinStep::DelayUs(1));
        steps.push(PinStep::SampleData);
        steps.push(PinStep::SckLow);
        steps.push(PinStep::DelayUs(1));
        assert(steps@ == start + bits_in((i + 1) as nat));
        i = i + 1;
    }
}

/// The pin steps of one 3-wire operation, in the order the pins are driven.
pub fn pin_steps(op: Spi3Op) -> (r: Vec<PinStep>)
    ensures
        r@ == op_pin_steps(op),
{
    let mut steps: Vec<PinStep> = Vec::new();
    match op {
        Spi3Op::Reset => {
            steps.push(PinStep::DelayMs(20));
            steps.push(PinStep::RstHigh);
            steps.push(PinStep::DelayMs(10));
            steps.push(PinStep::RstLow);
            steps.push(PinStep::DelayMs(20));
            steps.push(PinStep::RstHigh);
            steps.push(PinStep::DelayMs(10));
            steps.push(PinStep::CsHigh);
            steps.push(PinStep::DelayMs(10));
            steps.push(PinStep::WaitBusy);
        },
        Spi3Op::WriteCmd(b) => {
            steps.push(PinStep::DcLow);
            steps.push(PinStep::CsLow);
            steps.push(PinStep::DataOutput);
            push_bits_out(&mut steps, b);
            steps.push(PinStep::CsHigh);
        },
        Spi3Op::WriteData(b) => {
            steps.push(PinStep::DcHigh);
            steps.push(PinStep::CsLow);
            steps.push(PinStep::DataOutput);
            push_bits_out(&mut steps, b);
            steps.push(PinStep::CsHigh);
        },
        Spi3Op::DelayMs(ms) => {
            steps.push(PinStep::DelayMs(ms));
        },
        Spi3Op::WaitBusy => {
            steps.push(PinStep::WaitBusy);
        },
        Spi3Op::ReadDataByte => {
            steps.push(PinStep::DcHigh);
            steps.push(PinStep::CsLow);
            steps.push(PinStep::DataInput);
            push_bits_in(&mut steps);
            steps.push(PinStep::CsHigh);
        },
        Spi3Op::ReadByteNoDc => {
            steps.push(PinStep::CsLow);
            steps.push(PinStep::DataInput);
            push_bits_in(&mut steps);
            steps.push(PinStep::CsHigh);
        },
    }
    steps
}

/// The steps of the first `n` bits come six to a bit, in bit order.
proof fn lemma_bits_out_layout(value: u8, n: nat)
    ensures
        bits_out(value, n).len() == 6 * n,
        forall|k: int, j: int|
            0 <= k < n && 0 <= j < 6 ==> #[trigger] bits_out(value, n)[6 * k + j]
                == bit_out_steps(value, k)[j],
    decreases n,
{
    if n > 0 {
        lemma_bits_out_layout(value, (n - 1) as nat);
        let prev = bits_out(value, (n - 1) as nat);
        assert forall|k: int, j: int| 0 <= k < n && 0 <= j < 6 implies #[trigger] bits_out(
            value,
            n,
        )[6 * k + j] == bit_out_steps(value, k)[j] by {
            if k < n - 1 {
                assert(6 * k + j < 6 * (n - 1)) by (nonlinear_arith)
                    requires
                        k < n - 1,
                        j < 6,
                ;
                assert(bits_out(value, n)[6 * k + j] == prev[6 * k + j]);
            } else {
                assert(6 * k + j == 6 * (n - 1) + j);
            }
        }
    }
}

/// A written byte is clocked most significant bit first: in the steps of a command or data
/// byte, each SCK pulse is preceded by DATA driven to the next bit, and the eight levels so
/// driven spell the byte back.
pub proof fn lemma_written_levels_spell_the_byte(value: u8)
    ensures
        forall|k: int|
            0 <= k < 8 ==> (#[trigger] bits_out(value, 8)[6 * k] == PinStep::DataHigh)
                == bit_level(value, k) && bits_out(value, 8)[6 * k + 2] == PinStep::SckHigh,
        byte_of_levels(Seq::new(8, |k: int| bits_out(value, 8)[6 * k] == PinStep::DataHigh))
            == value,
{
    lemma_bits_out_layout(value, 8);
    assert forall|k: int| 0 <= k < 8 implies (#[trigger] bits_out(value, 8)[6 * k]
        == PinStep::DataHigh) == bit_level(value, k) && bits_out(value, 8)[6 * k + 2]
        == PinStep::SckHigh by {
        assert(bits_out(value, 8)[6 * k + 0] == bit_out_steps(value, k)[0]);
        assert(bits_out(value, 8)[6 * k + 2] == bit_out_steps(value, k)[2]);
    }
    let driven = Seq::new(8, |k: int| bits_out(value, 8)[6 * k] == PinStep::DataHigh);
    assert(driven =~= Seq::new(8, |i: int| bit_level(value, i)));
    lemma_levels_roundtrip(value);
}

} // verus!
