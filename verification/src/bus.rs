//! The SPI transport: the vocabulary of bus operations controllers plan, what each puts on the
//! wire, the validation and transport errors, and the busy-pin wait logic.
//!
//! Controllers never touch hardware. They return the exact sequence of [`BusOp`]s an operation
//! needs; a transport built on [`SpiBusWrapper`] carries them out, driving DC low for command
//! bytes and high for data, and polling BUSY through [`IdleWait`] and [`AssertWait`].

use vstd::prelude::*;

verus! {

/// Abstract view of one bus operation.
pub enum Op {
    /// Hardware reset pulse on RST with the given low/settle duration in milliseconds.
    HardReset(u32),
    /// One command byte, sent with DC low.
    Command(u8),
    /// Data bytes, sent with DC high.
    Data(Seq<u8>),
    /// `count` copies of one data byte, sent with DC high.
    DataRepeated(u8, nat),
    /// A pause of the given number of milliseconds.
    DelayMs(u32),
    /// Spin on BUSY until idle (`true`: HIGH means busy).
    WaitBusy(bool),
    /// Poll BUSY with a 1 ms delay between polls until idle.
    WaitBusyWithDelay(bool),
    /// Wait for BUSY to assert, for at most the given number of milliseconds.
    WaitBusyAssert(bool, u32),
}

/// One bus operation planned by a controller.
#[derive(Debug, Clone, PartialEq, Eq)]
pub enum BusOp {
    /// Hardware reset pulse on RST: high, 5 ms, low for the duration, high, then settle for the
    /// duration again.
    HardReset(u32),
    /// One command byte, sent with DC low.
    Command(u8),
    /// Data bytes, sent with DC high.
    Data(Vec<u8>),
    /// `count` copies of `byte`, sent with DC high in chunks of at most [`REPEAT_CHUNK`] bytes.
    DataRepeated(u8, usize),
    /// A pause of the given number of milliseconds.
    DelayMs(u32),
    /// Spin on BUSY until idle (`true`: HIGH means busy), bounded by [`IdleWait::spin`].
    WaitBusy(bool),
    /// Poll BUSY with a 1 ms delay until idle, bounded by [`IdleWait::with_delay`].
    WaitBusyWithDelay(bool),
    /// Wait for BUSY to assert, polling once per millisecond for at most the given time.
    WaitBusyAssert(bool, u32),
}

impl View for BusOp {
    type V = Op;

    open spec fn view(&self) -> Op {
        match self {
            BusOp::HardReset(ms) => Op::HardReset(*ms),
            BusOp::Command(c) => Op::Command(*c),
            BusOp::Data(d) => Op::Data(d@),
            BusOp::DataRepeated(b, n) => Op::DataRepeated(*b, *n as nat),
            BusOp::DelayMs(ms) => Op::DelayMs(*ms),
            BusOp::WaitBusy(h) => Op::WaitBusy(*h),
            BusOp::WaitBusyWithDelay(h) => Op::WaitBusyWithDelay(*h),
            BusOp::WaitBusyAssert(h, t) => Op::WaitBusyAssert(*h, *t),
        }
    }
}

/// The abstract operations of a planned sequence.
pub open spec fn ops_of(ops: Seq<BusOp>) -> Seq<Op> {
    ops.map_values(|o: BusOp| o@)
}

/// A data transfer: nothing at all for an empty slice.
pub open spec fn data_op(data: Seq<u8>) -> Seq<Op> {
    if data.len() == 0 {
        Seq::empty()
    } else {
        seq![Op::Data(data)]
    }
}

/// A command byte followed by its parameter bytes.
pub open spec fn cmd_data(command: u8, data: Seq<u8>) -> Seq<Op> {
    seq![Op::Command(command)] + data_op(data)
}

/// A repeated-byte transfer: nothing at all for a zero count.
pub open spec fn repeated_op(byte: u8, count: nat) -> Seq<Op> {
    if count == 0 {
        Seq::empty()
    } else {
        seq![Op::DataRepeated(byte, count)]
    }
}

proof fn lemma_ops_of_push(ops: Seq<BusOp>, op: BusOp)
    ensures
        ops_of(ops.push(op)) == ops_of(ops).push(op@),
{
    assert(ops_of(ops.push(op)) =~= ops_of(ops).push(op@));
}

/// Plans one command byte.
pub fn send_command(ops: &mut Vec<BusOp>, command: u8)
    ensures
        ops_of(final(ops)@) == ops_of(old(ops)@) + seq![Op::Command(command)],
{
    proof {
        lemma_ops_of_push(ops@, BusOp::Command(command));
    }
    ops.push(BusOp::Command(command));
    assert(ops_of(old(ops)@).push(Op::Command(command)) =~= ops_of(old(ops)@) + seq![
        Op::Command(command),
    ]);
}

/// Plans a data transfer; an empty slice plans nothing.
pub fn send_data(ops: &mut Vec<BusOp>, data: &[u8])
    ensures
        ops_of(final(ops)@) == ops_of(old(ops)@) + data_op(data@),
{
    if data.len() == 0 {
        assert(ops_of(old(ops)@) + data_op(data@) =~= ops_of(old(ops)@));
        return ;
    }
    let bytes = vstd::slice::slice_to_vec(data);
    proof {
        lemma_ops_of_push(ops@, BusOp::Data(bytes));
    }
    ops.push(BusOp::Data(bytes));
    assert(ops_of(old(ops)@).push(Op::Data(data@)) =~= ops_of(old(ops)@) + data_op(data@));
}

/// Plans a command byte followed by its parameter bytes.
pub fn send_command_with_data(ops: &mut Vec<BusOp>, command: u8, data: &[u8])
    ensures
        ops_of(final(ops)@) == ops_of(old(ops)@) + cmd_data(command, data@),
{
    send_command(ops, command);
    send_data(ops, data);
    assert(ops_of(old(ops)@) + seq![Op::Command(command)] + data_op(data@) =~= ops_of(old(ops)@)
        + cmd_data(command, data@));
}

/// Plans `count` copies of `byte`; a zero count plans nothing.
pub fn send_data_repeated(ops: &mut Vec<BusOp>, byte: u8, count: usize)
    ensures
        ops_of(final(ops)@) == ops_of(old(ops)@) + repeated_op(byte, count as nat),
{
    if count == 0 {
        assert(ops_of(old(ops)@) + repeated_op(byte, 0) =~= ops_of(old(ops)@));
        return ;
    }
    proof {
        lemma_ops_of_push(ops@, BusOp::DataRepeated(byte, count));
    }
    ops.push(BusOp::DataRepeated(byte, count));
    assert(ops_of(old(ops)@).push(Op::DataRepeated(byte, count as nat)) =~= ops_of(old(ops)@)
        + repeated_op(byte, count as nat));
}

/// Plans one operation that carries no bytes (reset, delay or busy wait).
pub fn push_op(ops: &mut Vec<BusOp>, op: BusOp)
    ensures
        ops_of(final(ops)@) == ops_of(old(ops)@) + seq![op@],
{
    proof {
        lemma_ops_of_push(ops@, op);
    }
    ops.push(op);
    assert(ops_of(old(ops)@).push(op@) =~= ops_of(old(ops)@) + seq![op@]);
}

/// Plans the operations of `more` after those already in `ops`.
pub fn append_ops(ops: &mut Vec<BusOp>, more: Vec<BusOp>)
    ensures
        ops_of(final(ops)@) == ops_of(old(ops)@) + ops_of(more@),
{
    let mut more = more;
    let ghost m = more@;
    ops.append(&mut more);
    assert(ops_of(old(ops)@ + m) =~= ops_of(old(ops)@) + ops_of(m));
}

// ----- What the wire carries -----------------------------------------------------------------

/// Largest single SPI write a repeated-byte transfer makes.
pub const REPEAT_CHUNK: usize = 64;

/// One SPI write as seen on the wire: a command byte (DC low) or a block of data (DC high).
pub enum Wire {
    /// A command byte.
    Command(u8),
    /// One data write.
    Data(Seq<u8>),
}

/// One SPI write as seen on the wire: a command byte (DC low) or a block of data (DC high).
#[derive(Debug, Clone, PartialEq, Eq)]
pub enum WireRecord {
    /// A command byte.
    Command(u8),
    /// One data write.
    Data(Vec<u8>),
}

impl View for WireRecord {
    type V = Wire;

    open spec fn view(&self) -> Wire {
        match self {
            WireRecord::Command(c) => Wire::Command(*c),
            WireRecord::Data(d) => Wire::Data(d@),
        }
    }
}

/// The abstract writes of a transcript.
pub open spec fn wires_of(records: Seq<WireRecord>) -> Seq<Wire> {
    records.map_values(|r: WireRecord| r@)
}

/// `n` copies of `byte`.
pub open spec fn filled(byte: u8, n: nat) -> Seq<u8> {
    Seq::new(n, |i: int| byte)
}

/// The writes of a repeated-byte transfer: full [`REPEAT_CHUNK`]-byte blocks, then the rest.
pub open spec fn repeat_chunks(byte: u8, count: nat) -> Seq<Wire>
    decreases count,
{
    if count == 0 {
        Seq::empty()
    } else if count <= 64 {
        seq![Wire::Data(filled(byte, count))]
    } else {
        seq![Wire::Data(filled(byte, 64))] + repeat_chunks(byte, (count - 64) as nat)
    }
}

/// The writes one operation puts on the wire. Resets, delays and busy waits touch only the RST
/// and BUSY pins, so they put nothing on it; an empty data transfer writes nothing.
pub open spec fn op_wire(op: Op) -> Seq<Wire> {
    match op {
        Op::Command(c) => seq![Wire::Command(c)],
        Op::Data(d) => if d.len() == 0 {
            Seq::empty()
        } else {
            seq![Wire::Data(d)]
        },
        Op::DataRepeated(b, n) => repeat_chunks(b, n),
        _ => Seq::empty(),
    }
}

/// The writes a sequence of operations puts on the wire, in order.
pub open spec fn ops_wire(ops: Seq<Op>) -> Seq<Wire>
    decreases ops.len(),
{
    if ops.len() == 0 {
        Seq::empty()
    } else {
        ops_wire(ops.drop_last()) + op_wire(ops.last())
    }
}

/// The total number of data bytes in a sequence of writes.
pub open spec fn data_len(wires: Seq<Wire>) -> nat
    decreases wires.len(),
{
    if wires.len() == 0 {
        0
    } else {
        data_len(wires.drop_last()) + match wires.last() {
            Wire::Data(d) => d.len(),
            Wire::Command(_) => 0,
        }
    }
}

/// The data bytes of a sequence of writes, concatenated in order: what the panel's RAM receives.
pub open spec fn data_bytes(wires: Seq<Wire>) -> Seq<u8>
    decreases wires.len(),
{
    if wires.len() == 0 {
        Seq::empty()
    } else {
        data_bytes(wires.drop_last()) + match wires.last() {
            Wire::Data(d) => d,
            Wire::Command(_) => Seq::empty(),
        }
    }
}

/// `count` copies of one byte.
pub fn filled_bytes(byte: u8, count: usize) -> (r: Vec<u8>)
    ensures
        r@ == filled(byte, count as nat),
{
    let mut r: Vec<u8> = Vec::new();
    let mut i: usize = 0;
    while i < count
        invariant
            i <= count,
            r@ == filled(byte, i as nat),
        decreases count - i,
    {
        r.push(byte);
        i = i + 1;
        assert(r@ =~= filled(byte, i as nat));
    }
    r
}

/// The writes one operation puts on the wire.
pub fn op_transcript(op: &BusOp) -> (r: Vec<WireRecord>)
    ensures
        wires_of(r@) == op_wire(op@),
{
    match op {
        BusOp::Command(c) => {
            let r = vec![WireRecord::Command(*c)];
            assert(wires_of(r@) =~= op_wire(op@));
            r
        },
        BusOp::Data(d) => {
            let mut r: Vec<WireRecord> = Vec::new();
            if d.len() > 0 {
                r.push(WireRecord::Data(d.clone()));
            }
            assert(wires_of(r@) =~= op_wire(op@));
            r
        },
        BusOp::DataRepeated(b, n) => {
            let byte = *b;
            let count = *n;
            let mut r: Vec<WireRecord> = Vec::new();
            let mut remaining = count;
            while remaining > 0
                invariant
                    remaining <= count,
                    wires_of(r@) + repeat_chunks(byte, remaining as nat) == repeat_chunks(
                        byte,
                        count as nat,
                    ),
                decreases remaining,
            {
                let write_len = if remaining < REPEAT_CHUNK {
                    remaining
                } else {
                    REPEAT_CHUNK
                };
                let ghost before = r@;
                r.push(WireRecord::Data(filled_bytes(byte, write_len)));
                remaining = remaining - write_len;
                assert(wires_of(r@) =~= wires_of(before).push(Wire::Data(filled(byte, write_len as nat))));
                assert(wires_of(r@) + repeat_chunks(byte, remaining as nat) =~= wires_of(before)
                    + repeat_chunks(byte, (remaining + write_len) as nat));
            }
            assert(wires_of(r@) =~= wires_of(r@) + repeat_chunks(byte, 0));
            r
        },
        _ => {
            let r: Vec<WireRecord> = Vec::new();
            assert(wires_of(r@) =~= op_wire(op@));
            r
        },
    }
}

/// The writes a planned sequence puts on the wire, in order: exactly what an SPI device sees,
/// split by the state of DC.
pub fn transcript(ops: &Vec<BusOp>) -> (r: Vec<WireRecord>)
    ensures
        wires_of(r@) == ops_wire(ops_of(ops@)),
{
    let mut r: Vec<WireRecord> = Vec::new();
    let mut i: usize = 0;
    while i < ops.len()
        invariant
            i <= ops.len(),
            wires_of(r@) == ops_wire(ops_of(ops@).take(i as int)),
        decreases ops.len() - i,
    {
        let ghost before = r@;
        let mut piece = op_transcript(&ops[i]);
        let ghost p = piece@;
        r.append(&mut piece);
        proof {
            let s = ops_of(ops@);
            assert(s.take(i + 1).drop_last() =~= s.take(i as int));
            assert(s.take(i + 1).last() == ops@[i as int]@);
            assert(wires_of(before + p) =~= wires_of(before) + wires_of(p));
        }
        i = i + 1;
    }
    assert(ops_of(ops@).take(ops.len() as int) =~= ops_of(ops@));
    r
}

/// The data bytes of a repeated transfer are exactly `count` copies of the byte, and every write
/// is non-empty and at most [`REPEAT_CHUNK`] bytes long.
pub proof fn lemma_repeat_chunks_carry_the_fill(byte: u8, count: nat)
    ensures
        data_len(repeat_chunks(byte, count)) == count,
        forall|i: int|
            0 <= i < repeat_chunks(byte, count).len() ==> (#[trigger] repeat_chunks(byte, count)[i]
                matches Wire::Data(d) && 0 < d.len() <= 64 && d == filled(byte, d.len())),
    decreases count,
{
    if count > 64 {
        let rest = repeat_chunks(byte, (count - 64) as nat);
        lemma_repeat_chunks_carry_the_fill(byte, (count - 64) as nat);
        let head = seq![Wire::Data(filled(byte, 64))];
        lemma_data_len_concat(head, rest);
        assert(data_len(head) == 64) by {
            assert(head.drop_last() =~= Seq::<Wire>::empty());
            reveal_with_fuel(data_len, 2);
        }
        assert forall|i: int| 0 <= i < repeat_chunks(byte, count).len() implies (#[trigger] repeat_chunks(
            byte,
            count,
        )[i] matches Wire::Data(d) && 0 < d.len() <= 64 && d == filled(byte, d.len())) by {
            if i > 0 {
                assert(repeat_chunks(byte, count)[i] == rest[i - 1]);
            } else {
                assert(filled(byte, 64) =~= filled(byte, filled(byte, 64).len()));
            }
        }
    } else if count > 0 {
        let s = repeat_chunks(byte, count);
        assert(s.drop_last() =~= Seq::<Wire>::empty());
        reveal_with_fuel(data_len, 2);
        assert(filled(byte, count) =~= filled(byte, filled(byte, count).len()));
    }
}

/// The wire transcript of two planned sequences run one after the other is the first's
/// transcript followed by the second's.
pub proof fn lemma_ops_wire_concat(a: Seq<Op>, b: Seq<Op>)
    ensures
        ops_wire(a + b) == ops_wire(a) + ops_wire(b),
    decreases b.len(),
{
    if b.len() == 0 {
        assert(a + b =~= a);
        assert(ops_wire(a) + ops_wire(b) =~= ops_wire(a));
    } else {
        lemma_ops_wire_concat(a, b.drop_last());
        assert((a + b).drop_last() =~= a + b.drop_last());
        assert((a + b).last() == b.last());
        assert(ops_wire(a) + ops_wire(b.drop_last()) + op_wire(b.last()) =~= ops_wire(a) + (
        ops_wire(b.drop_last()) + op_wire(b.last())));
    }
}

/// The data bytes of concatenated transcripts are concatenated.
pub proof fn lemma_data_bytes_concat(a: Seq<Wire>, b: Seq<Wire>)
    ensures
        data_bytes(a + b) == data_bytes(a) + data_bytes(b),
    decreases b.len(),
{
    if b.len() == 0 {
        assert(a + b =~= a);
        assert(data_bytes(a) + data_bytes(b) =~= data_bytes(a));
    } else {
        lemma_data_bytes_concat(a, b.drop_last());
        assert((a + b).drop_last() =~= a + b.drop_last());
        assert((a + b).last() == b.last());
        let tail = match b.last() {
            Wire::Data(d) => d,
            Wire::Command(_) => Seq::<u8>::empty(),
        };
        assert(data_bytes(a) + data_bytes(b.drop_last()) + tail =~= data_bytes(a) + (data_bytes(
            b.drop_last(),
        ) + tail));
    }
}

/// A repeated-byte transfer delivers exactly `count` copies of the byte, in order.
pub proof fn lemma_repeat_chunks_spell_the_fill(byte: u8, count: nat)
    ensures
        data_bytes(repeat_chunks(byte, count)) == filled(byte, count),
    decreases count,
{
    if count == 0 {
        assert(filled(byte, 0) =~= Seq::<u8>::empty());
    } else if count <= 64 {
        let s = repeat_chunks(byte, count);
        assert(s.drop_last() =~= Seq::<Wire>::empty());
        reveal_with_fuel(data_bytes, 2);
        assert(data_bytes(s) =~= Seq::<u8>::empty() + filled(byte, count));
    } else {
        let head = seq![Wire::Data(filled(byte, 64))];
        let rest = (count - 64) as nat;
        lemma_repeat_chunks_spell_the_fill(byte, rest);
        lemma_data_bytes_concat(head, repeat_chunks(byte, rest));
        assert(head.drop_last() =~= Seq::<Wire>::empty());
        assert(data_bytes(head) =~= Seq::<u8>::empty() + filled(byte, 64)) by {
            reveal_with_fuel(data_bytes, 2);
        }
        assert(filled(byte, 64) + filled(byte, rest) =~= filled(byte, count));
    }
}

/// Data byte counts add up across concatenated transcripts.
pub proof fn lemma_data_len_concat(a: Seq<Wire>, b: Seq<Wire>)
    ensures
        data_len(a + b) == data_len(a) + data_len(b),
    decreases b.len(),
{
    if b.len() == 0 {
        assert(a + b =~= a);
    } else {
        lemma_data_len_concat(a, b.drop_last());
        assert((a + b).drop_last() =~= a + b.drop_last());
        assert((a + b).last() == b.last());
    }
}

// ----- Errors --------------------------------------------------------------------------------

/// Errors caught before any bytes reach the bus — a caller-supplied buffer or window that
/// cannot be honoured against the panel's declared dimensions.
#[derive(Debug, Clone, Copy, PartialEq, Eq, Structural)]
#[non_exhaustive]
pub enum ValidationError {
    /// A `write_frame` buffer is smaller than the channel requires for the panel's dimensions.
    BufferTooSmall {
        /// Minimum buffer length the channel/panel combination requires.
        required: usize,
        /// Actual length of the buffer the caller supplied.
        provided: usize,
    },
    /// A `set_window` call named coordinates outside the panel, or an inverted range.
    InvalidWindow,
}

/// Bus error wrapper categorizing errors from SPI transfers or GPIO toggling.
#[derive(Debug, Clone, Copy, PartialEq, Eq)]
#[non_exhaustive]
pub enum EpdBusError<SPIE, DCE, RSTE, BUSYE> {
    /// Error originating from SPI transfer.
    Spi(SPIE),
    /// Error toggling Data/Command pin.
    Dc(DCE),
    /// Error toggling Reset pin.
    Reset(RSTE),
    /// Error reading Busy input pin.
    Busy(BUSYE),
    /// A `write_frame` buffer is smaller than the channel requires for the panel's dimensions.
    BufferTooSmall {
        /// Minimum buffer length the channel/panel combination requires.
        required: usize,
        /// Actual length of the buffer the caller supplied.
        provided: usize,
    },
    /// A `set_window` call named coordinates outside the panel, or an inverted range.
    InvalidWindow,
}

/// The transport error a validation failure becomes: the same variant, with the same counts.
pub open spec fn validation_to_bus<SPIE, DCE, RSTE, BUSYE>(err: ValidationError) -> EpdBusError<
    SPIE,
    DCE,
    RSTE,
    BUSYE,
> {
    match err {
        ValidationError::BufferTooSmall { required, provided } => EpdBusError::BufferTooSmall {
            required,
            provided,
        },
        ValidationError::InvalidWindow => EpdBusError::InvalidWindow,
    }
}

impl<SPIE, DCE, RSTE, BUSYE> From<ValidationError> for EpdBusError<SPIE, DCE, RSTE, BUSYE> {
    fn from(err: ValidationError) -> (r: Self) {
        match err {
            ValidationError::BufferTooSmall { required, provided } => {
                EpdBusError::BufferTooSmall { required, provided }
            },
            ValidationError::InvalidWindow => EpdBusError::InvalidWindow,
        }
    }
}

impl<SPIE, DCE, RSTE, BUSYE> vstd::std_specs::convert::FromSpecImpl<ValidationError> for EpdBusError<SPIE, DCE, RSTE, BUSYE> {
    open spec fn obeys_from_spec() -> bool {
        true
    }

    open spec fn from_spec(err: ValidationError) -> Self {
        validation_to_bus(err)
    }
}

// ----- The transport -------------------------------------------------------------------------

/// SPI Bus Wrapper holding the SPI device and the control GPIO pins (DC, RST, BUSY) a transport
/// drives while carrying out planned [`BusOp`]s.
pub struct SpiBusWrapper<SPI, DC, RST, BUSY> {
    spi: SPI,
    dc: DC,
    rst: RST,
    busy: BUSY,
}

impl<SPI, DC, RST, BUSY> SpiBusWrapper<SPI, DC, RST, BUSY> {
    /// The SPI device.
    pub closed spec fn spi(&self) -> SPI {
        self.spi
    }

    /// The Data/Command pin.
    pub closed spec fn dc(&self) -> DC {
        self.dc
    }

    /// The reset pin.
    pub closed spec fn rst(&self) -> RST {
        self.rst
    }

    /// The busy input pin.
    pub closed spec fn busy(&self) -> BUSY {
        self.busy
    }

    /// Constructs a new SPI communication bus wrapper.
    pub fn new(spi: SPI, dc: DC, rst: RST, busy: BUSY) -> (r: Self)
        ensures
            r.spi() == spi,
            r.dc() == dc,
            r.rst() == rst,
            r.busy() == busy,
    {
        Self { spi, dc, rst, busy }
    }

    /// Access inner SPI device reference.
    pub fn spi_mut(&mut self) -> (r: &mut SPI)
        ensures
            *r == old(self).spi(),
            final(self).spi() == *final(r),
            final(self).dc() == old(self).dc(),
            final(self).rst() == old(self).rst(),
            final(self).busy() == old(self).busy(),
    {
        &mut self.spi
    }

    /// Access all four parts at once, for a transport that drives them.
    pub fn parts_mut(&mut self) -> (r: (&mut SPI, &mut DC, &mut RST, &mut BUSY))
        ensures
            *r.0 == old(self).spi(),
            *r.1 == old(self).dc(),
            *r.2 == old(self).rst(),
            *r.3 == old(self).busy(),
            final(self).spi() == *final(r.0),
            final(self).dc() == *final(r.1),
            final(self).rst() == *final(r.2),
            final(self).busy() == *final(r.3),
    {
        (&mut self.spi, &mut self.dc, &mut self.rst, &mut self.busy)
    }

    /// Consumes the wrapper, returning the SPI device and pins.
    pub fn release(self) -> (r: (SPI, DC, RST, BUSY))
        ensures
            r == (self.spi(), self.dc(), self.rst(), self.busy()),
    {
        (self.spi, self.dc, self.rst, self.busy)
    }
}

// ----- Busy waits ----------------------------------------------------------------------------

/// Safety cap of a spinning idle wait: once more than a billion polls have read busy, the wait
/// gives up.
pub const SPIN_RETRY_LIMIT: u64 = 1_000_000_000;

/// Safety cap of a delayed idle wait: once more than 60,000 polls have read busy, 1 ms apart
/// (about 60 seconds), the wait gives up.
pub const DELAY_RETRY_LIMIT: u64 = 60_000;

/// What a busy wait asks its transport to do after a poll.
#[derive(Debug, Clone, Copy, PartialEq, Eq, Structural)]
pub enum WaitStep {
    /// The wait is over.
    Finished,
    /// Wait this many milliseconds (none: spin once), then poll BUSY again.
    PollAgainAfter(u32),
    /// Wait this many milliseconds (none: spin once), then stop waiting: the cap is exceeded.
    GiveUpAfter(u32),
}

/// A bounded wait for the BUSY pin to read idle.
///
/// Each poll that still reads busy is answered with a pause and counts as a retry; the pause
/// after the retry that exceeds the cap is the last, so a missing or stalled panel cannot hang
/// the caller.
#[derive(Debug, Clone, Copy, PartialEq, Eq, Structural)]
pub struct IdleWait {
    active_high: bool,
    delay_ms: u32,
    retries: u64,
    max_retries: u64,
}

impl IdleWait {
    /// Whether HIGH means busy.
    pub closed spec fn active_high(&self) -> bool {
        self.active_high
    }

    /// Pause between polls, in milliseconds.
    pub closed spec fn delay_ms(&self) -> u32 {
        self.delay_ms
    }

    /// Busy polls seen so far.
    pub closed spec fn retries(&self) -> nat {
        self.retries as nat
    }

    /// The cap on busy polls.
    pub closed spec fn max_retries(&self) -> nat {
        self.max_retries as nat
    }

    /// The state invariant: the retry count passes the cap by at most the one retry that gives
    /// up.
    pub closed spec fn wf(&self) -> bool {
        self.retries <= self.max_retries + 1 && self.max_retries < u64::MAX
    }

    /// A wait with the given polarity, pause and cap.
    pub fn new(active_high: bool, delay_ms: u32, max_retries: u64) -> (r: Self)
        requires
            max_retries < u64::MAX,
        ensures
            r.wf(),
            r.active_high() == active_high,
            r.delay_ms() == delay_ms,
            r.retries() == 0,
            r.max_retries() == max_retries,
    {
        IdleWait { active_high, delay_ms, retries: 0, max_retries }
    }

    /// The spinning wait: no pause between polls, capped at [`SPIN_RETRY_LIMIT`] busy polls.
    pub fn spin(active_high: bool) -> (r: Self)
        ensures
            r.wf(),
            r.active_high() == active_high,
            r.delay_ms() == 0,
            r.retries() == 0,
            r.max_retries() == SPIN_RETRY_LIMIT,
    {
        Self::new(active_high, 0, SPIN_RETRY_LIMIT)
    }

    /// The delayed wait: 1 ms between polls, capped at [`DELAY_RETRY_LIMIT`] busy polls.
    pub fn with_delay(active_high: bool) -> (r: Self)
        ensures
            r.wf(),
            r.active_high() == active_high,
            r.delay_ms() == 1,
            r.retries() == 0,
            r.max_retries() == DELAY_RETRY_LIMIT,
    {
        Self::new(active_high, 1, DELAY_RETRY_LIMIT)
    }

    /// Takes one BUSY reading. An idle reading finishes the wait; a busy one counts a retry and
    /// asks for a pause and another poll, or, once the retries exceed the cap, for a last pause.
    pub fn observe(&mut self, level_high: bool) -> (r: WaitStep)
        requires
            old(self).wf(),
        ensures
            final(self).wf(),
            final(self).active_high() == old(self).active_high(),
            final(self).delay_ms() == old(self).delay_ms(),
            final(self).max_retries() == old(self).max_retries(),
            level_high != old(self).active_high() ==> r == WaitStep::Finished && *final(self)
                == *old(self),
            level_high == old(self).active_high() && old(self).retries() < old(self).max_retries()
                ==> r == WaitStep::PollAgainAfter(old(self).delay_ms()) && final(self).retries()
                == old(self).retries() + 1,
            level_high == old(self).active_high() && old(self).retries() == old(self).max_retries()
                ==> r == WaitStep::GiveUpAfter(old(self).delay_ms()) && final(self).retries()
                == old(self).retries() + 1,
            level_high == old(self).active_high() && old(self).retries() > old(self).max_retries()
                ==> r == WaitStep::Finished && *final(self) == *old(self),
            (final(self).retries(), r) == idle_next(
                old(self).active_high(),
                old(self).delay_ms(),
                old(self).retries(),
                old(self).max_retries(),
                level_high,
            ),
    {
        if level_high != self.active_high {
            return WaitStep::Finished;
        }
        if self.retries > self.max_retries {
            return WaitStep::Finished;
        }
        self.retries = self.retries + 1;
        if self.retries > self.max_retries {
            WaitStep::GiveUpAfter(self.delay_ms)
        } else {
            WaitStep::PollAgainAfter(self.delay_ms)
        }
    }
}

/// One BUSY reading fed to an idle wait that has counted `retries` busy polls against a cap of
/// `max`: the new retry count and the step asked for.
pub open spec fn idle_next(active_high: bool, delay_ms: u32, retries: nat, max: nat, level_high: bool) -> (
    nat,
    WaitStep,
) {
    if level_high != active_high {
        (retries, WaitStep::Finished)
    } else if retries > max {
        (retries, WaitStep::Finished)
    } else if retries + 1 > max {
        (retries + 1, WaitStep::GiveUpAfter(delay_ms))
    } else {
        (retries + 1, WaitStep::PollAgainAfter(delay_ms))
    }
}

/// The steps an idle wait asks for when fed `levels` in turn, one per poll, until a step ends
/// the wait or the readings run out.
pub open spec fn idle_steps(
    active_high: bool,
    delay_ms: u32,
    retries: nat,
    max: nat,
    levels: Seq<bool>,
) -> Seq<WaitStep>
    decreases levels.len(),
{
    if levels.len() == 0 {
        Seq::empty()
    } else {
        let (next, step) = idle_next(active_high, delay_ms, retries, max, levels[0]);
        if step is PollAgainAfter {
            seq![step] + idle_steps(active_high, delay_ms, next, max, levels.drop_first())
        } else {
            seq![step]
        }
    }
}

/// A fresh idle wait never hangs: fed at least `max + 1` readings, it stops after the first
/// idle one, pausing once for each busy reading before it, or gives up after `max + 1` busy
/// readings, pausing once for each.
pub proof fn lemma_idle_wait_ends(active_high: bool, delay_ms: u32, max: nat, levels: Seq<bool>)
    requires
        levels.len() >= max + 1,
    ensures
        ({
            let steps = idle_steps(active_high, delay_ms, 0, max, levels);
            let n = steps.len();
            &&& 1 <= n <= max + 1
            &&& forall|i: int| 0 <= i < n - 1 ==> #[trigger] steps[i] == WaitStep::PollAgainAfter(
                delay_ms,
            ) && levels[i] == active_high
            &&& (levels[n - 1] != active_high <==> steps[n - 1] == WaitStep::Finished)
            &&& (levels[n - 1] == active_high <==> (n == max + 1 && steps[n - 1]
                == WaitStep::GiveUpAfter(delay_ms)))
        }),
{
    lemma_idle_steps_from(active_high, delay_ms, 0, max, levels);
}

proof fn lemma_idle_steps_from(
    active_high: bool,
    delay_ms: u32,
    retries: nat,
    max: nat,
    levels: Seq<bool>,
)
    requires
        retries <= max,
        levels.len() >= max + 1 - retries,
    ensures
        ({
            let steps = idle_steps(active_high, delay_ms, retries, max, levels);
            let n = steps.len();
            &&& 1 <= n <= max + 1 - retries
            &&& forall|i: int| 0 <= i < n - 1 ==> #[trigger] steps[i] == WaitStep::PollAgainAfter(
                delay_ms,
            ) && levels[i] == active_high
            &&& (levels[n - 1] != active_high <==> steps[n - 1] == WaitStep::Finished)
            &&& (levels[n - 1] == active_high <==> (n == max + 1 - retries && steps[n - 1]
                == WaitStep::GiveUpAfter(delay_ms)))
        }),
    decreases levels.len(),
{
    let (next, step) = idle_next(active_high, delay_ms, retries, max, levels[0]);
    if step is PollAgainAfter {
        let rest = levels.drop_first();
        lemma_idle_steps_from(active_high, delay_ms, next, max, rest);
        let tail = idle_steps(active_high, delay_ms, next, max, rest);
        let steps = idle_steps(active_high, delay_ms, retries, max, levels);
        assert(steps == seq![step] + tail);
        assert forall|i: int| 0 <= i < steps.len() - 1 implies #[trigger] steps[i]
            == WaitStep::PollAgainAfter(delay_ms) && levels[i] == active_high by {
            if i > 0 {
                assert(steps[i] == tail[i - 1]);
                assert(levels[i] == rest[i - 1]);
            }
        }
        assert(steps[steps.len() - 1] == tail[tail.len() - 1]);
        assert(levels[steps.len() - 1] == rest[tail.len() - 1]);
    }
}

/// What a wait for BUSY to assert concludes.
#[derive(Debug, Clone, Copy, PartialEq, Eq, Structural)]
pub enum AssertStep {
    /// BUSY read as asserted.
    Asserted,
    /// Wait one millisecond, then poll again.
    PollAgainAfterOneMs,
}

/// A wait for BUSY to *assert*, polling once per millisecond for at most `timeout_ms` polls.
///
/// A panel that never asserts is reported through [`AssertWait::timed_out`] rather than as an
/// error, so a missing panel still reads idle and falls straight through.
#[derive(Debug, Clone, Copy, PartialEq, Eq, Structural)]
pub struct AssertWait {
    active_high: bool,
    polls: u32,
    timeout_ms: u32,
}

/// One BUSY reading fed to a wait for BUSY to assert that has seen `polls` idle readings: the
/// new count and the step asked for.
pub open spec fn assert_next(active_high: bool, polls: nat, level_high: bool) -> (nat, AssertStep) {
    if level_high == active_high {
        (polls, AssertStep::Asserted)
    } else {
        (polls + 1, AssertStep::PollAgainAfterOneMs)
    }
}

/// How a wait for BUSY to assert, allowed `timeout` polls and already `polls` in, ends when fed
/// `levels` in turn: polling only while time remains, whether BUSY was seen asserted and how
/// many 1 ms pauses were taken on the way.
pub open spec fn assert_run(active_high: bool, polls: nat, timeout: nat, levels: Seq<bool>) -> (
    bool,
    nat,
)
    decreases levels.len(),
{
    if polls >= timeout || levels.len() == 0 {
        (false, 0)
    } else {
        let (next, step) = assert_next(active_high, polls, levels[0]);
        if step == AssertStep::Asserted {
            (true, 0)
        } else {
            let rest = assert_run(active_high, next, timeout, levels.drop_first());
            (rest.0, rest.1 + 1)
        }
    }
}

/// A fresh wait for BUSY to assert, fed at least `timeout` readings, reports BUSY asserted
/// exactly when one of the first `timeout` readings shows it, after one pause for each reading
/// before the first such one; otherwise it reports no assertion after `timeout` pauses.
pub proof fn lemma_assert_wait_ends(active_high: bool, timeout: nat, levels: Seq<bool>)
    requires
        levels.len() >= timeout,
    ensures
        ({
            let (asserted, pauses) = assert_run(active_high, 0, timeout, levels);
            &&& asserted ==> pauses < timeout && levels[pauses as int] == active_high
            &&& forall|j: int| 0 <= j < pauses ==> #[trigger] levels[j] != active_high
            &&& !asserted ==> pauses == timeout
        }),
{
    lemma_assert_run_from(active_high, 0, timeout, levels);
}

proof fn lemma_assert_run_from(active_high: bool, polls: nat, timeout: nat, levels: Seq<bool>)
    requires
        polls <= timeout,
        levels.len() >= timeout - polls,
    ensures
        ({
            let (asserted, pauses) = assert_run(active_high, polls, timeout, levels);
            &&& asserted ==> pauses < timeout - polls && levels[pauses as int] == active_high
            &&& forall|j: int| 0 <= j < pauses ==> #[trigger] levels[j] != active_high
            &&& !asserted ==> pauses == timeout - polls
        }),
    decreases levels.len(),
{
    if polls < timeout && levels.len() > 0 && levels[0] != active_high {
        let rest = levels.drop_first();
        lemma_assert_run_from(active_high, polls + 1, timeout, rest);
        let r = assert_run(active_high, polls + 1, timeout, rest);
        assert forall|j: int| 0 <= j < r.1 + 1 implies #[trigger] levels[j] != active_high by {
            if j > 0 {
                assert(levels[j] == rest[j - 1]);
            }
        }
        if r.0 {
            assert(levels[(r.1 + 1) as int] == rest[r.1 as int]);
        }
    }
}

impl AssertWait {
    /// Whether HIGH means busy.
    pub closed spec fn active_high(&self) -> bool {
        self.active_high
    }

    /// Polls that read idle so far.
    pub closed spec fn polls(&self) -> nat {
        self.polls as nat
    }

    /// The number of polls allowed.
    pub closed spec fn timeout(&self) -> nat {
        self.timeout_ms as nat
    }

    /// The state invariant: never more polls than the timeout allows.
    pub closed spec fn wf(&self) -> bool {
        self.polls <= self.timeout_ms
    }

    /// A fresh wait.
    pub fn new(active_high: bool, timeout_ms: u32) -> (r: Self)
        ensures
            r.wf(),
            r.active_high() == active_high,
            r.polls() == 0,
            r.timeout() == timeout_ms,
    {
        AssertWait { active_high, polls: 0, timeout_ms }
    }

    /// Whether the time is up: every allowed poll has read idle.
    pub fn timed_out(&self) -> (r: bool)
        requires
            self.wf(),
        ensures
            r == (self.polls() == self.timeout()),
    {
        self.polls >= self.timeout_ms
    }

    /// Takes one BUSY reading, made while time remains.
    pub fn observe(&mut self, level_high: bool) -> (r: AssertStep)
        requires
            old(self).wf(),
            old(self).polls() < old(self).timeout(),
        ensures
            final(self).wf(),
            final(self).active_high() == old(self).active_high(),
            final(self).timeout() == old(self).timeout(),
            level_high == old(self).active_high() ==> r == AssertStep::Asserted && *final(self)
                == *old(self),
            level_high != old(self).active_high() ==> r == AssertStep::PollAgainAfterOneMs
                && final(self).polls() == old(self).polls() + 1,
            (final(self).polls(), r) == assert_next(old(self).active_high(), old(self).polls(), level_high),
    {
        if level_high == self.active_high {
            AssertStep::Asserted
        } else {
            self.polls = self.polls + 1;
            AssertStep::PollAgainAfterOneMs
        }
    }
}

} // verus!
