//! Register-encoding helpers shared by the controllers.

use vstd::prelude::*;
use crate::bus::{
    BusOp, Op, Wire, cmd_data, data_bytes, filled, lemma_data_bytes_concat,
    lemma_ops_wire_concat, lemma_repeat_chunks_spell_the_fill, op_wire, ops_of, ops_wire,
    repeated_op, send_command, send_command_with_data, send_data_repeated,
};

verus! {

/// The low byte of a register value.
pub open spec fn lo8(v: u32) -> u8 {
    (v & 0xFF) as u8
}

/// The second-lowest byte of a register value.
pub open spec fn hi8(v: u32) -> u8 {
    ((v >> 8u32) & 0xFF) as u8
}

/// A register value as two bytes, low byte first.
pub open spec fn le16(v: u32) -> Seq<u8> {
    seq![lo8(v), hi8(v)]
}

/// A register value as two bytes, high byte first.
pub open spec fn be16(v: u32) -> Seq<u8> {
    seq![hi8(v), lo8(v)]
}

/// Whether two bytes, read low byte first, give back `v` modulo 2^16.
pub open spec fn reads_le16(d: Seq<u8>, v: u32) -> bool {
    d.len() == 2 && d[0] + 256 * d[1] == v % 65536
}

/// Whether two bytes, read high byte first, give back `v` modulo 2^16.
pub open spec fn reads_be16(d: Seq<u8>, v: u32) -> bool {
    d.len() == 2 && 256 * d[0] + d[1] == v % 65536
}

/// The two-byte encodings read back the value they encode, in their byte order.
pub proof fn lemma_16_bit_encodings_read_back(v: u32)
    ensures
        reads_le16(le16(v), v),
        reads_be16(be16(v), v),
{
    assert((v & 0xFF) as u8 as int + 256 * (((v >> 8u32) & 0xFF) as u8 as int) == v % 65536)
        by (bit_vector);
}

/// The low byte of a register value.
pub fn low_byte(v: u32) -> (r: u8)
    ensures
        r == lo8(v),
        r as int == v % 256,
{
    assert((v & 0xFF) as u8 as int == v % 256) by (bit_vector);
    (v & 0xFF) as u8
}

/// The second-lowest byte of a register value.
pub fn high_byte(v: u32) -> (r: u8)
    ensures
        r == hi8(v),
        r as int == (v / 256) % 256,
{
    assert(((v >> 8u32) & 0xFF) as u8 as int == (v / 256) % 256) by (bit_vector);
    ((v >> 8) & 0xFF) as u8
}

/// Splitting a 16-bit value into its two bytes loses nothing: `lo | hi << 8` rebuilds it.
pub proof fn lemma_bytes_rebuild(v: u32)
    requires
        v < 0x10000,
    ensures
        lo8(v) as u32 | ((hi8(v) as u32) << 8u32) == v,
        lo8(v) as int + 256 * (hi8(v) as int) == v,
{
    assert((v & 0xFF) as u8 as u32 | ((((v >> 8u32) & 0xFF) as u8 as u32) << 8u32) == v)
        by (bit_vector)
        requires v < 0x10000;
    assert((v & 0xFF) as u8 as int + 256 * (((v >> 8u32) & 0xFF) as u8 as int) == v)
        by (bit_vector)
        requires v < 0x10000;
}

/// A fill of `count` copies of `byte` preceded by the plane-select command.
pub open spec fn fill_ops(command: u8, byte: u8, count: usize) -> Seq<Op> {
    seq![Op::Command(command)] + repeated_op(byte, count as nat)
}

/// Plans a plane-select command followed by a repeated fill.
pub fn plan_fill(ops: &mut Vec<BusOp>, command: u8, byte: u8, count: usize)
    ensures
        ops_of(final(ops)@) == ops_of(old(ops)@) + fill_ops(command, byte, count),
{
    send_command(ops, command);
    send_data_repeated(ops, byte, count);
    assert(ops_of(old(ops)@) + seq![Op::Command(command)] + repeated_op(byte, count as nat)
        =~= ops_of(old(ops)@) + fill_ops(command, byte, count));
}

/// A fill puts the plane-select command on the wire and then exactly `count` copies of the
/// byte, whatever the count (none at all for zero).
pub proof fn lemma_fill_delivers_the_fill(command: u8, byte: u8, count: usize)
    ensures
        ops_wire(fill_ops(command, byte, count))[0] == Wire::Command(command),
        data_bytes(ops_wire(fill_ops(command, byte, count))) == filled(byte, count as nat),
{
    let head = seq![Op::Command(command)];
    let tail = repeated_op(byte, count as nat);
    lemma_ops_wire_concat(head, tail);
    assert(head.drop_last() =~= Seq::<Op>::empty());
    let hw = seq![Wire::Command(command)];
    assert(ops_wire(head) =~= hw) by {
        assert(ops_wire(head) =~= ops_wire(head.drop_last()) + op_wire(head.last()));
    }
    let tw = ops_wire(tail);
    if count > 0 {
        let t = seq![Op::DataRepeated(byte, count as nat)];
        assert(t.drop_last() =~= Seq::<Op>::empty());
        assert(tw =~= ops_wire(t.drop_last()) + op_wire(t.last()));
        lemma_repeat_chunks_spell_the_fill(byte, count as nat);
    } else {
        assert(tw =~= Seq::<Wire>::empty());
        assert(filled(byte, 0) =~= Seq::<u8>::empty());
    }
    lemma_data_bytes_concat(hw, tw);
    assert(hw.drop_last() =~= Seq::<Wire>::empty());
    assert(data_bytes(hw) =~= Seq::<u8>::empty()) by {
        reveal_with_fuel(data_bytes, 2);
    }
    assert(data_bytes(hw) + data_bytes(tw) =~= data_bytes(tw));
}

/// A one-byte register write when a value is configured, nothing otherwise.
pub open spec fn optional_register(command: u8, value: Option<u8>) -> Seq<Op> {
    match value {
        Some(v) => cmd_data(command, seq![v]),
        None => Seq::empty(),
    }
}

/// Plans a one-byte register write when a value is configured.
pub fn plan_optional_register(ops: &mut Vec<BusOp>, command: u8, value: Option<u8>)
    ensures
        ops_of(final(ops)@) == ops_of(old(ops)@) + optional_register(command, value),
{
    match value {
        Some(v) => {
            let data = [v];
            assert(data@ =~= seq![v]);
            send_command_with_data(ops, command, &data);
        },
        None => {
            assert(ops_of(old(ops)@) + optional_register(command, value) =~= ops_of(old(ops)@));
        },
    }
}

/// A block register write (such as a waveform LUT upload) when one is configured.
pub open spec fn optional_block(command: u8, value: Option<&'static [u8]>) -> Seq<Op> {
    match value {
        Some(block) => cmd_data(command, block@),
        None => Seq::empty(),
    }
}

/// Plans a block register write when one is configured.
pub fn plan_optional_block(ops: &mut Vec<BusOp>, command: u8, value: Option<&'static [u8]>)
    ensures
        ops_of(final(ops)@) == ops_of(old(ops)@) + optional_block(command, value),
{
    match value {
        Some(block) => {
            send_command_with_data(ops, command, block);
        },
        None => {
            assert(ops_of(old(ops)@) + optional_block(command, value) =~= ops_of(old(ops)@));
        },
    }
}

} // verus!
