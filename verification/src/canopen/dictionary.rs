//! The object dictionary of a node, as a model: what it holds after a sequence
//! of writes.

use vstd::prelude::*;

use super::bytes::{le16, le32, wrap16, wrap32, wrap8};

verus! {

/// One write to an object dictionary.
#[verifier::ext_equal]
pub struct Write {
    pub index: u16,
    pub subindex: u8,
    pub data: Seq<u8>,
}

/// The contents of an object dictionary, by index and subindex.
pub type Dictionary = Map<(u16, u8), Seq<u8>>;

/// A write of one byte.
pub open spec fn write_u8(index: u16, subindex: u8, v: u8) -> Write {
    Write { index, subindex, data: seq![v] }
}

/// A write of two bytes.
pub open spec fn write_u16(index: u16, subindex: u8, v: u16) -> Write {
    Write { index, subindex, data: le16(v) }
}

/// A write of four bytes.
pub open spec fn write_u32(index: u16, subindex: u8, v: u32) -> Write {
    Write { index, subindex, data: le32(v) }
}

/// A write of a signed byte.
pub open spec fn write_i8(index: u16, subindex: u8, v: i8) -> Write {
    write_u8(index, subindex, wrap8(v))
}

/// A write of a signed 16-bit number.
pub open spec fn write_i16(index: u16, subindex: u8, v: i16) -> Write {
    write_u16(index, subindex, wrap16(v))
}

/// A write of a signed 32-bit number.
pub open spec fn write_i32(index: u16, subindex: u8, v: i32) -> Write {
    write_u32(index, subindex, wrap32(v))
}

impl Write {
    /// The entry that is written.
    pub open spec fn key(self) -> (u16, u8) {
        (self.index, self.subindex)
    }
}

/// What a dictionary holds after the writes.
pub open spec fn written(before: Dictionary, writes: Seq<Write>) -> Dictionary
    decreases writes.len(),
{
    if writes.len() == 0 {
        before
    } else {
        written(before, writes.drop_last()).insert(writes.last().key(), writes.last().data)
    }
}

/// An entry holds what the last write to it wrote.
pub proof fn last_write_stays(before: Dictionary, writes: Seq<Write>, at: int)
    requires
        0 <= at < writes.len(),
        forall|j: int|
            at < j < writes.len() ==> (#[trigger] writes[j]).key() != writes[at].key(),
    ensures
        written(before, writes).contains_key(writes[at].key()),
        written(before, writes)[writes[at].key()] == writes[at].data,
    decreases writes.len(),
{
    if at < writes.len() - 1 {
        let shorter = writes.drop_last();
        assert forall|j: int| at < j < shorter.len() implies (#[trigger] shorter[j]).key()
            != shorter[at].key() by {
            assert(shorter[j] == writes[j]);
        }
        last_write_stays(before, shorter, at);
        assert(writes[writes.len() - 1].key() != writes[at].key());
    }
}

/// Writes one after the other.
pub proof fn written_in_turn(before: Dictionary, first: Seq<Write>, second: Seq<Write>)
    ensures
        written(before, first + second) == written(written(before, first), second),
    decreases second.len(),
{
    if second.len() == 0 {
        assert(first + second =~= first);
    } else {
        assert((first + second).drop_last() =~= first + second.drop_last());
        written_in_turn(before, first, second.drop_last());
    }
}

/// An entry that is not written keeps what it holds.
pub proof fn unwritten_stays(before: Dictionary, writes: Seq<Write>, key: (u16, u8))
    requires
        forall|j: int| 0 <= j < writes.len() ==> (#[trigger] writes[j]).key() != key,
    ensures
        written(before, writes)[key] == before[key],
    decreases writes.len(),
{
    if writes.len() > 0 {
        let shorter = writes.drop_last();
        assert forall|j: int| 0 <= j < shorter.len() implies (#[trigger] shorter[j]).key()
            != key by {
            assert(shorter[j] == writes[j]);
        }
        unwritten_stays(before, shorter, key);
        assert(writes[writes.len() - 1].key() != key);
    }
}

/// A single write changes its own entry and no other.
pub proof fn write_changes_one_entry(before: Dictionary, w: Write, key: (u16, u8))
    ensures
        written(before, seq![w])[(w.index, w.subindex)] == w.data,
        key != (w.index, w.subindex) ==> written(before, seq![w])[key] == before[key],
        written(before, seq![]) == before,
{
    last_write_stays(before, seq![w], 0);
    if key != (w.index, w.subindex) {
        unwritten_stays(before, seq![w], key);
    }
}

/// What a write of a number puts into its entry, least significant byte first.
pub proof fn writes_carry_their_numbers(index: u16, sub: u8, a: u8, b: u16, c: u32)
    ensures
        write_u8(index, sub, a) == (Write { index, subindex: sub, data: seq![a] }),
        write_u16(index, sub, b).index == index,
        write_u16(index, sub, b).subindex == sub,
        write_u16(index, sub, b).data == seq![(b % 0x100) as u8, (b / 0x100) as u8],
        write_u32(index, sub, c).index == index,
        write_u32(index, sub, c).subindex == sub,
        write_u32(index, sub, c).data.len() == 4,
        forall|i: int|
            0 <= i < 4 ==> #[trigger] write_u32(index, sub, c).data[i] == (if i == 0 {
                c as int % 0x100
            } else if i == 1 {
                c as int / 0x100 % 0x100
            } else if i == 2 {
                c as int / 0x1_0000 % 0x100
            } else {
                c as int / 0x100_0000
            }),
{
}

/// Signed numbers are written in two's complement.
pub proof fn signed_writes_are_in_twos_complement(index: u16, sub: u8, a: i8, b: i16, c: i32)
    ensures
        write_i8(index, sub, a) == write_u8(
            index,
            sub,
            (if a < 0 {
                a + 0x100
            } else {
                a as int
            }) as u8,
        ),
        write_i16(index, sub, b) == write_u16(
            index,
            sub,
            (if b < 0 {
                b + 0x1_0000
            } else {
                b as int
            }) as u16,
        ),
        write_i32(index, sub, c) == write_u32(
            index,
            sub,
            (if c < 0 {
                c + 0x1_0000_0000
            } else {
                c as int
            }) as u32,
        ),
{
}

} // verus!
