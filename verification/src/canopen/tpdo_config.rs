//! Transmit PDOs: which writes configure one.
//!
//! Nothing is sent from here. The writes disable the PDO before they change
//! its mapping, so they may be made in any network management state.

use vstd::prelude::*;

use super::bytes::{i16_bits, i32_bits, i8_bits, le16, le32, u16_bytes, u32_bytes};
use super::dictionary::{
    last_write_stays, unwritten_stays, write_i16, write_i32, write_i8, write_u16, write_u32,
    write_u8, written, Dictionary, Write,
};
use crate::error::{Error, Result};
use crate::number::Real32;
use crate::text::{decimal, push_decimal};

verus! {

/// One object that is mapped into a PDO.
#[derive(Debug, Clone, Copy, PartialEq, Eq, Structural)]
pub struct TpdoEntry {
    pub index: u16,
    pub subindex: u8,
    pub bit_len: u8,
}

impl TpdoEntry {
    /// Index in bits 16 to 31, subindex in bits 8 to 15, length in bits 0 to 7.
    pub open spec fn code(self) -> u32 {
        (self.index * 0x1_0000 + self.subindex * 0x100 + self.bit_len) as u32
    }

    /// The number that stands for the entry in a mapping.
    pub fn packed(&self) -> (r: u32)
        ensures
            r == self.code(),
    {
        self.index as u32 * 0x1_0000 + self.subindex as u32 * 0x100 + self.bit_len as u32
    }
}

/// How many bits the entries take together.
pub open spec fn bits(entries: Seq<TpdoEntry>) -> nat
    decreases entries.len(),
{
    if entries.len() == 0 {
        0
    } else {
        bits(entries.drop_last()) + entries.last().bit_len as nat
    }
}

/// More entries take no fewer bits.
pub proof fn bits_grow(entries: Seq<TpdoEntry>, n: int)
    requires
        0 <= n <= entries.len(),
    ensures
        bits(entries.take(n)) <= bits(entries),
        bits(entries) <= 255 * entries.len(),
    decreases entries.len(),
{
    if entries.len() > 0 {
        let shorter = entries.drop_last();
        if n == entries.len() {
            assert(entries.take(n) =~= entries);
            bits_grow(shorter, shorter.len() as int);
        } else {
            bits_grow(shorter, n);
            assert(shorter.take(n) =~= entries.take(n));
        }
    } else {
        assert(entries.take(n) =~= entries);
    }
}

/// Adds up the bits of the entries.
pub(crate) fn sum_bits(entries: &Vec<TpdoEntry>) -> (r: usize)
    requires
        bits(entries@) <= usize::MAX,
    ensures
        r == bits(entries@),
{
    let mut sum: usize = 0;
    let mut i: usize = 0;
    while i < entries.len()
        invariant
            i <= entries@.len(),
            sum == bits(entries@.take(i as int)),
            bits(entries@) <= usize::MAX,
        decreases entries@.len() - i,
    {
        proof {
            assert(entries@.take(i + 1).drop_last() =~= entries@.take(i as int));
            bits_grow(entries@, i + 1);
        }
        sum = sum + entries[i].bit_len as usize;
        i = i + 1;
    }
    assert(entries@.take(i as int) =~= entries@);
    sum
}

/// The bytes that the entries take, the last one possibly in part.
pub open spec fn bytes_of(entries: Seq<TpdoEntry>) -> nat {
    (bits(entries) + 7) / 8
}

pub(crate) fn sum_bytes(entries: &Vec<TpdoEntry>) -> (r: usize)
    requires
        bits(entries@) <= usize::MAX,
    ensures
        r == bytes_of(entries@),
{
    let sum = sum_bits(entries);
    if sum % 8 == 0 {
        sum / 8
    } else {
        sum / 8 + 1
    }
}

/// The communication parameters of a transmit PDO (0x1800 and following).
#[derive(Debug, Clone, Copy, PartialEq, Eq, Structural)]
pub struct TpdoCommParams {
    /// Subindex 2; 255 for event-driven.
    pub transmission_type: u8,
    /// Subindex 3: the shortest distance between two frames, in 100 us.
    pub inhibit_time_x100us: u16,
    /// Subindex 5: the period in ms; 0 for none.
    pub event_timer_ms: u16,
}

/// The whole configuration of one transmit PDO.
#[derive(Debug)]
pub struct TpdoRecipe {
    /// 0 to 3, for the first to the fourth transmit PDO.
    pub tpdo_index: u8,
    /// The identifier, eleven bits; mostly `0x180 + 0x100 * tpdo_index + node_id`.
    pub cob_id: u16,
    pub entries: Vec<TpdoEntry>,
    pub comm: TpdoCommParams,
}

/// What is wrong with a mapping, if anything: a message for `Error::Internal`.
/// The first thing that is wrong counts.
pub open spec fn mapping_fault(
    entries: Seq<TpdoEntry>,
    pdo_index: u8,
    bad_index: Seq<char>,
    no_entries: Seq<char>,
    recipe: Seq<char>,
) -> Option<Seq<char>> {
    if pdo_index > 3 {
        Some(bad_index + decimal(pdo_index as nat) + ", must be 0..=3"@)
    } else if entries.len() == 0 {
        Some(no_entries)
    } else if entries.len() > 64 {
        Some("too many entries: "@ + decimal(entries.len()) + ", max 64"@)
    } else if bits(entries) > 512 {
        Some(recipe + decimal(bits(entries)) + " bits > 512 (CAN-FD max payload)"@)
    } else {
        None
    }
}

/// Checks the mapping and the identifier of a PDO.
pub(crate) fn check_mapping(
    entries: &Vec<TpdoEntry>,
    pdo_index: u8,
    cob_id: u16,
    bad_index: &str,
    no_entries: &str,
    recipe: &str,
) -> (r: Result<()>)
    ensures
        match mapping_fault(entries@, pdo_index, bad_index@, no_entries@, recipe@) {
            Some(text) => r matches Err(e) && e.says(text),
            None => if cob_id > 0x7FF {
                r == Err::<(), Error>(
                    Error::InvalidCobId { cob_id, reason: "exceeds 11-bit range" },
                )
            } else {
                r is Ok
            },
        },
{
    if pdo_index > 3 {
        let mut text = bad_index.to_owned();
        push_decimal(&mut text, pdo_index as u64);
        text.append(", must be 0..=3");
        return Err(Error::Internal(text));
    }
    if entries.len() == 0 {
        return Err(Error::Internal(no_entries.to_owned()));
    }
    if entries.len() > 64 {
        let mut text = "too many entries: ".to_owned();
        push_decimal(&mut text, entries.len() as u64);
        text.append(", max 64");
        return Err(Error::Internal(text));
    }
    proof {
        bits_grow(entries@, 0);
    }
    let total_bits = sum_bits(entries);
    if total_bits > 512 {
        let mut text = recipe.to_owned();
        push_decimal(&mut text, total_bits as u64);
        text.append(" bits > 512 (CAN-FD max payload)");
        return Err(Error::Internal(text));
    }
    if cob_id > 0x7FF {
        return Err(Error::InvalidCobId { cob_id, reason: "exceeds 11-bit range" });
    }
    Ok(())
}

impl TpdoRecipe {
    /// There is such a PDO, the identifier has eleven bits, and the mapping
    /// has 1 to 64 entries that fit into a frame.
    pub open spec fn valid(self) -> bool {
        &&& self.tpdo_index <= 3
        &&& 1 <= self.entries@.len() <= 64
        &&& bits(self.entries@) <= 512
        &&& self.cob_id <= 0x7FF
    }

    /// What is wrong with the mapping, if anything.
    pub open spec fn fault(self) -> Option<Seq<char>> {
        mapping_fault(
            self.entries@,
            self.tpdo_index,
            "invalid tpdo_index "@,
            "TpdoRecipe has no entries"@,
            "TpdoRecipe total "@,
        )
    }

    /// The error that the recipe is refused with.
    pub open spec fn refused_with(self, e: Error) -> bool {
        match self.fault() {
            Some(text) => e.says(text),
            None => e == (Error::InvalidCobId {
                cob_id: self.cob_id,
                reason: "exceeds 11-bit range",
            }),
        }
    }

    /// Checks the recipe.
    pub fn validate(&self) -> (r: Result<()>)
        ensures
            match r {
                Ok(()) => self.valid(),
                Err(e) => !self.valid() && self.refused_with(e),
            },
    {
        check_mapping(
            &self.entries,
            self.tpdo_index,
            self.cob_id,
            "invalid tpdo_index ",
            "TpdoRecipe has no entries",
            "TpdoRecipe total ",
        )
    }

    /// The length of the frame in bytes.
    pub fn total_bytes(&self) -> (r: usize)
        requires
            bits(self.entries@) <= usize::MAX,
        ensures
            r == bytes_of(self.entries@),
    {
        sum_bytes(&self.entries)
    }
}

/// One write to the object dictionary of a node.
#[derive(Debug, PartialEq, Eq)]
pub struct SdoWrite {
    pub index: u16,
    pub subindex: u8,
    pub data: Vec<u8>,
}

impl View for SdoWrite {
    type V = Write;

    open spec fn view(&self) -> Write {
        Write { index: self.index, subindex: self.subindex, data: self.data@ }
    }
}

/// The writes of a sequence, as values.
pub open spec fn views(writes: Seq<SdoWrite>) -> Seq<Write> {
    writes.map_values(|w: SdoWrite| w@)
}

/// The views of a longer sequence.
pub proof fn views_push(writes: Seq<SdoWrite>, w: SdoWrite)
    ensures
        views(writes.push(w)) == views(writes).push(w@),
{
    assert(views(writes.push(w)) =~= views(writes).push(w@));
}

impl SdoWrite {
    /// A write of one byte.
    pub fn u8(index: u16, sub: u8, v: u8) -> (r: Self)
        ensures
            r@ == write_u8(index, sub, v),
    {
        let r = SdoWrite { index, subindex: sub, data: vec![v] };
        assert(r.data@ =~= seq![v]);
        r
    }

    /// A write of two bytes.
    pub fn u16(index: u16, sub: u8, v: u16) -> (r: Self)
        ensures
            r@ == write_u16(index, sub, v),
    {
        SdoWrite { index, subindex: sub, data: u16_bytes(v) }
    }

    /// A write of four bytes.
    pub fn u32(index: u16, sub: u8, v: u32) -> (r: Self)
        ensures
            r@ == write_u32(index, sub, v),
    {
        SdoWrite { index, subindex: sub, data: u32_bytes(v) }
    }

    /// A write of a signed byte.
    pub fn i8(index: u16, sub: u8, v: i8) -> (r: Self)
        ensures
            r@ == write_i8(index, sub, v),
    {
        SdoWrite::u8(index, sub, i8_bits(v))
    }

    /// A write of a signed 16-bit number.
    pub fn i16(index: u16, sub: u8, v: i16) -> (r: Self)
        ensures
            r@ == write_i16(index, sub, v),
    {
        SdoWrite::u16(index, sub, i16_bits(v))
    }

    /// A write of a signed 32-bit number.
    pub fn i32(index: u16, sub: u8, v: i32) -> (r: Self)
        ensures
            r@ == write_i32(index, sub, v),
    {
        SdoWrite::u32(index, sub, i32_bits(v))
    }

    /// A write of a single-precision number.
    pub fn real32(index: u16, sub: u8, v: Real32) -> (r: Self)
        ensures
            r@ == write_u32(index, sub, v.bits),
    {
        SdoWrite::u32(index, sub, v.bits)
    }
}

impl Clone for SdoWrite {
    fn clone(&self) -> (r: Self)
        ensures
            r@ == self@,
    {
        SdoWrite { index: self.index, subindex: self.subindex, data: self.data.clone() }
    }
}

/// The flags of a COB-ID entry: bit 31 says that the PDO is off, bit 30 that
/// it answers no remote requests. The motors accept a transmit PDO only with
/// bit 30 set.
pub const TPDO_COB_DISABLE_BITS: u32 = 0xC000_0000;

/// The flags of a transmit PDO that is on.
pub const TPDO_COB_ENABLE_BITS: u32 = 0x4000_0000;

/// The writes of the mapping entries, from subindex 1 on.
pub open spec fn entry_writes(map_index: u16, entries: Seq<TpdoEntry>) -> Seq<Write> {
    Seq::new(
        entries.len(),
        |i: int| write_u32(map_index, (i + 1) as u8, entries[i].code()),
    )
}

/// Appends the writes of the mapping entries.
pub(crate) fn push_entry_writes(
    writes: &mut Vec<SdoWrite>,
    map_index: u16,
    entries: &Vec<TpdoEntry>,
)
    requires
        entries@.len() <= 64,
    ensures
        views(final(writes)@) == views(old(writes)@) + entry_writes(map_index, entries@),
{
    let mut i: usize = 0;
    assert(views(writes@) =~= views(old(writes)@) + entry_writes(map_index, entries@.take(0)));
    while i < entries.len()
        invariant
            i <= entries@.len() <= 64,
            views(writes@) == views(old(writes)@) + entry_writes(map_index, entries@.take(i as int)),
        decreases entries@.len() - i,
    {
        let ghost before = writes@;
        let w = SdoWrite::u32(map_index, (i + 1) as u8, entries[i].packed());
        writes.push(w);
        proof {
            views_push(before, w);
            assert(entry_writes(map_index, entries@.take(i + 1)) =~= entry_writes(
                map_index,
                entries@.take(i as int),
            ).push(w@));
            assert(views(writes@) =~= views(old(writes)@) + entry_writes(
                map_index,
                entries@.take(i + 1),
            ));
        }
        i = i + 1;
    }
    assert(entries@.take(i as int) =~= entries@);
}

/// The writes that configure a transmit PDO: off, mapping emptied, mapping
/// entries, number of entries, communication parameters, on.
pub open spec fn tpdo_sequence(
    tpdo_index: u8,
    cob_id: u16,
    entries: Seq<TpdoEntry>,
    params: TpdoCommParams,
) -> Seq<Write> {
    let comm = (0x1800 + tpdo_index) as u16;
    let map = (0x1A00 + tpdo_index) as u16;
    seq![
        write_u32(comm, 1, (TPDO_COB_DISABLE_BITS + cob_id) as u32),
        write_u8(map, 0, 0),
    ] + entry_writes(map, entries) + seq![
        write_u8(map, 0, entries.len() as u8),
        write_u8(comm, 2, params.transmission_type),
        write_u16(comm, 3, params.inhibit_time_x100us),
        write_u16(comm, 5, params.event_timer_ms),
        write_u32(comm, 1, (TPDO_COB_ENABLE_BITS + cob_id) as u32),
    ]
}

/// The writes of a recipe.
pub open spec fn tpdo_writes(recipe: TpdoRecipe) -> Seq<Write> {
    tpdo_sequence(recipe.tpdo_index, recipe.cob_id, recipe.entries@, recipe.comm)
}

/// The writes that configure a transmit PDO, in order.
pub fn build_tpdo_config_writes(recipe: &TpdoRecipe) -> (r: Result<Vec<SdoWrite>>)
    ensures
        match r {
            Ok(w) => recipe.valid() && views(w@) == tpdo_writes(*recipe),
            Err(e) => !recipe.valid() && recipe.refused_with(e),
        },
{
    match recipe.validate() {
        Ok(()) => {},
        Err(e) => {
            return Err(e);
        },
    }
    let comm_index: u16 = 0x1800 + recipe.tpdo_index as u16;
    let map_index: u16 = 0x1A00 + recipe.tpdo_index as u16;
    let cob_id: u32 = recipe.cob_id as u32;
    let mut writes: Vec<SdoWrite> = Vec::with_capacity(7 + recipe.entries.len());
    writes.push(SdoWrite::u32(comm_index, 1, TPDO_COB_DISABLE_BITS + cob_id));
    writes.push(SdoWrite::u8(map_index, 0, 0));
    assert(views(writes@) =~= seq![
        write_u32(comm_index, 1, (TPDO_COB_DISABLE_BITS + recipe.cob_id) as u32),
        write_u8(map_index, 0, 0),
    ]);
    push_entry_writes(&mut writes, map_index, &recipe.entries);
    let ghost mapped = views(writes@);
    writes.push(SdoWrite::u8(map_index, 0, recipe.entries.len() as u8));
    writes.push(SdoWrite::u8(comm_index, 2, recipe.comm.transmission_type));
    writes.push(SdoWrite::u16(comm_index, 3, recipe.comm.inhibit_time_x100us));
    writes.push(SdoWrite::u16(comm_index, 5, recipe.comm.event_timer_ms));
    writes.push(SdoWrite::u32(comm_index, 1, TPDO_COB_ENABLE_BITS + cob_id));
    assert(views(writes@).take(mapped.len() as int) =~= mapped);
    assert(views(writes@) =~= tpdo_writes(*recipe));
    Ok(writes)
}

/// A node holds this configuration of a transmit PDO, and it is on.
pub open spec fn holds_tpdo(
    od: Dictionary,
    tpdo_index: u8,
    cob_id: u16,
    entries: Seq<TpdoEntry>,
    params: TpdoCommParams,
) -> bool {
    let comm = (0x1800 + tpdo_index) as u16;
    let map = (0x1A00 + tpdo_index) as u16;
    &&& od[(comm, 1u8)] == write_u32(comm, 1, (TPDO_COB_ENABLE_BITS + cob_id) as u32).data
    &&& od[(comm, 2u8)] == seq![params.transmission_type]
    &&& od[(comm, 3u8)] == write_u16(comm, 3, params.inhibit_time_x100us).data
    &&& od[(comm, 5u8)] == write_u16(comm, 5, params.event_timer_ms).data
    &&& od[(map, 0u8)] == seq![entries.len() as u8]
    &&& forall|i: int|
        0 <= i < entries.len() ==> od[(map, (i + 1) as u8)] == write_u32(
            map,
            (i + 1) as u8,
            (#[trigger] entries[i]).code(),
        ).data
}

/// Whatever a node held before: after the writes it holds the configuration.
pub proof fn tpdo_is_configured(
    before: Dictionary,
    tpdo_index: u8,
    cob_id: u16,
    entries: Seq<TpdoEntry>,
    params: TpdoCommParams,
)
    requires
        tpdo_index <= 3,
        entries.len() <= 64,
    ensures
        holds_tpdo(
            written(before, tpdo_sequence(tpdo_index, cob_id, entries, params)),
            tpdo_index,
            cob_id,
            entries,
            params,
        ),
{
    let map = (0x1A00 + tpdo_index) as u16;
    let n = entries.len() as int;
    let w = tpdo_sequence(tpdo_index, cob_id, entries, params);
    assert(w.len() == n + 7);
    last_write_stays(before, w, n + 6);
    last_write_stays(before, w, n + 5);
    last_write_stays(before, w, n + 4);
    last_write_stays(before, w, n + 3);
    last_write_stays(before, w, n + 2);
    assert forall|i: int| 0 <= i < n implies written(before, w)[(map, (i + 1) as u8)] == write_u32(
        map,
        (i + 1) as u8,
        (#[trigger] entries[i]).code(),
    ).data by {
        assert(w[i + 2] == entry_writes(map, entries)[i]);
        assert forall|j: int| i + 2 < j < w.len() implies (#[trigger] w[j]).key() != w[i
            + 2].key() by {
            if j < n + 2 {
                assert(w[j] == entry_writes(map, entries)[j - 2]);
            }
        }
        last_write_stays(before, w, i + 2);
    }
}

/// The PDO is off from the first write up to the last, which turns it on, and
/// its mapping counts as empty while mapping entries are written.
pub proof fn tpdo_is_off_while_it_changes(before: Dictionary, recipe: TpdoRecipe, done: int)
    requires
        recipe.valid(),
        1 <= done < tpdo_writes(recipe).len(),
    ensures
        ({
            let comm = (0x1800 + recipe.tpdo_index) as u16;
            let map = (0x1A00 + recipe.tpdo_index) as u16;
            let now = written(before, tpdo_writes(recipe).take(done));
            let next = tpdo_writes(recipe)[done];
            &&& now[(comm, 1u8)] == write_u32(
                comm,
                1,
                (TPDO_COB_DISABLE_BITS + recipe.cob_id) as u32,
            ).data
            &&& next.index == map && next.subindex != 0 ==> now[(map, 0u8)] == seq![0u8]
        }),
{
    let map = (0x1A00 + recipe.tpdo_index) as u16;
    let n = recipe.entries@.len() as int;
    let w = tpdo_writes(recipe);
    assert(w.len() == n + 7);
    assert forall|j: int| 2 <= j < n + 2 implies (#[trigger] w[j]) == entry_writes(
        map,
        recipe.entries@,
    )[j - 2] by {}
    last_write_stays(before, w.take(done), 0);
    if w[done].index == map && w[done].subindex != 0 {
        last_write_stays(before, w.take(done), 1);
    }
}

/// An entry can be told from its packed form.
pub proof fn packed_is_faithful(a: TpdoEntry, b: TpdoEntry)
    requires
        a.code() == b.code(),
    ensures
        a == b,
{
}

/// The parts of a mapping entry can be read off its packed form: the index in
/// the upper half, the subindex and the length in the two bytes below.
pub proof fn packed_is_read_back(e: TpdoEntry)
    ensures
        e.code() as int / 0x1_0000 == e.index,
        e.code() as int / 0x100 % 0x100 == e.subindex,
        e.code() as int % 0x100 == e.bit_len,
{
}

/// The length of a mapping is the sum over its entries, however it is split;
/// in bytes it is rounded up.
pub proof fn lengths_add_up(first: Seq<TpdoEntry>, second: Seq<TpdoEntry>, e: TpdoEntry)
    ensures
        bits(seq![]) == 0,
        bits(seq![e]) == e.bit_len,
        bits(first + second) == bits(first) + bits(second),
        8 * bytes_of(first) >= bits(first),
        8 * bytes_of(first) < bits(first) + 8,
    decreases second.len(),
{
    assert(seq![e].drop_last() =~= seq![]);
    if second.len() == 0 {
        assert(first + second =~= first);
    } else {
        assert((first + second).drop_last() =~= first + second.drop_last());
        lengths_add_up(first, second.drop_last(), e);
    }
}

/// Which recipes are accepted: one of the four PDOs, an identifier of eleven
/// bits, and 1 to 64 entries that fit into the 64 bytes of a frame. Of those
/// that are not, only the identifier is named where nothing else is wrong.
pub proof fn accepted_recipes(recipe: TpdoRecipe)
    ensures
        recipe.valid() <==> recipe.tpdo_index < 4 && 0 < recipe.entries@.len() < 65
            && bytes_of(recipe.entries@) <= 64 && recipe.cob_id < 0x800,
        recipe.fault() is None <==> recipe.tpdo_index < 4 && 0 < recipe.entries@.len() < 65
            && bytes_of(recipe.entries@) <= 64,
        recipe.valid() <==> recipe.fault() is None && recipe.cob_id < 0x800,
{
}

/// What the object dictionary of a motor holds after the writes of a transmit
/// PDO, whatever it held before: at 0x1800 the identifier with the flag that
/// the motors ask for, the type, the two times; at 0x1A00 the number of entries
/// and the entries in order. Nothing else is touched.
pub proof fn tpdo_entries_after_the_writes(
    before: Dictionary,
    tpdo_index: u8,
    cob_id: u16,
    entries: Seq<TpdoEntry>,
    params: TpdoCommParams,
)
    requires
        tpdo_index <= 3,
        entries.len() <= 64,
        cob_id <= 0x7FF,
    ensures
        ({
            let after = written(before, tpdo_sequence(tpdo_index, cob_id, entries, params));
            let comm = (0x1800 + tpdo_index) as u16;
            let map = (0x1A00 + tpdo_index) as u16;
            &&& after[(comm, 1u8)] == le32((0x4000_0000 + cob_id) as u32)
            &&& after[(comm, 2u8)] == seq![params.transmission_type]
            &&& after[(comm, 3u8)] == le16(params.inhibit_time_x100us)
            &&& after[(comm, 5u8)] == le16(params.event_timer_ms)
            &&& after[(map, 0u8)] == seq![entries.len() as u8]
            &&& forall|i: int|
                0 <= i < entries.len() ==> after[(map, (i + 1) as u8)] == le32(
                    ((#[trigger] entries[i]).index * 0x1_0000 + entries[i].subindex * 0x100
                        + entries[i].bit_len) as u32,
                )
            &&& forall|key: (u16, u8)|
                !(key.0 == comm && (key.1 == 1 || key.1 == 2 || key.1 == 3 || key.1 == 5)) && !(
                key.0 == map && key.1 <= entries.len()) ==> #[trigger] after[key] == before[key]
        }),
{
    let comm = (0x1800 + tpdo_index) as u16;
    let map = (0x1A00 + tpdo_index) as u16;
    let w = tpdo_sequence(tpdo_index, cob_id, entries, params);
    let after = written(before, w);
    let n = entries.len() as int;
    tpdo_is_configured(before, tpdo_index, cob_id, entries, params);
    assert forall|key: (u16, u8)|
        !(key.0 == comm && (key.1 == 1 || key.1 == 2 || key.1 == 3 || key.1 == 5)) && !(key.0 == map
            && key.1 <= entries.len()) implies #[trigger] after[key] == before[key] by {
        assert forall|j: int| 0 <= j < w.len() implies (#[trigger] w[j]).key() != key by {
            if 2 <= j < n + 2 {
                assert(w[j] == entry_writes(map, entries)[j - 2]);
            }
        }
        unwritten_stays(before, w, key);
    }
}

/// The first write turns a transmit PDO off (bit 31), and the last turns it on
/// again with nothing else changed but that bit.
pub proof fn tpdo_is_turned_off_and_on(
    tpdo_index: u8,
    cob_id: u16,
    entries: Seq<TpdoEntry>,
    params: TpdoCommParams,
)
    requires
        tpdo_index <= 3,
        cob_id <= 0x7FF,
    ensures
        ({
            let w = tpdo_sequence(tpdo_index, cob_id, entries, params);
            let comm = (0x1800 + tpdo_index) as u16;
            &&& w[0] == (Write {
                index: comm,
                subindex: 1,
                data: le32((0x8000_0000 + 0x4000_0000 + cob_id) as u32),
            })
            &&& w.last() == (Write {
                index: comm,
                subindex: 1,
                data: le32((0x4000_0000 + cob_id) as u32),
            })
            &&& forall|j: int|
                0 < j < w.len() - 1 ==> !((#[trigger] w[j]).index == comm && w[j].subindex == 1)
        }),
{
    let map = (0x1A00 + tpdo_index) as u16;
    let w = tpdo_sequence(tpdo_index, cob_id, entries, params);
    let n = entries.len() as int;
    assert forall|j: int| 2 <= j < n + 2 implies (#[trigger] w[j]).index == map by {
        assert(w[j] == entry_writes(map, entries)[j - 2]);
    }
}

/// What a refused mapping is answered, in words, for either direction: the
/// number of the PDO before the number of entries, that before their length.
pub proof fn refused_mappings(
    entries: Seq<TpdoEntry>,
    pdo_index: u8,
    bad_index: Seq<char>,
    no_entries: Seq<char>,
    recipe: Seq<char>,
)
    ensures
        ({
            let fault = mapping_fault(entries, pdo_index, bad_index, no_entries, recipe);
            let n = entries.len();
            &&& pdo_index >= 4 ==> fault == Some(
                bad_index + decimal(pdo_index as nat) + ", must be 0..=3"@,
            )
            &&& pdo_index < 4 && n == 0 ==> fault == Some(no_entries)
            &&& pdo_index < 4 && n >= 65 ==> fault == Some(
                "too many entries: "@ + decimal(n) + ", max 64"@,
            )
            &&& pdo_index < 4 && 0 < n < 65 && bits(entries) >= 513 ==> fault == Some(
                recipe + decimal(bits(entries)) + " bits > 512 (CAN-FD max payload)"@,
            )
            &&& pdo_index < 4 && 0 < n < 65 && bits(entries) <= 8 * 64 ==> fault is None
        }),
{
}

/// A refused transmit PDO is answered with what is wrong with its mapping, and
/// with its identifier where nothing is.
pub proof fn refused_recipes(recipe: TpdoRecipe, e: Error)
    requires
        !recipe.valid(),
        recipe.refused_with(e),
    ensures
        recipe.tpdo_index >= 4 ==> e.says(
            "invalid tpdo_index "@ + decimal(recipe.tpdo_index as nat) + ", must be 0..=3"@,
        ),
        recipe.tpdo_index < 4 && recipe.entries@.len() == 0 ==> e.says(
            "TpdoRecipe has no entries"@,
        ),
        recipe.tpdo_index < 4 && 0 < recipe.entries@.len() < 65 && bits(recipe.entries@) > 512
            ==> e.says(
            "TpdoRecipe total "@ + decimal(bits(recipe.entries@))
                + " bits > 512 (CAN-FD max payload)"@,
        ),
        recipe.tpdo_index < 4 && 0 < recipe.entries@.len() < 65 && bits(recipe.entries@) <= 512
            ==> (e matches Error::InvalidCobId { cob_id, reason } && cob_id == recipe.cob_id && cob_id
            > 0x7FF && reason@ == "exceeds 11-bit range"@),
{
}

/// A write stands for what it holds: its index, its subindex, its bytes; and a
/// list of writes for each of them in turn.
pub proof fn writes_stand_for_what_they_hold(w: SdoWrite, all: Seq<SdoWrite>, i: int)
    requires
        0 <= i < all.len(),
    ensures
        w@.index == w.index,
        w@.subindex == w.subindex,
        w@.data == w.data@,
        views(all).len() == all.len(),
        views(all)[i] == all[i]@,
{
}

/// What a motor holds after the writes of a recipe comes from that recipe: its
/// identifier, its three parameters and its entries, at the index of its PDO.
pub proof fn recipe_is_configured(before: Dictionary, recipe: TpdoRecipe)
    requires
        recipe.valid(),
    ensures
        ({
            let after = written(before, tpdo_writes(recipe));
            let comm = (0x1800 + recipe.tpdo_index) as u16;
            let map = (0x1A00 + recipe.tpdo_index) as u16;
            &&& after[(comm, 1u8)] == le32((0x4000_0000 + recipe.cob_id) as u32)
            &&& after[(comm, 2u8)] == seq![recipe.comm.transmission_type]
            &&& after[(comm, 3u8)] == le16(recipe.comm.inhibit_time_x100us)
            &&& after[(comm, 5u8)] == le16(recipe.comm.event_timer_ms)
            &&& after[(map, 0u8)] == seq![recipe.entries@.len() as u8]
            &&& forall|i: int|
                0 <= i < recipe.entries@.len() ==> after[(map, (i + 1) as u8)] == le32(
                    ((#[trigger] recipe.entries@[i]).index * 0x1_0000 + recipe.entries@[i].subindex
                        * 0x100 + recipe.entries@[i].bit_len) as u32,
                )
        }),
{
    tpdo_entries_after_the_writes(
        before,
        recipe.tpdo_index,
        recipe.cob_id,
        recipe.entries@,
        recipe.comm,
    );
}

/// The mapping is emptied before its entries change, and counts them only when
/// all of them stand.
pub proof fn mapping_is_emptied_first(
    tpdo_index: u8,
    cob_id: u16,
    entries: Seq<TpdoEntry>,
    params: TpdoCommParams,
)
    requires
        tpdo_index <= 3,
        entries.len() <= 64,
    ensures
        ({
            let w = tpdo_sequence(tpdo_index, cob_id, entries, params);
            let map = (0x1A00 + tpdo_index) as u16;
            let n = entries.len() as int;
            &&& w.len() == n + 7
            &&& w[1] == (Write { index: map, subindex: 0, data: seq![0u8] })
            &&& forall|i: int|
                0 <= i < n ==> (#[trigger] w[i + 2]).index == map && w[i + 2].subindex == i + 1
            &&& w[n + 2] == (Write { index: map, subindex: 0, data: seq![n as u8] })
        }),
{
    let w = tpdo_sequence(tpdo_index, cob_id, entries, params);
    let map = (0x1A00 + tpdo_index) as u16;
    assert forall|i: int| 0 <= i < entries.len() implies (#[trigger] w[i + 2]).index == map && w[i
        + 2].subindex == i + 1 by {
        assert(w[i + 2] == entry_writes(map, entries)[i]);
    }
}

} // verus!
