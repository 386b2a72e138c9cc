//! Receive PDOs: which writes configure one.
//!
//! Several nodes may be told to listen to the same frame, each with a mapping
//! of the few bytes that are meant for it; the other bytes are mapped to an
//! object that takes them and ignores them.

use vstd::prelude::*;

use super::bytes::le32;
use super::dictionary::{
    last_write_stays, unwritten_stays, write_u32, write_u8, written, Dictionary, Write,
};
use super::tpdo_config::{
    bits, bytes_of, check_mapping, entry_writes, mapping_fault, push_entry_writes, sum_bytes, views,
    SdoWrite, TpdoEntry,
};
use crate::error::{Error, Result};
use crate::text::decimal;

verus! {

/// The whole configuration of one receive PDO.
#[derive(Debug)]
pub struct RpdoRecipe {
    /// 0 to 3, for the first to the fourth receive PDO.
    pub rpdo_index: u8,
    /// The identifier, eleven bits; mostly `0x200 + 0x100 * rpdo_index + node_id`,
    /// and the same for all nodes that share a frame.
    pub cob_id: u16,
    pub entries: Vec<TpdoEntry>,
    /// Subindex 2 of 0x1400; 255 takes a frame as soon as it comes.
    pub transmission_type: u8,
}

/// The error that a receive PDO is refused with: the first thing that is wrong
/// with its mapping, or else its identifier.
pub open spec fn rpdo_refused_with(
    rpdo_index: u8,
    cob_id: u16,
    entries: Seq<TpdoEntry>,
    e: Error,
) -> bool {
    match mapping_fault(
        entries,
        rpdo_index,
        "invalid rpdo_index "@,
        "RpdoRecipe has no entries"@,
        "RpdoRecipe total "@,
    ) {
        Some(text) => e.says(text),
        None => e == (Error::InvalidCobId { cob_id, reason: "exceeds 11-bit range" }),
    }
}

impl RpdoRecipe {
    /// There is such a PDO, the identifier has eleven bits, and the mapping
    /// has 1 to 64 entries that fit into a frame.
    pub open spec fn valid(self) -> bool {
        &&& self.rpdo_index <= 3
        &&& 1 <= self.entries@.len() <= 64
        &&& bits(self.entries@) <= 512
        &&& self.cob_id <= 0x7FF
    }

    /// The error that the recipe is refused with.
    pub open spec fn refused_with(self, e: Error) -> bool {
        rpdo_refused_with(self.rpdo_index, self.cob_id, self.entries@, e)
    }

    /// Checks the recipe.
    pub fn validate(&self) -> (r: Result<()>)
        ensures
            match r {
                Ok(()) => self.valid(),
                Err(e) => !self.valid() && self.refused_with(e),
            },
    {
        check_mapping(
            &self.entries,
            self.rpdo_index,
            self.cob_id,
            "invalid rpdo_index ",
            "RpdoRecipe has no entries",
            "RpdoRecipe total ",
        )
    }

    /// The length of the frame in bytes.
    pub fn total_bytes(&self) -> (r: usize)
        requires
            bits(self.entries@) <= usize::MAX,
        ensures
            r == bytes_of(self.entries@),
    {
        sum_bytes(&self.entries)
    }
}

/// Bit 31 of a COB-ID entry: the PDO is off. A receive PDO needs no other
/// flag.
pub const RPDO_COB_DISABLE_BIT: u32 = 0x8000_0000;

/// The writes that configure a receive PDO: off, transmission type, mapping
/// emptied, mapping entries, number of entries, on.
pub open spec fn rpdo_sequence(
    rpdo_index: u8,
    cob_id: u16,
    entries: Seq<TpdoEntry>,
    transmission_type: u8,
) -> Seq<Write> {
    let comm = (0x1400 + rpdo_index) as u16;
    let map = (0x1600 + rpdo_index) as u16;
    seq![
        write_u32(comm, 1, (RPDO_COB_DISABLE_BIT + cob_id) as u32),
        write_u8(comm, 2, transmission_type),
        write_u8(map, 0, 0),
    ] + entry_writes(map, entries) + seq![
        write_u8(map, 0, entries.len() as u8),
        write_u32(comm, 1, cob_id as u32),
    ]
}

/// The writes of a recipe.
pub open spec fn rpdo_writes(recipe: RpdoRecipe) -> Seq<Write> {
    rpdo_sequence(recipe.rpdo_index, recipe.cob_id, recipe.entries@, recipe.transmission_type)
}

/// The writes that configure a receive PDO, in order.
pub fn build_rpdo_config_writes(recipe: &RpdoRecipe) -> (r: Result<Vec<SdoWrite>>)
    ensures
        match r {
            Ok(w) => recipe.valid() && views(w@) == rpdo_writes(*recipe),
            Err(e) => !recipe.valid() && recipe.refused_with(e),
        },
{
    match recipe.validate() {
        Ok(()) => {},
        Err(e) => {
            return Err(e);
        },
    }
    let comm_index: u16 = 0x1400 + recipe.rpdo_index as u16;
    let map_index: u16 = 0x1600 + recipe.rpdo_index as u16;
    let cob_id: u32 = recipe.cob_id as u32;
    let mut writes: Vec<SdoWrite> = Vec::with_capacity(5 + recipe.entries.len());
    writes.push(SdoWrite::u32(comm_index, 1, RPDO_COB_DISABLE_BIT + cob_id));
    writes.push(SdoWrite::u8(comm_index, 2, recipe.transmission_type));
    writes.push(SdoWrite::u8(map_index, 0, 0));
    assert(views(writes@) =~= seq![
        write_u32(comm_index, 1, (RPDO_COB_DISABLE_BIT + recipe.cob_id) as u32),
        write_u8(comm_index, 2, recipe.transmission_type),
        write_u8(map_index, 0, 0),
    ]);
    push_entry_writes(&mut writes, map_index, &recipe.entries);
    let ghost mapped = views(writes@);
    writes.push(SdoWrite::u8(map_index, 0, recipe.entries.len() as u8));
    writes.push(SdoWrite::u32(comm_index, 1, cob_id));
    assert(views(writes@).take(mapped.len() as int) =~= mapped);
    assert(views(writes@) =~= rpdo_writes(*recipe));
    Ok(writes)
}

/// Whatever a node held before: after the writes it holds the configuration.
pub proof fn rpdo_is_configured(before: Dictionary, recipe: RpdoRecipe)
    requires
        recipe.valid(),
    ensures
        ({
            let comm = (0x1400 + recipe.rpdo_index) as u16;
            let map = (0x1600 + recipe.rpdo_index) as u16;
            let n = recipe.entries@.len();
            let after = written(before, rpdo_writes(recipe));
            &&& after[(comm, 1u8)] == write_u32(comm, 1, recipe.cob_id as u32).data
            &&& after[(comm, 2u8)] == seq![recipe.transmission_type]
            &&& after[(map, 0u8)] == seq![n as u8]
            &&& forall|i: int|
                0 <= i < n ==> after[(map, (i + 1) as u8)] == write_u32(
                    map,
                    (i + 1) as u8,
                    (#[trigger] recipe.entries@[i]).code(),
                ).data
        }),
{
    let map = (0x1600 + recipe.rpdo_index) as u16;
    let n = recipe.entries@.len() as int;
    let w = rpdo_writes(recipe);
    assert(w.len() == n + 5);
    last_write_stays(before, w, n + 4);
    last_write_stays(before, w, n + 3);
    assert forall|j: int| 3 <= j < n + 3 implies (#[trigger] w[j]) == entry_writes(
        map,
        recipe.entries@,
    )[j - 3] by {}
    last_write_stays(before, w, 1);
    assert forall|i: int| 0 <= i < n implies written(before, w)[(map, (i + 1) as u8)] == write_u32(
        map,
        (i + 1) as u8,
        (#[trigger] recipe.entries@[i]).code(),
    ).data by {
        assert(w[i + 3] == entry_writes(map, recipe.entries@)[i]);
        last_write_stays(before, w, i + 3);
    }
}

/// The PDO is off from the first write up to the last, which turns it on, and
/// its mapping counts as empty while mapping entries are written.
pub proof fn rpdo_is_off_while_it_changes(before: Dictionary, recipe: RpdoRecipe, done: int)
    requires
        recipe.valid(),
        1 <= done < rpdo_writes(recipe).len(),
    ensures
        ({
            let comm = (0x1400 + recipe.rpdo_index) as u16;
            let map = (0x1600 + recipe.rpdo_index) as u16;
            let now = written(before, rpdo_writes(recipe).take(done));
            let next = rpdo_writes(recipe)[done];
            &&& now[(comm, 1u8)] == write_u32(
                comm,
                1,
                (RPDO_COB_DISABLE_BIT + recipe.cob_id) as u32,
            ).data
            &&& next.index == map && next.subindex != 0 ==> now[(map, 0u8)] == seq![0u8]
        }),
{
    let map = (0x1600 + recipe.rpdo_index) as u16;
    let n = recipe.entries@.len() as int;
    let w = rpdo_writes(recipe);
    assert(w.len() == n + 5);
    assert forall|j: int| 3 <= j < n + 3 implies (#[trigger] w[j]) == entry_writes(
        map,
        recipe.entries@,
    )[j - 3] by {}
    last_write_stays(before, w.take(done), 0);
    if w[done].index == map && w[done].subindex != 0 {
        last_write_stays(before, w.take(done), 2);
    }
}

/// Which recipes are accepted: one of the four PDOs, an identifier of eleven
/// bits, and 1 to 64 entries that fit into the 64 bytes of a frame.
pub proof fn accepted_rpdo_recipes(recipe: RpdoRecipe)
    ensures
        recipe.valid() <==> recipe.rpdo_index < 4 && 0 < recipe.entries@.len() < 65
            && bytes_of(recipe.entries@) <= 64 && recipe.cob_id < 0x800,
{
}

/// What the object dictionary of a motor holds after the writes of a receive
/// PDO, whatever it held before: at 0x1400 the bare identifier and the type, at
/// 0x1600 the number of entries and the entries in order. Nothing else is
/// touched.
pub proof fn rpdo_entries_after_the_writes(
    before: Dictionary,
    rpdo_index: u8,
    cob_id: u16,
    entries: Seq<TpdoEntry>,
    transmission_type: u8,
)
    requires
        rpdo_index <= 3,
        entries.len() <= 64,
        cob_id <= 0x7FF,
    ensures
        ({
            let w = rpdo_sequence(rpdo_index, cob_id, entries, transmission_type);
            let after = written(before, w);
            let comm = (0x1400 + rpdo_index) as u16;
            let map = (0x1600 + rpdo_index) as u16;
            &&& after[(comm, 1u8)] == le32(cob_id as u32)
            &&& after[(comm, 2u8)] == seq![transmission_type]
            &&& after[(map, 0u8)] == seq![entries.len() as u8]
            &&& forall|i: int|
                0 <= i < entries.len() ==> after[(map, (i + 1) as u8)] == le32(
                    ((#[trigger] entries[i]).index * 0x1_0000 + entries[i].subindex * 0x100
                        + entries[i].bit_len) as u32,
                )
            &&& forall|key: (u16, u8)|
                !(key.0 == comm && (key.1 == 1 || key.1 == 2)) && !(key.0 == map && key.1
                    <= entries.len()) ==> #[trigger] after[key] == before[key]
            &&& w[0] == (Write {
                index: comm,
                subindex: 1,
                data: le32((0x8000_0000 + cob_id) as u32),
            })
            &&& w.last() == (Write { index: comm, subindex: 1, data: le32(cob_id as u32) })
        }),
{
    let comm = (0x1400 + rpdo_index) as u16;
    let map = (0x1600 + rpdo_index) as u16;
    let w = rpdo_sequence(rpdo_index, cob_id, entries, transmission_type);
    let after = written(before, w);
    let n = entries.len() as int;
    assert(w.len() == n + 5);
    assert forall|j: int| 3 <= j < n + 3 implies (#[trigger] w[j]) == entry_writes(map, entries)[j
        - 3] by {}
    last_write_stays(before, w, n + 4);
    last_write_stays(before, w, n + 3);
    last_write_stays(before, w, 1);
    assert forall|i: int| 0 <= i < n implies after[(map, (i + 1) as u8)] == le32(
        ((#[trigger] entries[i]).index * 0x1_0000 + entries[i].subindex * 0x100
            + entries[i].bit_len) as u32,
    ) by {
        assert(w[i + 3] == entry_writes(map, entries)[i]);
        last_write_stays(before, w, i + 3);
    }
    assert forall|key: (u16, u8)|
        !(key.0 == comm && (key.1 == 1 || key.1 == 2)) && !(key.0 == map && key.1
            <= entries.len()) implies #[trigger] after[key] == before[key] by {
        assert forall|j: int| 0 <= j < w.len() implies (#[trigger] w[j]).key() != key by {
            if 3 <= j < n + 3 {
                assert(w[j] == entry_writes(map, entries)[j - 3]);
            }
        }
        unwritten_stays(before, w, key);
    }
}

/// A refused receive PDO is answered with what is wrong with its mapping, and
/// with its identifier where nothing is.
pub proof fn refused_rpdo_recipes(recipe: RpdoRecipe, e: Error)
    requires
        !recipe.valid(),
        recipe.refused_with(e),
    ensures
        recipe.rpdo_index >= 4 ==> e.says(
            "invalid rpdo_index "@ + decimal(recipe.rpdo_index as nat) + ", must be 0..=3"@,
        ),
        recipe.rpdo_index < 4 && recipe.entries@.len() == 0 ==> e.says(
            "RpdoRecipe has no entries"@,
        ),
        recipe.rpdo_index < 4 && 0 < recipe.entries@.len() < 65 && bits(recipe.entries@) > 512
            ==> e.says(
            "RpdoRecipe total "@ + decimal(bits(recipe.entries@))
                + " bits > 512 (CAN-FD max payload)"@,
        ),
        recipe.rpdo_index < 4 && 0 < recipe.entries@.len() < 65 && bits(recipe.entries@) <= 512
            ==> (e matches Error::InvalidCobId { cob_id, reason } && cob_id == recipe.cob_id && cob_id
            > 0x7FF && reason@ == "exceeds 11-bit range"@),
{
}

/// A receive PDO is off from the first write to the last, which puts it on; its
/// mapping is emptied before its entries change, and counts them only when all
/// of them stand.
pub proof fn rpdo_mapping_is_emptied_first(
    rpdo_index: u8,
    cob_id: u16,
    entries: Seq<TpdoEntry>,
    transmission_type: u8,
)
    requires
        rpdo_index <= 3,
        entries.len() <= 64,
        cob_id <= 0x7FF,
    ensures
        ({
            let w = rpdo_sequence(rpdo_index, cob_id, entries, transmission_type);
            let comm = (0x1400 + rpdo_index) as u16;
            let map = (0x1600 + rpdo_index) as u16;
            let n = entries.len() as int;
            &&& w.len() == n + 5
            &&& w[0] == (Write {
                index: comm,
                subindex: 1,
                data: le32((0x8000_0000 + cob_id) as u32),
            })
            &&& w[2] == (Write { index: map, subindex: 0, data: seq![0u8] })
            &&& forall|i: int|
                0 <= i < n ==> (#[trigger] w[i + 3]).index == map && w[i + 3].subindex == i + 1
            &&& w[n + 3] == (Write { index: map, subindex: 0, data: seq![n as u8] })
            &&& w[n + 4] == (Write { index: comm, subindex: 1, data: le32(cob_id as u32) })
        }),
{
    let w = rpdo_sequence(rpdo_index, cob_id, entries, transmission_type);
    let map = (0x1600 + rpdo_index) as u16;
    assert forall|i: int| 0 <= i < entries.len() implies (#[trigger] w[i + 3]).index == map && w[i
        + 3].subindex == i + 1 by {
        assert(w[i + 3] == entry_writes(map, entries)[i]);
    }
}

} // verus!
