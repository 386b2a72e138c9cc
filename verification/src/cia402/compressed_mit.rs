//! Compressed MIT targets: five values in eight bytes, so that the targets of
//! up to eight motors fit into one CAN-FD frame.
//!
//! Each motor is told, once, which eight bytes of the shared frame are its
//! own. Feedback comes through the ordinary PDOs, which stay as they are.

use vstd::prelude::*;

use super::sequences::{
    control_word, CW_ENABLE_OPERATION, CW_SHUTDOWN, CW_SWITCH_ON, OD_CONTROL_WORD, OD_MAX_TORQUE,
    OD_MODE_OF_OPERATION,
};
use crate::canopen::bytes::{
    le16, le32, le32_holds_the_digits, u32_bytes, value32, value32_of_le32,
};
use crate::canopen::dictionary::{
    last_write_stays, unwritten_stays, write_i8, write_u16, write_u32, write_u8, written,
    written_in_turn, Dictionary, Write,
};
use crate::canopen::rpdo_config::{
    build_rpdo_config_writes, rpdo_entries_after_the_writes, rpdo_refused_with, rpdo_sequence,
    RpdoRecipe,
};
use crate::canopen::tpdo_config::{bits, entry_writes, views, SdoWrite, TpdoEntry};
use crate::error::Error;
use crate::number::Real32;

verus! {

/// The compressed MIT object.
pub const OD_MIT_COMPRESSED: u16 = 0x2004;

/// Short-circuit brake on (one byte).
pub const OD_SHORT_BRAKE: u16 = 0x2040;

/// Compressed targets on (one byte).
pub const SUB_ENABLE: u8 = 0x01;

/// The lower four bytes of a target.
pub const SUB_LOWER: u8 = 0x02;

/// The upper four bytes of a target.
pub const SUB_UPPER: u8 = 0x03;

/// The torque limit of the gain terms, in thousandths of the peak torque.
pub const SUB_KP_KD_TORQUE_PERMILLE: u8 = 0x0E;

/// The number of the MIT mode.
pub const MODE_MIT: i8 = 5;

/// The identifier of the shared frame: that of the first transmit PDO of node
/// 0x10, the master.
pub const DEFAULT_SHARED_COB_ID: u16 = 0x190;

/// The pause after each write of the configuration, in milliseconds.
pub const SDO_GAP_MS: u64 = 4;

/// The ranges that the parts of a target are mapped to. The narrower they are,
/// the finer the resolution.
#[derive(Debug, Clone, Copy, PartialEq)]
pub struct CompressedMitMapping {
    pub position_min: Real32,
    pub position_max: Real32,
    pub velocity_min: Real32,
    pub velocity_max: Real32,
    pub torque_min: Real32,
    pub torque_max: Real32,
    pub kp_min: Real32,
    pub kp_max: Real32,
    pub kd_min: Real32,
    pub kd_max: Real32,
}

impl Default for CompressedMitMapping {
    /// Half a turn, ten revolutions per second and ten Nm either way, `kp` up
    /// to 100 and `kd` up to 20.
    fn default() -> (r: Self)
        ensures
            r.position_min.bits == 0xBF00_0000,
            r.position_max.bits == 0x3F00_0000,
            r.velocity_min.bits == 0xC120_0000,
            r.velocity_max.bits == 0x4120_0000,
            r.torque_min.bits == 0xC120_0000,
            r.torque_max.bits == 0x4120_0000,
            r.kp_min.bits == 0,
            r.kp_max.bits == 0x42C8_0000,
            r.kd_min.bits == 0,
            r.kd_max.bits == 0x41A0_0000,
    {
        CompressedMitMapping {
            position_min: Real32 { bits: 0xBF00_0000 },
            position_max: Real32 { bits: 0x3F00_0000 },
            velocity_min: Real32 { bits: 0xC120_0000 },
            velocity_max: Real32 { bits: 0x4120_0000 },
            torque_min: Real32 { bits: 0xC120_0000 },
            torque_max: Real32 { bits: 0x4120_0000 },
            kp_min: Real32 { bits: 0 },
            kp_max: Real32 { bits: 0x42C8_0000 },
            kd_min: Real32 { bits: 0 },
            kd_max: Real32 { bits: 0x41A0_0000 },
        }
    }
}

/// A target in the units of the motor.
#[derive(Debug, Clone, Copy, PartialEq)]
pub struct CompressedMitTarget {
    /// Revolutions.
    pub position: Real32,
    /// Revolutions per second.
    pub velocity: Real32,
    /// Feed-forward torque in Nm.
    pub torque: Real32,
    /// Nm per revolution.
    pub kp: Real32,
    /// Nm s per revolution.
    pub kd: Real32,
}

impl CompressedMitTarget {
    /// No torque: both gains and the feed-forward torque are zero.
    pub fn zero() -> (r: Self)
        ensures
            r.position.bits == 0,
            r.velocity.bits == 0,
            r.torque.bits == 0,
            r.kp.bits == 0,
            r.kd.bits == 0,
    {
        CompressedMitTarget {
            position: Real32 { bits: 0 },
            velocity: Real32 { bits: 0 },
            torque: Real32 { bits: 0 },
            kp: Real32 { bits: 0 },
            kd: Real32 { bits: 0 },
        }
    }
}

/// A target as fixed-point numbers: each value's place in its range, the
/// position in 16 bits, the others in 12.
#[derive(Debug, Clone, Copy, PartialEq, Eq, Structural)]
pub struct FixedMitTarget {
    pub position: u32,
    pub velocity: u32,
    pub torque: u32,
    pub kp: u32,
    pub kd: u32,
}

impl FixedMitTarget {
    /// Every value fits its bits.
    pub open spec fn fits(self) -> bool {
        &&& self.position < 0x1_0000
        &&& self.velocity < 0x1000
        &&& self.torque < 0x1000
        &&& self.kp < 0x1000
        &&& self.kd < 0x1000
    }

    /// Torque in bits 0 to 11, `kd` in bits 12 to 23, the lower eight bits of
    /// `kp` above.
    pub open spec fn lower(self) -> u32 {
        self.torque | (self.kd << 12) | ((self.kp & 0xFF) << 24)
    }

    /// The upper four bits of `kp` in bits 0 to 3, velocity in bits 4 to 15,
    /// position above.
    pub open spec fn upper(self) -> u32 {
        (self.kp >> 8) | (self.velocity << 4) | (self.position << 16)
    }

    /// The eight bytes of the target.
    pub open spec fn payload(self) -> Seq<u8> {
        le32(self.lower()) + le32(self.upper())
    }

    /// The two words of the target.
    pub fn words(&self) -> (r: (u32, u32))
        ensures
            r.0 == self.lower(),
            r.1 == self.upper(),
    {
        let lower: u32 = self.torque | (self.kd << 12) | ((self.kp & 0xFF) << 24);
        let upper: u32 = (self.kp >> 8) | (self.velocity << 4) | (self.position << 16);
        (lower, upper)
    }

    /// The eight bytes of the target.
    pub fn to_le_bytes(&self) -> (r: Vec<u8>)
        ensures
            r@ == self.payload(),
            r@.len() == 8,
    {
        let (lower, upper) = self.words();
        let mut out = u32_bytes(lower);
        let mut rest = u32_bytes(upper);
        out.append(&mut rest);
        assert(out@ =~= self.payload());
        out
    }
}

/// The payload of the shared frame for these targets, slot by slot.
pub open spec fn shared_payload(targets: Seq<FixedMitTarget>) -> Seq<u8>
    decreases targets.len(),
{
    if targets.len() == 0 {
        seq![]
    } else {
        shared_payload(targets.drop_last()) + targets.last().payload()
    }
}

/// The payload of the shared frame: eight bytes for each target, in the order
/// of the slots.
pub fn pack_shared_frame(targets: &Vec<FixedMitTarget>) -> (r: Vec<u8>)
    ensures
        r@ == shared_payload(targets@),
        r@.len() == 8 * targets@.len(),
{
    let mut data: Vec<u8> = Vec::new();
    let mut i: usize = 0;
    while i < targets.len()
        invariant
            i <= targets@.len(),
            data@ == shared_payload(targets@.take(i as int)),
            data@.len() == 8 * i,
        decreases targets@.len() - i,
    {
        let mut slot = targets[i].to_le_bytes();
        data.append(&mut slot);
        assert(targets@.take(i + 1).drop_last() =~= targets@.take(i as int));
        i = i + 1;
    }
    assert(targets@.take(i as int) =~= targets@);
    data
}

/// The object that takes the bytes of other motors.
pub open spec fn placeholder_entry() -> TpdoEntry {
    TpdoEntry { index: 0x3000, subindex: 0x03, bit_len: 32 }
}

/// The object that takes the bytes of other motors.
pub fn placeholder() -> (r: TpdoEntry)
    ensures
        r == placeholder_entry(),
{
    TpdoEntry { index: 0x3000, subindex: 0x03, bit_len: 32 }
}

/// The mapping of a motor with slot `slice` of `total`: its own two words
/// there, the placeholder twice everywhere else.
pub open spec fn slot_entries(slice: u8, total: u8) -> Seq<TpdoEntry> {
    Seq::new(
        (2 * total) as nat,
        |i: int|
            if i == 2 * slice {
                TpdoEntry { index: OD_MIT_COMPRESSED, subindex: SUB_LOWER, bit_len: 32 }
            } else if i == 2 * slice + 1 {
                TpdoEntry { index: OD_MIT_COMPRESSED, subindex: SUB_UPPER, bit_len: 32 }
            } else {
                placeholder_entry()
            },
    )
}

/// The mapping of a motor with slot `slice` of `total`.
pub fn rpdo_entries(slice: u8, total: u8) -> (r: Vec<TpdoEntry>)
    ensures
        r@ == slot_entries(slice, total),
{
    let mut entries: Vec<TpdoEntry> = Vec::with_capacity(2 * total as usize);
    let mut i: u8 = 0;
    while i < total
        invariant
            i <= total,
            entries@ == slot_entries(slice, total).take(2 * i),
        decreases total - i,
    {
        if i == slice {
            entries.push(
                TpdoEntry { index: OD_MIT_COMPRESSED, subindex: SUB_LOWER, bit_len: 32 },
            );
            entries.push(
                TpdoEntry { index: OD_MIT_COMPRESSED, subindex: SUB_UPPER, bit_len: 32 },
            );
        } else {
            entries.push(placeholder());
            entries.push(placeholder());
        }
        assert(entries@ =~= slot_entries(slice, total).take(2 * (i + 1)));
        i = i + 1;
    }
    assert(slot_entries(slice, total).take(2 * i) =~= slot_entries(slice, total));
    entries
}

/// The first writes of the configuration: torque limits, ranges, the first
/// target, compressed targets on, brake on.
pub open spec fn range_writes(
    mapping: CompressedMitMapping,
    first: FixedMitTarget,
    torque_permille: u16,
    kp_kd_torque_permille: u16,
) -> Seq<Write> {
    seq![
        write_u16(OD_MAX_TORQUE, 0, torque_permille),
        write_u16(OD_MIT_COMPRESSED, SUB_KP_KD_TORQUE_PERMILLE, kp_kd_torque_permille),
        write_u32(OD_MIT_COMPRESSED, 0x04, mapping.position_min.bits),
        write_u32(OD_MIT_COMPRESSED, 0x05, mapping.position_max.bits),
        write_u32(OD_MIT_COMPRESSED, 0x06, mapping.velocity_min.bits),
        write_u32(OD_MIT_COMPRESSED, 0x07, mapping.velocity_max.bits),
        write_u32(OD_MIT_COMPRESSED, 0x08, mapping.kp_min.bits),
        write_u32(OD_MIT_COMPRESSED, 0x09, mapping.kp_max.bits),
        write_u32(OD_MIT_COMPRESSED, 0x0A, mapping.kd_min.bits),
        write_u32(OD_MIT_COMPRESSED, 0x0B, mapping.kd_max.bits),
        write_u32(OD_MIT_COMPRESSED, 0x0C, mapping.torque_min.bits),
        write_u32(OD_MIT_COMPRESSED, 0x0D, mapping.torque_max.bits),
        write_u32(OD_MIT_COMPRESSED, SUB_LOWER, first.lower()),
        write_u32(OD_MIT_COMPRESSED, SUB_UPPER, first.upper()),
        write_u8(OD_MIT_COMPRESSED, SUB_ENABLE, 1),
        write_u8(OD_SHORT_BRAKE, 0, 1),
    ]
}

/// The last writes of the configuration: MIT mode, and the three steps up to
/// operation enabled.
pub open spec fn enable_writes() -> Seq<Write> {
    seq![
        write_i8(OD_MODE_OF_OPERATION, 0, MODE_MIT),
        control_word(CW_SHUTDOWN),
        control_word(CW_SWITCH_ON),
        control_word(CW_ENABLE_OPERATION),
    ]
}

/// What is done to configure a motor.
#[derive(Debug)]
pub struct ConfigurePlan {
    /// The writes to make, each followed by a pause of [`SDO_GAP_MS`]. The
    /// first that fails ends the configuration.
    pub writes: Vec<SdoWrite>,
    /// The error to end with once the writes are made.
    pub refusal: Option<Error>,
}

fn push_all(out: &mut Vec<SdoWrite>, more: Vec<SdoWrite>)
    ensures
        views(final(out)@) == views(old(out)@) + views(more@),
{
    let mut rest = more;
    let ghost before = out@;
    out.append(&mut rest);
    assert(views(out@) =~= views(before) + views(more@));
}

fn range_sequence(
    mapping: &CompressedMitMapping,
    first: &FixedMitTarget,
    torque_permille: u16,
    kp_kd_torque_permille: u16,
) -> (r: Vec<SdoWrite>)
    ensures
        views(r@) == range_writes(*mapping, *first, torque_permille, kp_kd_torque_permille),
{
    let (lower, upper) = first.words();
    let r = vec![
        SdoWrite::u16(OD_MAX_TORQUE, 0, torque_permille),
        SdoWrite::u16(OD_MIT_COMPRESSED, SUB_KP_KD_TORQUE_PERMILLE, kp_kd_torque_permille),
        SdoWrite::real32(OD_MIT_COMPRESSED, 0x04, mapping.position_min),
        SdoWrite::real32(OD_MIT_COMPRESSED, 0x05, mapping.position_max),
        SdoWrite::real32(OD_MIT_COMPRESSED, 0x06, mapping.velocity_min),
        SdoWrite::real32(OD_MIT_COMPRESSED, 0x07, mapping.velocity_max),
        SdoWrite::real32(OD_MIT_COMPRESSED, 0x08, mapping.kp_min),
        SdoWrite::real32(OD_MIT_COMPRESSED, 0x09, mapping.kp_max),
        SdoWrite::real32(OD_MIT_COMPRESSED, 0x0A, mapping.kd_min),
        SdoWrite::real32(OD_MIT_COMPRESSED, 0x0B, mapping.kd_max),
        SdoWrite::real32(OD_MIT_COMPRESSED, 0x0C, mapping.torque_min),
        SdoWrite::real32(OD_MIT_COMPRESSED, 0x0D, mapping.torque_max),
        SdoWrite::u32(OD_MIT_COMPRESSED, SUB_LOWER, lower),
        SdoWrite::u32(OD_MIT_COMPRESSED, SUB_UPPER, upper),
        SdoWrite::u8(OD_MIT_COMPRESSED, SUB_ENABLE, 1),
        SdoWrite::u8(OD_SHORT_BRAKE, 0, 1),
    ];
    assert(views(r@) =~= range_writes(*mapping, *first, torque_permille, kp_kd_torque_permille));
    r
}

fn enable_sequence() -> (r: Vec<SdoWrite>)
    ensures
        views(r@) == enable_writes(),
{
    let r = vec![
        SdoWrite::i8(OD_MODE_OF_OPERATION, 0, MODE_MIT),
        SdoWrite::u16(OD_CONTROL_WORD, 0, CW_SHUTDOWN),
        SdoWrite::u16(OD_CONTROL_WORD, 0, CW_SWITCH_ON),
        SdoWrite::u16(OD_CONTROL_WORD, 0, CW_ENABLE_OPERATION),
    ];
    assert(views(r@) =~= enable_writes());
    r
}

/// How a motor is configured for compressed targets, with slot `slice` of
/// `total` in the frame `cob_id`.
///
/// The motor has to be initialized. `first` is the zero target in the given
/// ranges: it stands from the moment the motor is enabled until the first
/// shared frame comes. When all is done the motor is enabled, and shared frames
/// have to follow at once.
pub fn configure(
    slice: u8,
    total: u8,
    cob_id: u16,
    mapping: &CompressedMitMapping,
    first: &FixedMitTarget,
    torque_permille: u16,
    kp_kd_torque_permille: u16,
) -> (r: ConfigurePlan)
    ensures
        ({
            let head = range_writes(*mapping, *first, torque_permille, kp_kd_torque_permille);
            let entries = slot_entries(slice, total);
            match r.refusal {
                None => views(r.writes@) == head + rpdo_sequence(0, cob_id, entries, 255)
                    + enable_writes(),
                Some(e) => views(r.writes@) == head && rpdo_refused_with(0, cob_id, entries, e),
            }
        }),
        r.refusal is None <==> 1 <= total <= 8 && cob_id <= 0x7FF,
        r.refusal is None ==> views(r.writes@) == configuration(
            slice,
            total,
            cob_id,
            *mapping,
            *first,
            torque_permille,
            kp_kd_torque_permille,
        ),
{
    let mut writes = range_sequence(mapping, first, torque_permille, kp_kd_torque_permille);
    let recipe = RpdoRecipe {
        rpdo_index: 0,
        cob_id,
        entries: rpdo_entries(slice, total),
        transmission_type: 255,
    };
    proof {
        slot_bits(slice, total, 2 * total);
        assert(slot_entries(slice, total).take(2 * total) =~= slot_entries(slice, total));
    }
    match build_rpdo_config_writes(&recipe) {
        Ok(w) => {
            push_all(&mut writes, w);
            push_all(&mut writes, enable_sequence());
            ConfigurePlan { writes, refusal: None }
        },
        Err(e) => ConfigurePlan { writes, refusal: Some(e) },
    }
}

/// Every mapping entry takes 32 bits.
pub proof fn slot_bits(slice: u8, total: u8, n: int)
    requires
        0 <= n <= 2 * total,
    ensures
        bits(slot_entries(slice, total).take(n)) == 32 * n,
    decreases n,
{
    if n > 0 {
        slot_bits(slice, total, n - 1);
        assert(slot_entries(slice, total).take(n).drop_last() =~= slot_entries(
            slice,
            total,
        ).take(n - 1));
    }
}

/// In range, the two words hold the five values side by side.
pub proof fn words_hold_the_values(t: FixedMitTarget)
    requires
        t.fits(),
    ensures
        t.lower() == t.torque + 0x1000 * t.kd + 0x100_0000 * (t.kp % 0x100),
        t.upper() == t.kp / 0x100 + 0x10 * t.velocity + 0x1_0000 * t.position,
{
    let torque = t.torque;
    let kd = t.kd;
    let kp = t.kp;
    let velocity = t.velocity;
    let position = t.position;
    assert(torque < 0x1000 && kd < 0x1000 && kp < 0x1000 ==> (torque | (kd << 12) | ((kp & 0xFF)
        << 24)) == torque + 0x1000 * kd + 0x100_0000 * (kp % 0x100)) by (bit_vector);
    assert(kp < 0x1000 && velocity < 0x1000 && position < 0x1_0000 ==> ((kp >> 8) | (velocity << 4)
        | (position << 16)) == kp / 0x100 + 0x10 * velocity + 0x1_0000 * position) by (bit_vector);
}

/// The target in eight bytes.
pub open spec fn unpacked(data: Seq<u8>) -> FixedMitTarget {
    let lower = value32(data, 0);
    let upper = value32(data, 4);
    FixedMitTarget {
        position: upper / 0x1_0000,
        velocity: upper / 0x10 % 0x1000,
        torque: lower % 0x1000,
        kp: ((upper % 0x10) * 0x100 + lower / 0x100_0000) as u32,
        kd: lower / 0x1000 % 0x1000,
    }
}

/// A target whose values are in range can be read back from its eight bytes.
pub proof fn target_is_read_back(t: FixedMitTarget)
    requires
        t.fits(),
    ensures
        unpacked(t.payload()) == t,
{
    let torque = t.torque;
    let kd = t.kd;
    let kp = t.kp;
    let velocity = t.velocity;
    let position = t.position;
    let lower = t.lower();
    let upper = t.upper();
    assert(torque < 0x1000 && kd < 0x1000 && kp < 0x1000 && lower == (torque | (kd << 12) | ((kp
        & 0xFF) << 24)) ==> lower % 0x1000 == torque && lower / 0x1000 % 0x1000 == kd && lower
        / 0x100_0000 == kp % 0x100) by (bit_vector);
    assert(kp < 0x1000 && velocity < 0x1000 && position < 0x1_0000 && upper == ((kp >> 8) | (velocity
        << 4) | (position << 16)) ==> upper / 0x1_0000 == position && upper / 0x10 % 0x1000
        == velocity && upper % 0x10 == kp / 0x100) by (bit_vector);
    value32_of_le32(lower);
    value32_of_le32(upper);
    assert(value32(t.payload(), 0) == value32(le32(lower), 0));
    assert(value32(t.payload(), 4) == value32(le32(upper), 0));
}

/// The payload of the shared frame has the target of slot `slice` at its place.
pub proof fn slot_holds_its_target(targets: Seq<FixedMitTarget>, slice: int)
    requires
        0 <= slice < targets.len(),
    ensures
        shared_payload(targets).len() == 8 * targets.len(),
        shared_payload(targets).subrange(8 * slice, 8 * slice + 8) == targets[slice].payload(),
    decreases targets.len(),
{
    let shorter = targets.drop_last();
    if slice < targets.len() - 1 {
        slot_holds_its_target(shorter, slice);
        assert(shared_payload(targets).subrange(8 * slice, 8 * slice + 8) =~= shared_payload(
            shorter,
        ).subrange(8 * slice, 8 * slice + 8));
    } else {
        shared_length(shorter);
        assert(shared_payload(targets).subrange(8 * slice, 8 * slice + 8)
            =~= targets[slice].payload());
    }
}

proof fn shared_length(targets: Seq<FixedMitTarget>)
    ensures
        shared_payload(targets).len() == 8 * targets.len(),
    decreases targets.len(),
{
    if targets.len() > 0 {
        shared_length(targets.drop_last());
    }
}

/// A motor takes its own target from the shared frame: the bits that its
/// mapping puts before its two objects end where the bytes of its slot begin,
/// and those bytes are the two words of its target.
pub proof fn motor_takes_its_own_target(slice: u8, targets: Seq<FixedMitTarget>)
    requires
        slice < targets.len() <= 8,
    ensures
        ({
            let entries = slot_entries(slice, targets.len() as u8);
            let payload = shared_payload(targets);
            let from = bits(entries.take(2 * slice)) as int / 8;
            &&& bits(entries.take(2 * slice)) % 8 == 0
            &&& entries[2 * slice] == TpdoEntry {
                index: OD_MIT_COMPRESSED,
                subindex: SUB_LOWER,
                bit_len: 32,
            }
            &&& entries[2 * slice + 1] == TpdoEntry {
                index: OD_MIT_COMPRESSED,
                subindex: SUB_UPPER,
                bit_len: 32,
            }
            &&& payload.subrange(from, from + 4) == le32(targets[slice as int].lower())
            &&& payload.subrange(from + 4, from + 8) == le32(targets[slice as int].upper())
            &&& payload.len() == bits(entries) / 8
        }),
{
    let total = targets.len() as u8;
    let t = targets[slice as int];
    slot_bits(slice, total, 2 * slice);
    slot_bits(slice, total, 2 * total);
    assert(slot_entries(slice, total).take(2 * total) =~= slot_entries(slice, total));
    slot_holds_its_target(targets, slice as int);
    let own = shared_payload(targets).subrange(8 * slice, 8 * slice + 8);
    assert(shared_payload(targets).subrange(8 * slice, 8 * slice + 4) =~= own.subrange(0, 4));
    assert(shared_payload(targets).subrange(8 * slice + 4, 8 * slice + 8) =~= own.subrange(4, 8));
    assert(t.payload().subrange(0, 4) =~= le32(t.lower()));
    assert(t.payload().subrange(4, 8) =~= le32(t.upper()));
}

/// All writes of a configuration that is not refused.
pub open spec fn configuration(
    slice: u8,
    total: u8,
    cob_id: u16,
    mapping: CompressedMitMapping,
    first: FixedMitTarget,
    torque_permille: u16,
    kp_kd_torque_permille: u16,
) -> Seq<Write> {
    range_writes(mapping, first, torque_permille, kp_kd_torque_permille) + rpdo_sequence(
        0,
        cob_id,
        slot_entries(slice, total),
        255,
    ) + enable_writes()
}

/// What a motor holds after its configuration, whatever it held before: in
/// 0x2004 the two ends of each range, for position, velocity, the two gains and
/// torque in this order from subindex 4 on, the torque limit of the gains, the
/// first target, and that compressed targets are on; the torque limit of all
/// modes; the brake on; MIT mode; operation enabled.
pub proof fn configured_motor_holds_its_ranges(
    before: Dictionary,
    slice: u8,
    total: u8,
    cob_id: u16,
    mapping: CompressedMitMapping,
    first: FixedMitTarget,
    torque_permille: u16,
    kp_kd_torque_permille: u16,
)
    requires
        1 <= total <= 8,
        cob_id <= 0x7FF,
    ensures
        ({
            let after = written(
                before,
                configuration(
                    slice,
                    total,
                    cob_id,
                    mapping,
                    first,
                    torque_permille,
                    kp_kd_torque_permille,
                ),
            );
            &&& after[(0x2004u16, 0x04u8)] == le32(mapping.position_min.bits)
            &&& after[(0x2004u16, 0x05u8)] == le32(mapping.position_max.bits)
            &&& after[(0x2004u16, 0x06u8)] == le32(mapping.velocity_min.bits)
            &&& after[(0x2004u16, 0x07u8)] == le32(mapping.velocity_max.bits)
            &&& after[(0x2004u16, 0x08u8)] == le32(mapping.kp_min.bits)
            &&& after[(0x2004u16, 0x09u8)] == le32(mapping.kp_max.bits)
            &&& after[(0x2004u16, 0x0Au8)] == le32(mapping.kd_min.bits)
            &&& after[(0x2004u16, 0x0Bu8)] == le32(mapping.kd_max.bits)
            &&& after[(0x2004u16, 0x0Cu8)] == le32(mapping.torque_min.bits)
            &&& after[(0x2004u16, 0x0Du8)] == le32(mapping.torque_max.bits)
            &&& after[(0x2004u16, 0x0Eu8)] == le16(kp_kd_torque_permille)
            &&& after[(0x6072u16, 0u8)] == le16(torque_permille)
            &&& after[(0x2004u16, 0x02u8)] + after[(0x2004u16, 0x03u8)] == first.payload()
            &&& after[(0x2004u16, 0x01u8)] == seq![1u8]
            &&& after[(0x2040u16, 0u8)] == seq![1u8]
            &&& after[(0x6060u16, 0u8)] == seq![5u8]
            &&& after[(0x6040u16, 0u8)] == seq![15u8, 0u8]
        }),
{
    let head = range_writes(mapping, first, torque_permille, kp_kd_torque_permille);
    let entries = slot_entries(slice, total);
    let middle = rpdo_sequence(0, cob_id, entries, 255);
    let tail = enable_writes();
    let od1 = written(before, head);
    let od2 = written(od1, middle);
    written_in_turn(before, head + middle, tail);
    written_in_turn(before, head, middle);
    assert(head.len() == 16);
    last_write_stays(before, head, 0);
    last_write_stays(before, head, 1);
    last_write_stays(before, head, 2);
    last_write_stays(before, head, 3);
    last_write_stays(before, head, 4);
    last_write_stays(before, head, 5);
    last_write_stays(before, head, 6);
    last_write_stays(before, head, 7);
    last_write_stays(before, head, 8);
    last_write_stays(before, head, 9);
    last_write_stays(before, head, 10);
    last_write_stays(before, head, 11);
    last_write_stays(before, head, 12);
    last_write_stays(before, head, 13);
    last_write_stays(before, head, 14);
    last_write_stays(before, head, 15);
    rpdo_entries_after_the_writes(od1, 0, cob_id, entries, 255);
    assert forall|key: (u16, u8)| key.0 != 0x1400 && key.0 != 0x1600 implies #[trigger] od2[key]
        == od1[key] by {}
    let od3 = written(od2, tail);
    assert forall|key: (u16, u8)| key.0 != 0x6060 && key.0 != 0x6040 implies #[trigger] od3[key]
        == od2[key] by {
        unwritten_stays(od2, tail, key);
    }
    last_write_stays(od2, tail, 0);
    last_write_stays(od2, tail, 3);
    assert(le16(15) =~= seq![15u8, 0u8]);
}

/// A motor that is being configured listens to the shared frame with the first
/// receive PDO, takes frames as they come, and is not enabled before all else
/// is done: the control words 6, 7 and 15 come last, and none before.
pub proof fn configured_motor_is_enabled_last(
    before: Dictionary,
    slice: u8,
    total: u8,
    cob_id: u16,
    mapping: CompressedMitMapping,
    first: FixedMitTarget,
    torque_permille: u16,
    kp_kd_torque_permille: u16,
)
    requires
        1 <= total <= 8,
        cob_id <= 0x7FF,
    ensures
        ({
            let w = configuration(
                slice,
                total,
                cob_id,
                mapping,
                first,
                torque_permille,
                kp_kd_torque_permille,
            );
            let after = written(before, w);
            let n = w.len() as int;
            &&& after[(0x1400u16, 1u8)] == le32(cob_id as u32)
            &&& after[(0x1400u16, 2u8)] == seq![255u8]
            &&& after[(0x1600u16, 0u8)] == seq![(2 * total) as u8]
            &&& w[n - 3] == (Write { index: 0x6040, subindex: 0, data: seq![6u8, 0u8] })
            &&& w[n - 2] == (Write { index: 0x6040, subindex: 0, data: seq![7u8, 0u8] })
            &&& w[n - 1] == (Write { index: 0x6040, subindex: 0, data: seq![15u8, 0u8] })
            &&& w[n - 4] == (Write { index: 0x6060, subindex: 0, data: seq![5u8] })
            &&& forall|j: int|
                0 <= j < n - 4 ==> (#[trigger] w[j]).index != 0x6040 && w[j].index != 0x6060
        }),
{
    let head = range_writes(mapping, first, torque_permille, kp_kd_torque_permille);
    let entries = slot_entries(slice, total);
    let middle = rpdo_sequence(0, cob_id, entries, 255);
    let tail = enable_writes();
    let w = head + middle + tail;
    let od1 = written(before, head);
    let od2 = written(od1, middle);
    written_in_turn(before, head + middle, tail);
    written_in_turn(before, head, middle);
    rpdo_entries_after_the_writes(od1, 0, cob_id, entries, 255);
    unwritten_stays(od2, tail, (0x1400u16, 1u8));
    unwritten_stays(od2, tail, (0x1400u16, 2u8));
    unwritten_stays(od2, tail, (0x1600u16, 0u8));
    assert(le16(6) =~= seq![6u8, 0u8]);
    assert(le16(7) =~= seq![7u8, 0u8]);
    assert(le16(15) =~= seq![15u8, 0u8]);
    let m = middle.len() as int;
    assert(m == entries.len() + 5);
    assert forall|k: int| 0 <= k < m implies (#[trigger] middle[k]).index != 0x6040
        && middle[k].index != 0x6060 by {
        if 3 <= k < m - 2 {
            assert(middle[k] == entry_writes(0x1600, entries)[k - 3]);
        }
    }
    assert forall|j: int| 0 <= j < w.len() - 4 implies (#[trigger] w[j]).index != 0x6040
        && w[j].index != 0x6060 by {
        if j >= 16 {
            assert(w[j] == middle[j - 16]);
        }
    }
}

/// Which objects take the words of the shared frame: the motor's own two words
/// go to 0x2004:02 and 0x2004:03, all others to an object that ignores them,
/// each with 32 bits; two words for each motor.
pub proof fn only_the_own_slot_is_taken(slice: u8, total: u8, i: int)
    requires
        0 <= i < 2 * total,
    ensures
        ({
            let e = slot_entries(slice, total)[i];
            &&& slot_entries(slice, total).len() == 2 * total
            &&& e.bit_len == 32
            &&& e.index == 0x2004 <==> i / 2 == slice
            &&& i / 2 == slice ==> e.subindex == 2 + i % 2
            &&& i / 2 != slice ==> e.index == 0x3000 && e.subindex == 3
        }),
{
}

/// The eight bytes of a target, bit by bit, also of values that do not fit: the
/// lower word is made of the torque, of `kd` from bit 12 on and of the lower
/// eight bits of `kp` from bit 24 on; the upper word of the rest of `kp`, of
/// the velocity from bit 4 on and of the position from bit 16 on.
pub proof fn words_bit_by_bit(t: FixedMitTarget, i: u32)
    requires
        i < 32,
    ensures
        (t.lower() >> i) & 1 == 1 <==> {
            ||| (t.torque >> i) & 1 == 1
            ||| i >= 12 && (t.kd >> ((i - 12) as u32)) & 1 == 1
            ||| i >= 24 && (t.kp >> ((i - 24) as u32)) & 1 == 1
        },
        (t.upper() >> i) & 1 == 1 <==> {
            ||| i < 24 && (t.kp >> ((i + 8) as u32)) & 1 == 1
            ||| i >= 4 && (t.velocity >> ((i - 4) as u32)) & 1 == 1
            ||| i >= 16 && (t.position >> ((i - 16) as u32)) & 1 == 1
        },
{
    let torque = t.torque;
    let kd = t.kd;
    let kp = t.kp;
    let velocity = t.velocity;
    let position = t.position;
    assert(i < 32 ==> ((((torque | (kd << 12) | ((kp & 0xFF) << 24)) >> i) & 1 == 1) <==> ((torque
        >> i) & 1 == 1 || (i >= 12 && (kd >> ((i - 12) as u32)) & 1 == 1) || (i >= 24 && (kp >> ((i
        - 24) as u32)) & 1 == 1)))) by (bit_vector);
    assert(i < 32 ==> (((((kp >> 8) | (velocity << 4) | (position << 16)) >> i) & 1 == 1) <==> ((i
        < 24 && (kp >> ((i + 8) as u32)) & 1 == 1) || (i >= 4 && (velocity >> ((i - 4) as u32)) & 1
        == 1) || (i >= 16 && (position >> ((i - 16) as u32)) & 1 == 1)))) by (bit_vector);
}

/// The first bytes of a target are its lower word, the others its upper word,
/// each with the lowest byte first.
pub proof fn lower_word_comes_first(t: FixedMitTarget)
    ensures
        t.payload().len() == 8,
        t.payload()[0] == t.lower() as int % 0x100,
        t.payload()[3] == t.lower() as int / 0x100_0000,
        t.payload()[4] == t.upper() as int % 0x100,
        t.payload()[7] == t.upper() as int / 0x100_0000,
        t.payload().take(4) == le32(t.lower()),
        t.payload().skip(4) == le32(t.upper()),
{
    le32_holds_the_digits(t.lower());
    le32_holds_the_digits(t.upper());
    assert(t.payload().take(4) =~= le32(t.lower()));
    assert(t.payload().skip(4) =~= le32(t.upper()));
}

/// A configuration that is refused has touched the torque limits, the ranges,
/// the first target and the brake, but neither the mode nor the control word
/// nor any PDO.
pub proof fn refused_configuration_enables_nothing(
    before: Dictionary,
    mapping: CompressedMitMapping,
    first: FixedMitTarget,
    torque_permille: u16,
    kp_kd_torque_permille: u16,
    key: (u16, u8),
)
    requires
        key != (0x6072u16, 0u8),
        key != (0x2040u16, 0u8),
        !(key.0 == 0x2004 && 0x01 <= key.1 <= 0x0E),
    ensures
        written(
            before,
            range_writes(mapping, first, torque_permille, kp_kd_torque_permille),
        )[key] == before[key],
{
    unwritten_stays(
        before,
        range_writes(mapping, first, torque_permille, kp_kd_torque_permille),
        key,
    );
}

/// The first target stands in the motor word by word: the lower one at
/// subindex 2, the upper one at 3.
pub proof fn first_target_stands(
    before: Dictionary,
    mapping: CompressedMitMapping,
    first: FixedMitTarget,
    torque_permille: u16,
    kp_kd_torque_permille: u16,
)
    ensures
        ({
            let after = written(
                before,
                range_writes(mapping, first, torque_permille, kp_kd_torque_permille),
            );
            &&& after[(0x2004u16, 2u8)] == le32(first.lower())
            &&& after[(0x2004u16, 3u8)] == le32(first.upper())
            &&& after[(0x2004u16, 1u8)] == seq![1u8]
            &&& after[(0x2040u16, 0u8)] == seq![1u8]
        }),
{
    let w = range_writes(mapping, first, torque_permille, kp_kd_torque_permille);
    last_write_stays(before, w, 12);
    last_write_stays(before, w, 13);
    last_write_stays(before, w, 14);
    last_write_stays(before, w, 15);
}

/// A target fits if its position takes at most 16 bits and each of the other
/// values at most 12.
pub proof fn fitting_targets(t: FixedMitTarget)
    ensures
        t.fits() <==> t.position <= 65_535 && t.velocity <= 4095 && t.torque <= 4095 && t.kp <= 4095
            && t.kd <= 4095,
{
}

/// The shared frame has the identifier 0x190, and the writes of a configuration
/// are 4 ms apart.
pub proof fn shared_frame_and_gap()
    ensures
        DEFAULT_SHARED_COB_ID == 0x180 + 0x10,
        SDO_GAP_MS == 4,
{
}

} // verus!
