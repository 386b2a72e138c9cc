//! The writes behind each control operation.
//!
//! Nothing is sent from here, and nothing is skipped because the motor might
//! already be in the right state: every operation takes the safest way, with a
//! pause of [`INTER_WRITE_DELAY_MS`] between two writes.

use vstd::prelude::*;

use super::codec::{mode_code, mode_to_cia402_code};
use super::types::Logic;
use crate::canopen::bytes::{le16, le32};
use crate::canopen::dictionary::{
    last_write_stays, unwritten_stays, write_i16, write_i8, write_u16, write_u32, write_u8,
    written, Dictionary, Write,
};
use crate::canopen::tpdo_config::{views, SdoWrite};
use crate::error::{Error, Result};
use crate::number::Real32;
use crate::text::{decimal, push_decimal};
use crate::time::Duration;
use crate::types::{MotorMode, MotorTarget};

verus! {

/// The control word.
pub const OD_CONTROL_WORD: u16 = 0x6040;

/// The mode of operation (signed byte).
pub const OD_MODE_OF_OPERATION: u16 = 0x6060;

/// The target position; the motors take a single-precision number of
/// revolutions.
pub const OD_TARGET_POSITION: u16 = 0x607A;

/// The target torque, in thousandths of the peak torque.
pub const OD_TARGET_TORQUE: u16 = 0x6071;

/// The torque limit of all modes, in thousandths of the peak torque.
pub const OD_MAX_TORQUE: u16 = 0x6072;

/// The target velocity; the motors take a single-precision number of
/// revolutions per second.
pub const OD_TARGET_VELOCITY: u16 = 0x60FF;

/// The parts of a MIT target: position, velocity and torque in subindex 1 to
/// 3, the two gains in subindex 4 and 5.
pub const OD_MIT_CONTROL_PARAM: u16 = 0x2003;

/// The node id, stored with `"save"`.
pub const OD_NODE_ID: u16 = 0x2001;

/// The object that stores parameters.
pub const OD_STORE_PARAMETERS: u16 = 0x1010;

/// The position preset: the position in subindex 1, the command in subindex 2.
pub const OD_POSITION_PRESET: u16 = 0x3001;

/// `"save"`, as the number that stores parameters.
pub const SAVE: u32 = 0x6576_6173;

/// `"pres"`, as the number that presets the position.
pub const PRESET: u32 = 0x7365_7270;

/// Control word: disable voltage.
pub const CW_DISABLE_VOLTAGE: u16 = 0x0000;

/// Control word: shutdown.
pub const CW_SHUTDOWN: u16 = 0x0006;

/// Control word: switch on.
pub const CW_SWITCH_ON: u16 = 0x0007;

/// Control word: enable operation.
pub const CW_ENABLE_OPERATION: u16 = 0x000F;

/// Control word: fault reset.
pub const CW_FAULT_RESET: u16 = 0x0080;

/// Control word: enabled, change at once, no new set-point.
pub const CW_ENABLE_PP_NEW_SP_CLEARED: u16 = 0x002F;

/// Control word: enabled, change at once, new set-point. The motor takes the
/// set-point when this bit rises.
pub const CW_ENABLE_PP_NEW_SP_LATCHED: u16 = 0x003F;

/// The pause between two writes, in milliseconds: the motor needs it to follow
/// the control word.
pub const INTER_WRITE_DELAY_MS: u64 = 10;

/// What else than the target itself decides how it is written.
#[derive(Debug, Clone, Copy, PartialEq)]
pub struct SetTargetContext {
    /// The mode that was last asked for.
    pub current_mode: Option<MotorMode>,
    /// For `Torque`: the peak torque in Nm.
    pub peak_torque_nm: Option<Real32>,
    /// For `Mit`: a gain is this factor times the number that is written.
    pub mit_kp_kd_factor: Option<Real32>,
}

impl Default for SetTargetContext {
    fn default() -> (r: Self)
        ensures
            r.current_mode is None,
            r.peak_torque_nm is None,
            r.mit_kp_kd_factor is None,
    {
        SetTargetContext { current_mode: None, peak_torque_nm: None, mit_kp_kd_factor: None }
    }
}

/// The results of the divisions by the peak torque and by the gain factor,
/// rounded to the nearest whole number (ties away from zero) and limited to
/// the range of the type; 0 where there is no number.
#[derive(Debug, Clone, Copy, PartialEq, Eq, Structural)]
pub struct ScaledTarget {
    /// The torque in thousandths of the peak torque.
    pub permille: i32,
    /// The proportional gain, divided by the factor.
    pub kp: i32,
    /// The derivative gain, divided by the factor.
    pub kd: i32,
}

/// `v`, limited to `low..=high`.
pub open spec fn limited(v: int, low: int, high: int) -> int {
    if v < low {
        low
    } else if v > high {
        high
    } else {
        v
    }
}

/// The writes of a control word.
pub open spec fn control_word(cw: u16) -> Write {
    write_u16(OD_CONTROL_WORD, 0, cw)
}

/// The writes that switch to a mode: a fault reset if the motor is in error,
/// shutdown, the mode, and the three steps up to operation enabled.
pub open spec fn set_mode_writes(target: MotorMode, in_error: bool) -> Seq<Write> {
    (if in_error {
        seq![control_word(CW_FAULT_RESET)]
    } else {
        seq![]
    }) + seq![
        control_word(CW_SHUTDOWN),
        write_i8(OD_MODE_OF_OPERATION, 0, mode_code(target)),
        control_word(CW_SHUTDOWN),
        control_word(CW_SWITCH_ON),
        control_word(CW_ENABLE_OPERATION),
    ]
}

/// The writes that switch a motor to a mode.
pub fn build_set_mode_writes(target: MotorMode, current_logic: Option<&Logic>) -> (r: Vec<SdoWrite>)
    ensures
        views(r@) == set_mode_writes(
            target,
            current_logic matches Some(logic) && (*logic is Error),
        ),
{
    let mut out: Vec<SdoWrite> = Vec::with_capacity(7);
    let in_error = match current_logic {
        Some(Logic::Error { .. }) => true,
        _ => false,
    };
    if in_error {
        out.push(SdoWrite::u16(OD_CONTROL_WORD, 0, CW_FAULT_RESET));
    }
    out.push(SdoWrite::u16(OD_CONTROL_WORD, 0, CW_SHUTDOWN));
    out.push(SdoWrite::i8(OD_MODE_OF_OPERATION, 0, mode_to_cia402_code(target)));
    out.push(SdoWrite::u16(OD_CONTROL_WORD, 0, CW_SHUTDOWN));
    out.push(SdoWrite::u16(OD_CONTROL_WORD, 0, CW_SWITCH_ON));
    out.push(SdoWrite::u16(OD_CONTROL_WORD, 0, CW_ENABLE_OPERATION));
    assert(views(out@) =~= set_mode_writes(target, in_error));
    out
}

/// The write that disables a motor (short-circuit brake).
pub fn build_disable_writes() -> (r: Vec<SdoWrite>)
    ensures
        views(r@) == seq![control_word(CW_SHUTDOWN)],
{
    let r = vec![SdoWrite::u16(OD_CONTROL_WORD, 0, CW_SHUTDOWN)];
    assert(views(r@) =~= seq![control_word(CW_SHUTDOWN)]);
    r
}

/// The write that clears a fault.
pub fn build_clear_error_writes() -> (r: Vec<SdoWrite>)
    ensures
        views(r@) == seq![control_word(CW_FAULT_RESET)],
{
    let r = vec![SdoWrite::u16(OD_CONTROL_WORD, 0, CW_FAULT_RESET)];
    assert(views(r@) =~= seq![control_word(CW_FAULT_RESET)]);
    r
}

/// The writes of a position: the set-point bit down, the position, the
/// set-point bit up.
pub open spec fn position_writes(rev: Real32) -> Seq<Write> {
    seq![
        control_word(CW_ENABLE_PP_NEW_SP_CLEARED),
        write_u32(OD_TARGET_POSITION, 0, rev.bits),
        control_word(CW_ENABLE_PP_NEW_SP_LATCHED),
    ]
}

fn build_pp_position_writes(rev: Real32) -> (r: Vec<SdoWrite>)
    ensures
        views(r@) == position_writes(rev),
{
    let r = vec![
        SdoWrite::u16(OD_CONTROL_WORD, 0, CW_ENABLE_PP_NEW_SP_CLEARED),
        SdoWrite::real32(OD_TARGET_POSITION, 0, rev),
        SdoWrite::u16(OD_CONTROL_WORD, 0, CW_ENABLE_PP_NEW_SP_LATCHED),
    ];
    assert(views(r@) =~= position_writes(rev));
    r
}

/// Why a torque cannot be converted, if it cannot.
pub open spec fn torque_fault(peak: Option<Real32>, peak_text: Seq<char>) -> Option<Seq<char>> {
    match peak {
        None => Some(
            "set_target(Torque): peak_torque not cached. initialize() must read 0x6076 first; this motor may not expose it."@,
        ),
        Some(p) => if p.divisor() {
            None
        } else {
            Some(
                "set_target(Torque): cached peak_torque is "@ + peak_text
                    + " Nm; cannot convert"@,
            )
        },
    }
}

/// The write of a torque.
pub open spec fn torque_writes(scaled: ScaledTarget) -> Seq<Write> {
    seq![
        write_i16(OD_TARGET_TORQUE, 0, limited(scaled.permille as int, -1000, 1000) as i16),
    ]
}

fn build_torque_writes(ctx: &SetTargetContext, scaled: ScaledTarget, peak_text: &str) -> (r: Result<
    Vec<SdoWrite>,
>)
    ensures
        match torque_fault(ctx.peak_torque_nm, peak_text@) {
            Some(text) => r matches Err(e) && e.says(text),
            None => r matches Ok(w) && views(w@) == torque_writes(scaled),
        },
{
    let peak = match ctx.peak_torque_nm {
        Some(peak) => peak,
        None => {
            return Err(
                Error::Internal(
                    "set_target(Torque): peak_torque not cached. initialize() must read 0x6076 first; this motor may not expose it.".to_owned(),
                ),
            );
        },
    };
    if !peak.is_divisor() {
        let mut text = "set_target(Torque): cached peak_torque is ".to_owned();
        text.append(peak_text);
        text.append(" Nm; cannot convert");
        return Err(Error::Internal(text));
    }
    let permille: i16 = if scaled.permille < -1000 {
        -1000
    } else if scaled.permille > 1000 {
        1000
    } else {
        scaled.permille as i16
    };
    let w = vec![SdoWrite::i16(OD_TARGET_TORQUE, 0, permille)];
    assert(views(w@) =~= torque_writes(scaled));
    Ok(w)
}

/// Why the gains cannot be converted, if they cannot.
pub open spec fn mit_fault(factor: Option<Real32>, factor_text: Seq<char>) -> Option<Seq<char>> {
    match factor {
        None => Some(
            "set_target(Mit): mit_kp_kd_factor not cached. initialize() must read 0x2003:07 first; this motor may not expose it."@,
        ),
        Some(f) => if f.divisor() {
            None
        } else {
            Some(
                "set_target(Mit): cached mit_kp_kd_factor is "@ + factor_text
                    + "; cannot convert"@,
            )
        },
    }
}

/// The writes of a MIT target.
pub open spec fn mit_writes(
    pos: Real32,
    vel: Real32,
    tor: Real32,
    scaled: ScaledTarget,
) -> Seq<Write> {
    seq![
        write_u32(OD_MIT_CONTROL_PARAM, 1, pos.bits),
        write_u32(OD_MIT_CONTROL_PARAM, 2, vel.bits),
        write_u32(OD_MIT_CONTROL_PARAM, 3, tor.bits),
        write_u16(OD_MIT_CONTROL_PARAM, 4, limited(scaled.kp as int, 0, 10_000) as u16),
        write_u16(OD_MIT_CONTROL_PARAM, 5, limited(scaled.kd as int, 0, 10_000) as u16),
    ]
}

fn limit_gain(gain: i32) -> (r: u16)
    ensures
        r == limited(gain as int, 0, 10_000),
{
    if gain < 0 {
        0
    } else if gain > 10_000 {
        10_000
    } else {
        gain as u16
    }
}

fn build_mit_writes(
    pos: Real32,
    vel: Real32,
    tor: Real32,
    ctx: &SetTargetContext,
    scaled: ScaledTarget,
    factor_text: &str,
) -> (r: Result<Vec<SdoWrite>>)
    ensures
        match mit_fault(ctx.mit_kp_kd_factor, factor_text@) {
            Some(text) => r matches Err(e) && e.says(text),
            None => r matches Ok(w) && views(w@) == mit_writes(pos, vel, tor, scaled),
        },
{
    let factor = match ctx.mit_kp_kd_factor {
        Some(factor) => factor,
        None => {
            return Err(
                Error::Internal(
                    "set_target(Mit): mit_kp_kd_factor not cached. initialize() must read 0x2003:07 first; this motor may not expose it.".to_owned(),
                ),
            );
        },
    };
    if !factor.is_divisor() {
        let mut text = "set_target(Mit): cached mit_kp_kd_factor is ".to_owned();
        text.append(factor_text);
        text.append("; cannot convert");
        return Err(Error::Internal(text));
    }
    let w = vec![
        SdoWrite::real32(OD_MIT_CONTROL_PARAM, 1, pos),
        SdoWrite::real32(OD_MIT_CONTROL_PARAM, 2, vel),
        SdoWrite::real32(OD_MIT_CONTROL_PARAM, 3, tor),
        SdoWrite::u16(OD_MIT_CONTROL_PARAM, 4, limit_gain(scaled.kp)),
        SdoWrite::u16(OD_MIT_CONTROL_PARAM, 5, limit_gain(scaled.kd)),
    ];
    assert(views(w@) =~= mit_writes(pos, vel, tor, scaled));
    Ok(w)
}

/// The writes of a target that is accepted.
pub open spec fn target_writes(target: MotorTarget, scaled: ScaledTarget) -> Seq<Write> {
    match target {
        MotorTarget::Disable => seq![control_word(CW_SHUTDOWN)],
        MotorTarget::Position { rev } => position_writes(rev),
        MotorTarget::Velocity { rev_per_s } => seq![
            write_u32(OD_TARGET_VELOCITY, 0, rev_per_s.bits),
        ],
        MotorTarget::Torque { .. } => torque_writes(scaled),
        MotorTarget::Mit { pos, vel, tor, .. } => mit_writes(pos, vel, tor, scaled),
    }
}

/// Why a target that fits the mode cannot be converted, if it cannot.
pub open spec fn conversion_fault(
    target: MotorTarget,
    ctx: SetTargetContext,
    scale_text: Seq<char>,
) -> Option<Seq<char>> {
    match target {
        MotorTarget::Torque { .. } => torque_fault(ctx.peak_torque_nm, scale_text),
        MotorTarget::Mit { .. } => mit_fault(ctx.mit_kp_kd_factor, scale_text),
        _ => None,
    }
}

/// Whether a target is accepted: it disables the motor, or it is for the mode
/// that was asked for and the conversion that it needs can be made.
pub open spec fn target_accepted(target: MotorTarget, ctx: SetTargetContext) -> bool {
    target is Disable || (ctx.current_mode matches Some(mode) && target.fits(mode)
        && conversion_fault(target, ctx, seq![]) is None)
}

/// The error that a target is refused with: the mode is not known, or it is
/// another one, or the conversion cannot be made.
pub open spec fn target_refused_with(
    target: MotorTarget,
    ctx: SetTargetContext,
    scale_text: Seq<char>,
    e: Error,
) -> bool {
    match ctx.current_mode {
        None => e.says("set_target: motor mode unknown (call set_mode first)"@),
        Some(mode) => if !target.fits(mode) {
            e matches Error::TargetModeMismatch { expected, given } && expected@ == mode.text()
                && given@ == target.text()
        } else {
            conversion_fault(target, ctx, scale_text) matches Some(text) && e.says(text)
        },
    }
}

/// The writes that give a motor a target.
///
/// `scaled` holds the quotients that the target needs, and `scale_text` the
/// number that was to be divided by, as text: the peak torque for `Torque`,
/// the gain factor for `Mit`. Both are looked at only for those two.
pub fn build_set_target_writes(
    target: &MotorTarget,
    ctx: SetTargetContext,
    scaled: ScaledTarget,
    scale_text: &str,
) -> (r: Result<Vec<SdoWrite>>)
    ensures
        match r {
            Ok(w) => target_accepted(*target, ctx) && views(w@) == target_writes(*target, scaled),
            Err(e) => !target_accepted(*target, ctx) && target_refused_with(
                *target,
                ctx,
                scale_text@,
                e,
            ),
        },
{
    if let MotorTarget::Disable = target {
        return Ok(build_disable_writes());
    }
    let mode = match ctx.current_mode {
        Some(mode) => mode,
        None => {
            return Err(
                Error::Internal(
                    "set_target: motor mode unknown (call set_mode first)".to_owned(),
                ),
            );
        },
    };
    if !target.matches_mode(mode) {
        return Err(
            Error::TargetModeMismatch {
                expected: mode.name().to_owned(),
                given: target.variant_name(),
            },
        );
    }
    match target {
        MotorTarget::Disable => Ok(build_disable_writes()),
        MotorTarget::Velocity { rev_per_s } => {
            let w = vec![SdoWrite::real32(OD_TARGET_VELOCITY, 0, *rev_per_s)];
            assert(views(w@) =~= target_writes(*target, scaled));
            Ok(w)
        },
        MotorTarget::Position { rev } => Ok(build_pp_position_writes(*rev)),
        MotorTarget::Torque { .. } => build_torque_writes(&ctx, scaled, scale_text),
        MotorTarget::Mit { pos, vel, tor, .. } => build_mit_writes(
            *pos,
            *vel,
            *tor,
            &ctx,
            scaled,
            scale_text,
        ),
    }
}

/// The writes that give a motor another node id, in effect after the next
/// power-up.
pub open spec fn change_node_id_writes(new_id: u8) -> Seq<Write> {
    seq![write_u8(OD_NODE_ID, 1, new_id), write_u32(OD_STORE_PARAMETERS, 1, SAVE)]
}

/// The writes that give a motor another node id. The id has to be in
/// `1..=127`.
pub fn build_change_node_id_writes(new_id: u8) -> (r: Result<Vec<SdoWrite>>)
    ensures
        match r {
            Ok(w) => 1 <= new_id <= 127 && views(w@) == change_node_id_writes(new_id),
            Err(e) => !(1 <= new_id <= 127) && e.says(
                "new node id must be 1..=127, got "@ + decimal(new_id as nat),
            ),
        },
{
    if new_id == 0 || new_id > 127 {
        let mut text = "new node id must be 1..=127, got ".to_owned();
        push_decimal(&mut text, new_id as u64);
        return Err(Error::Internal(text));
    }
    let w = vec![
        SdoWrite::u8(OD_NODE_ID, 1, new_id),
        SdoWrite::u32(OD_STORE_PARAMETERS, 1, SAVE),
    ];
    assert(views(w@) =~= change_node_id_writes(new_id));
    Ok(w)
}

/// The writes that make the present position count as `pos`: voltage off
/// (the preset works in no other state), the position, the command.
pub open spec fn position_preset_writes(pos: Real32) -> Seq<Write> {
    seq![
        control_word(CW_DISABLE_VOLTAGE),
        write_u32(OD_POSITION_PRESET, 1, pos.half_turn().bits),
        write_u32(OD_POSITION_PRESET, 2, PRESET),
    ]
}

/// The writes that make the present position count as `pos` revolutions,
/// limited to half a turn either way.
pub fn build_position_preset_writes(pos: Real32) -> (r: Vec<SdoWrite>)
    ensures
        views(r@) == position_preset_writes(pos),
{
    let r = vec![
        SdoWrite::u16(OD_CONTROL_WORD, 0, CW_DISABLE_VOLTAGE),
        SdoWrite::real32(OD_POSITION_PRESET, 1, pos.clamp_half_turn()),
        SdoWrite::u32(OD_POSITION_PRESET, 2, PRESET),
    ];
    assert(views(r@) =~= position_preset_writes(pos));
    r
}

/// The write that limits the torque in all modes, to at most the peak torque.
pub fn build_max_torque_writes(permille: u16) -> (r: Vec<SdoWrite>)
    ensures
        views(r@) == seq![
            write_u16(OD_MAX_TORQUE, 0, limited(permille as int, 0, 1000) as u16),
        ],
{
    let value: u16 = if permille > 1000 {
        1000
    } else {
        permille
    };
    let r = vec![SdoWrite::u16(OD_MAX_TORQUE, 0, value)];
    assert(views(r@) =~= seq![
        write_u16(OD_MAX_TORQUE, 0, limited(permille as int, 0, 1000) as u16),
    ]);
    r
}

/// One step of a sequence of writes.
#[derive(Debug)]
pub enum DownloadStep {
    /// Write this, and stop if it fails.
    Write(SdoWrite),
    /// Wait this long.
    Pause(Duration),
}

/// The steps of writes with a pause between each two of them.
pub open spec fn paced(steps: Seq<DownloadStep>, writes: Seq<Write>) -> bool {
    &&& steps.len() == if writes.len() == 0 {
        0
    } else {
        2 * writes.len() - 1
    }
    &&& forall|i: int|
        0 <= i < writes.len() ==> (#[trigger] steps[2 * i] matches DownloadStep::Write(w) && w@
            == writes[i])
    &&& forall|i: int|
        0 <= i < writes.len() - 1 ==> #[trigger] steps[2 * i + 1] == DownloadStep::Pause(
            Duration::millis(INTER_WRITE_DELAY_MS as int),
        )
}

/// Puts a pause between each two writes. None follows the last.
pub fn download_steps(writes: &Vec<SdoWrite>) -> (r: Vec<DownloadStep>)
    ensures
        paced(r@, views(writes@)),
{
    let mut steps: Vec<DownloadStep> = Vec::new();
    let mut i: usize = 0;
    while i < writes.len()
        invariant
            i <= writes@.len(),
            paced(steps@, views(writes@.take(i as int))),
        decreases writes@.len() - i,
    {
        let ghost before = steps@;
        let ghost old_writes = views(writes@.take(i as int));
        if i > 0 {
            steps.push(DownloadStep::Pause(Duration::from_millis(INTER_WRITE_DELAY_MS)));
        }
        let w = writes[i].clone();
        steps.push(DownloadStep::Write(w));
        proof {
            let new_writes = views(writes@.take(i + 1));
            assert(new_writes =~= old_writes.push(w@));
            assert forall|k: int| 0 <= k < new_writes.len() implies (
            #[trigger] steps@[2 * k] matches DownloadStep::Write(x) && x@ == new_writes[k]) by {
                if k < i {
                    assert(steps@[2 * k] == before[2 * k]);
                }
            }
            assert forall|k: int| 0 <= k < new_writes.len() - 1 implies #[trigger] steps@[2 * k + 1]
                == DownloadStep::Pause(Duration::millis(INTER_WRITE_DELAY_MS as int)) by {
                if k < i - 1 {
                    assert(steps@[2 * k + 1] == before[2 * k + 1]);
                }
            }
        }
        i = i + 1;
    }
    assert(writes@.take(i as int) =~= writes@);
    steps
}

/// Whatever a motor held before, after the writes of a mode it holds the mode
/// and is told to enable operation; when the mode is written, the control word
/// that stands says shutdown.
pub proof fn mode_is_set(before: Dictionary, target: MotorMode, in_error: bool)
    ensures
        ({
            let w = set_mode_writes(target, in_error);
            let after = written(before, w);
            let at = if in_error {
                2
            } else {
                1
            };
            &&& after[(OD_MODE_OF_OPERATION, 0u8)] == write_i8(
                OD_MODE_OF_OPERATION,
                0,
                mode_code(target),
            ).data
            &&& after[(OD_CONTROL_WORD, 0u8)] == control_word(CW_ENABLE_OPERATION).data
            &&& w[at] == write_i8(OD_MODE_OF_OPERATION, 0, mode_code(target))
            &&& written(before, w.take(at))[(OD_CONTROL_WORD, 0u8)] == control_word(
                CW_SHUTDOWN,
            ).data
        }),
{
    let w = set_mode_writes(target, in_error);
    let at = if in_error {
        2
    } else {
        1
    };
    last_write_stays(before, w, at);
    last_write_stays(before, w, w.len() - 1);
    last_write_stays(before, w.take(at), at - 1);
}

/// A position is taken over with a rising set-point bit: the bit is down when
/// the position is written, and up afterwards.
pub proof fn position_is_latched(before: Dictionary, rev: Real32)
    ensures
        ({
            let w = position_writes(rev);
            &&& written(before, w.take(2))[(OD_CONTROL_WORD, 0u8)] == control_word(
                CW_ENABLE_PP_NEW_SP_CLEARED,
            ).data
            &&& written(before, w)[(OD_CONTROL_WORD, 0u8)] == control_word(
                CW_ENABLE_PP_NEW_SP_LATCHED,
            ).data
            &&& written(before, w)[(OD_TARGET_POSITION, 0u8)] == write_u32(
                OD_TARGET_POSITION,
                0,
                rev.bits,
            ).data
        }),
{
    let w = position_writes(rev);
    last_write_stays(before, w.take(2), 0);
    last_write_stays(before, w, 2);
    last_write_stays(before, w, 1);
}

/// A motor can always be disabled through a target, whatever is known of it.
pub proof fn disable_is_always_accepted(ctx: SetTargetContext, scaled: ScaledTarget)
    ensures
        target_accepted(MotorTarget::Disable, ctx),
        target_writes(MotorTarget::Disable, scaled) == seq![control_word(CW_SHUTDOWN)],
{
}

/// A target other than `Disable` is never accepted in another mode than its
/// own, nor before a mode was asked for.
pub proof fn target_needs_its_mode(target: MotorTarget, ctx: SetTargetContext)
    requires
        !(target is Disable),
        target_accepted(target, ctx),
    ensures
        ctx.current_mode is Some,
        ctx.current_mode == target.mode(),
{
}

/// What a motor holds after a MIT target, whatever it held before: in 0x2003
/// the position at subindex 1, the velocity at 2, the torque at 3, and at 4 and
/// 5 the two gains, divided by the factor and kept between 0 and 10000. Nothing
/// else is touched.
pub proof fn mit_target_is_held(
    before: Dictionary,
    pos: Real32,
    vel: Real32,
    tor: Real32,
    kp: Real32,
    kd: Real32,
    scaled: ScaledTarget,
)
    ensures
        ({
            let after = written(
                before,
                target_writes(MotorTarget::Mit { pos, vel, tor, kp, kd }, scaled),
            );
            &&& after[(0x2003u16, 1u8)] == le32(pos.bits)
            &&& after[(0x2003u16, 2u8)] == le32(vel.bits)
            &&& after[(0x2003u16, 3u8)] == le32(tor.bits)
            &&& 0 <= scaled.kp <= 10_000 ==> after[(0x2003u16, 4u8)] == le16(scaled.kp as u16)
            &&& scaled.kp < 0 ==> after[(0x2003u16, 4u8)] == le16(0)
            &&& scaled.kp > 10_000 ==> after[(0x2003u16, 4u8)] == le16(10_000)
            &&& 0 <= scaled.kd <= 10_000 ==> after[(0x2003u16, 5u8)] == le16(scaled.kd as u16)
            &&& scaled.kd < 0 ==> after[(0x2003u16, 5u8)] == le16(0)
            &&& scaled.kd > 10_000 ==> after[(0x2003u16, 5u8)] == le16(10_000)
            &&& forall|key: (u16, u8)|
                !(key.0 == 0x2003 && 1 <= key.1 <= 5) ==> #[trigger] after[key] == before[key]
        }),
{
    let w = target_writes(MotorTarget::Mit { pos, vel, tor, kp, kd }, scaled);
    let after = written(before, w);
    assert(w.len() == 5);
    last_write_stays(before, w, 0);
    last_write_stays(before, w, 1);
    last_write_stays(before, w, 2);
    last_write_stays(before, w, 3);
    last_write_stays(before, w, 4);
    assert forall|key: (u16, u8)| !(key.0 == 0x2003 && 1 <= key.1 <= 5) implies #[trigger] after[key]
        == before[key] by {
        unwritten_stays(before, w, key);
    }
}

/// What a motor holds after a torque target, whatever it held before: in 0x6071
/// the torque in thousandths of the peak torque, kept between -1000 and 1000,
/// as a signed number of two bytes. Nothing else is touched.
pub proof fn torque_target_is_held(before: Dictionary, nm: Real32, scaled: ScaledTarget)
    ensures
        ({
            let after = written(before, target_writes(MotorTarget::Torque { nm }, scaled));
            let p = scaled.permille;
            &&& 0 <= p <= 1000 ==> after[(0x6071u16, 0u8)] == le16(p as u16)
            &&& -1000 <= p < 0 ==> after[(0x6071u16, 0u8)] == le16((p + 0x1_0000) as u16)
            &&& p > 1000 ==> after[(0x6071u16, 0u8)] == le16(1000)
            &&& p < -1000 ==> after[(0x6071u16, 0u8)] == le16((0x1_0000 - 1000) as u16)
            &&& forall|key: (u16, u8)|
                key != (0x6071u16, 0u8) ==> #[trigger] after[key] == before[key]
        }),
{
    let w = target_writes(MotorTarget::Torque { nm }, scaled);
    let after = written(before, w);
    last_write_stays(before, w, 0);
    assert forall|key: (u16, u8)| key != (0x6071u16, 0u8) implies #[trigger] after[key]
        == before[key] by {
        unwritten_stays(before, w, key);
    }
}

/// What a motor holds after a velocity target: the velocity in 0x60FF, and all
/// else as before.
pub proof fn velocity_target_is_held(before: Dictionary, rev_per_s: Real32, scaled: ScaledTarget)
    ensures
        ({
            let after = written(before, target_writes(MotorTarget::Velocity { rev_per_s }, scaled));
            &&& after[(0x60FFu16, 0u8)] == le32(rev_per_s.bits)
            &&& forall|key: (u16, u8)|
                key != (0x60FFu16, 0u8) ==> #[trigger] after[key] == before[key]
        }),
{
    let w = target_writes(MotorTarget::Velocity { rev_per_s }, scaled);
    let after = written(before, w);
    last_write_stays(before, w, 0);
    assert forall|key: (u16, u8)| key != (0x60FFu16, 0u8) implies #[trigger] after[key]
        == before[key] by {
        unwritten_stays(before, w, key);
    }
}

/// What a motor holds after a position target, whatever it held before: the
/// position in 0x607A. The motor stays enabled and changes at once (control
/// word 0x2F and 0x3F); bit 4, with which it takes the position over, is down
/// when the position is written and up afterwards. Nothing else is touched.
pub proof fn position_target_is_held(before: Dictionary, rev: Real32, scaled: ScaledTarget)
    ensures
        ({
            let w = target_writes(MotorTarget::Position { rev }, scaled);
            let after = written(before, w);
            let at = w.len() - 2;
            &&& after[(0x607Au16, 0u8)] == le32(rev.bits)
            &&& after[(0x6040u16, 0u8)] == seq![0x3Fu8, 0u8]
            &&& w[at].index == 0x607A
            &&& written(before, w.take(at))[(0x6040u16, 0u8)] == seq![0x2Fu8, 0u8]
            &&& forall|key: (u16, u8)|
                key != (0x607Au16, 0u8) && key != (0x6040u16, 0u8) ==> #[trigger] after[key]
                    == before[key]
        }),
{
    let w = target_writes(MotorTarget::Position { rev }, scaled);
    let after = written(before, w);
    assert(w.len() == 3);
    last_write_stays(before, w, 1);
    last_write_stays(before, w, 2);
    last_write_stays(before, w.take(1), 0);
    assert(le16(0x3F) =~= seq![0x3Fu8, 0u8]);
    assert(le16(0x2F) =~= seq![0x2Fu8, 0u8]);
    assert forall|key: (u16, u8)|
        key != (0x607Au16, 0u8) && key != (0x6040u16, 0u8) implies #[trigger] after[key]
        == before[key] by {
        unwritten_stays(before, w, key);
    }
}

/// To disable a motor, by itself or through a target, gives it the control word
/// 6 and nothing else.
pub proof fn disabled_motor_holds_shutdown(before: Dictionary, scaled: ScaledTarget)
    ensures
        ({
            let after = written(before, target_writes(MotorTarget::Disable, scaled));
            &&& after[(0x6040u16, 0u8)] == seq![6u8, 0u8]
            &&& forall|key: (u16, u8)|
                key != (0x6040u16, 0u8) ==> #[trigger] after[key] == before[key]
            &&& written(before, seq![control_word(CW_SHUTDOWN)]) == after
            &&& control_word(CW_FAULT_RESET) == (Write {
                index: 0x6040,
                subindex: 0,
                data: seq![0x80u8, 0u8],
            })
        }),
{
    let w = target_writes(MotorTarget::Disable, scaled);
    let after = written(before, w);
    last_write_stays(before, w, 0);
    assert(le16(6) =~= seq![6u8, 0u8]);
    assert(le16(0x80) =~= seq![0x80u8, 0u8]);
    assert forall|key: (u16, u8)| key != (0x6040u16, 0u8) implies #[trigger] after[key]
        == before[key] by {
        unwritten_stays(before, w, key);
    }
}

/// Which targets are accepted. `Disable` always is; a position or a velocity in
/// its mode; a torque in its mode if the peak torque is known, a MIT target in
/// its mode if the gain factor is known, and each of these is finite and at
/// least 2^-23 in magnitude (exponent 104 to 254).
pub proof fn accepted_targets(t: MotorTarget, ctx: SetTargetContext)
    ensures
        t is Disable ==> target_accepted(t, ctx),
        t is Position ==> (target_accepted(t, ctx) <==> ctx.current_mode == Some(
            MotorMode::ProfilePosition,
        )),
        t is Velocity ==> (target_accepted(t, ctx) <==> ctx.current_mode == Some(
            MotorMode::ProfileVelocity,
        )),
        t is Torque ==> (target_accepted(t, ctx) <==> ctx.current_mode == Some(MotorMode::Torque)
            && (ctx.peak_torque_nm matches Some(p) && 104 <= p.bits as int / 0x80_0000 % 0x100
            <= 254)),
        t is Mit ==> (target_accepted(t, ctx) <==> ctx.current_mode == Some(MotorMode::Mit) && (
        ctx.mit_kp_kd_factor matches Some(f) && 104 <= f.bits as int / 0x80_0000 % 0x100 <= 254)),
{
}

/// A target that is refused because of the mode says so: before a mode was
/// asked for with words, in another mode with that mode and the target.
pub proof fn refusal_names_the_mode(t: MotorTarget, ctx: SetTargetContext, text: Seq<char>, e: Error)
    requires
        !target_accepted(t, ctx),
        target_refused_with(t, ctx, text, e),
    ensures
        e is TargetModeMismatch <==> (ctx.current_mode matches Some(m) && !t.fits(m)),
        !(e is TargetModeMismatch) ==> e is Internal,
        e matches Error::TargetModeMismatch { expected, given } ==> expected@
            == ctx.current_mode->0.text() && given@ == t.text(),
{
}

/// The values that are written to the control word, in order.
pub open spec fn control_words(writes: Seq<Write>) -> Seq<Seq<u8>>
    decreases writes.len(),
{
    if writes.len() == 0 {
        seq![]
    } else if writes.last().index == 0x6040 && writes.last().subindex == 0 {
        control_words(writes.drop_last()).push(writes.last().data)
    } else {
        control_words(writes.drop_last())
    }
}

/// A motor comes to a mode step by step: shutdown, shutdown again when the mode
/// is set, switch on, enable (6, 6, 7, 15), with a fault reset (0x80) before
/// all else if it is in error. What it holds then is the number of the mode
/// (1, 3, 4 or 5) and the enabling control word, and all else as before.
pub proof fn mode_is_reached_step_by_step(before: Dictionary, target: MotorMode, in_error: bool)
    ensures
        ({
            let w = set_mode_writes(target, in_error);
            let after = written(before, w);
            let up = seq![seq![6u8, 0u8], seq![6u8, 0u8], seq![7u8, 0u8], seq![15u8, 0u8]];
            &&& control_words(w) == if in_error {
                seq![seq![0x80u8, 0u8]] + up
            } else {
                up
            }
            &&& after[(0x6040u16, 0u8)] == seq![15u8, 0u8]
            &&& target is ProfilePosition ==> after[(0x6060u16, 0u8)] == seq![1u8]
            &&& target is ProfileVelocity ==> after[(0x6060u16, 0u8)] == seq![3u8]
            &&& target is Torque ==> after[(0x6060u16, 0u8)] == seq![4u8]
            &&& target is Mit ==> after[(0x6060u16, 0u8)] == seq![5u8]
            &&& forall|key: (u16, u8)|
                key != (0x6060u16, 0u8) && key != (0x6040u16, 0u8) ==> #[trigger] after[key]
                    == before[key]
        }),
{
    let w = set_mode_writes(target, in_error);
    let after = written(before, w);
    let n = w.len() as int;
    assert(le16(6) =~= seq![6u8, 0u8]);
    assert(le16(7) =~= seq![7u8, 0u8]);
    assert(le16(15) =~= seq![15u8, 0u8]);
    assert(le16(0x80) =~= seq![0x80u8, 0u8]);
    mode_is_set(before, target, in_error);
    assert forall|key: (u16, u8)|
        key != (0x6060u16, 0u8) && key != (0x6040u16, 0u8) implies #[trigger] after[key]
        == before[key] by {
        unwritten_stays(before, w, key);
    }
    reveal_with_fuel(control_words, 7);
    assert(w.drop_last() =~= w.take(n - 1));
    assert(w.take(n - 1).drop_last() =~= w.take(n - 2));
    assert(w.take(n - 2).drop_last() =~= w.take(n - 3));
    assert(w.take(n - 3).drop_last() =~= w.take(n - 4));
    assert(w.take(n - 4).drop_last() =~= w.take(n - 5));
    if in_error {
        assert(w.take(1).drop_last() =~= w.take(0));
    }
    let up = seq![seq![6u8, 0u8], seq![6u8, 0u8], seq![7u8, 0u8], seq![15u8, 0u8]];
    assert(control_words(w) =~= if in_error {
        seq![seq![0x80u8, 0u8]] + up
    } else {
        up
    });
}

/// A motor gets its new node id, and the order to keep it (the letters
/// `save`) once it has it. Nothing else is touched.
pub proof fn new_node_id_is_kept(before: Dictionary, new_id: u8)
    ensures
        ({
            let w = change_node_id_writes(new_id);
            let after = written(before, w);
            &&& after[(0x2001u16, 1u8)] == seq![new_id]
            &&& w.last().index == 0x1010
            &&& w.last().subindex == 1
            &&& w.last().data == seq![0x73u8, 0x61u8, 0x76u8, 0x65u8]
            &&& forall|key: (u16, u8)|
                key != (0x2001u16, 1u8) && key != (0x1010u16, 1u8) ==> #[trigger] after[key]
                    == before[key]
        }),
{
    let w = change_node_id_writes(new_id);
    let after = written(before, w);
    last_write_stays(before, w, 0);
    assert(le32(0x6576_6173) =~= seq![0x73u8, 0x61u8, 0x76u8, 0x65u8]);
    assert forall|key: (u16, u8)|
        key != (0x2001u16, 1u8) && key != (0x1010u16, 1u8) implies #[trigger] after[key]
        == before[key] by {
        unwritten_stays(before, w, key);
    }
}

/// The position is preset while the motor has no voltage: the control word is 0
/// when the order (the letters `pres`) comes, which is last, and the position
/// to count as stands by then. It is the given one where that is at most half a
/// turn, and half a turn to its side otherwise. Nothing else is touched.
pub proof fn position_is_preset_without_voltage(before: Dictionary, pos: Real32)
    ensures
        ({
            let w = position_preset_writes(pos);
            let ready = written(before, w.drop_last());
            let after = written(before, w);
            let magnitude = pos.bits as int % 0x8000_0000;
            &&& w.last().index == 0x3001
            &&& w.last().subindex == 2
            &&& w.last().data == seq![0x70u8, 0x72u8, 0x65u8, 0x73u8]
            &&& ready[(0x6040u16, 0u8)] == seq![0u8, 0u8]
            &&& magnitude <= 0x3F00_0000 || pos.nan() ==> ready[(0x3001u16, 1u8)] == le32(pos.bits)
            &&& magnitude > 0x3F00_0000 && !pos.nan() && pos.bits < 0x8000_0000
                ==> ready[(0x3001u16, 1u8)] == le32(0x3F00_0000)
            &&& magnitude > 0x3F00_0000 && !pos.nan() && pos.bits >= 0x8000_0000
                ==> ready[(0x3001u16, 1u8)] == le32(0xBF00_0000)
            &&& forall|key: (u16, u8)|
                key != (0x6040u16, 0u8) && key != (0x3001u16, 1u8) && key != (0x3001u16, 2u8)
                    ==> #[trigger] after[key] == before[key]
        }),
{
    let w = position_preset_writes(pos);
    let first = w.drop_last();
    let after = written(before, w);
    last_write_stays(before, first, 0);
    last_write_stays(before, first, 1);
    assert(le32(0x7365_7270) =~= seq![0x70u8, 0x72u8, 0x65u8, 0x73u8]);
    assert(le16(0) =~= seq![0u8, 0u8]);
    assert forall|key: (u16, u8)|
        key != (0x6040u16, 0u8) && key != (0x3001u16, 1u8) && key != (0x3001u16, 2u8) implies #[trigger] after[key]
        == before[key] by {
        unwritten_stays(before, w, key);
    }
}

/// A limit keeps a number that lies within it and gives the nearer end
/// otherwise.
pub proof fn limits_keep_what_lies_within(v: int, low: int, high: int)
    requires
        low <= high,
    ensures
        low <= limited(v, low, high) <= high,
        low <= v <= high ==> limited(v, low, high) == v,
        v <= low ==> limited(v, low, high) == low,
        v >= high ==> limited(v, low, high) == high,
{
}

/// The torque limit of all modes is in 0x6072, in thousandths, and never more
/// than 1000; up to that it is what was asked for.
pub proof fn torque_limit_is_held(permille: u16)
    ensures
        ({
            let w = write_u16(OD_MAX_TORQUE, 0, limited(permille as int, 0, 1000) as u16);
            &&& w.index == 0x6072
            &&& w.subindex == 0
            &&& permille <= 1000 ==> w.data == le16(permille)
            &&& permille > 1000 ==> w.data == le16(1000)
        }),
{
}

/// Between two writes of a sequence there is always a pause of 10 ms, and none
/// before the first or after the last; every write is made, once and in order.
pub proof fn writes_are_paced(steps: Seq<DownloadStep>, writes: Seq<Write>, i: int)
    requires
        paced(steps, writes),
        0 <= i < steps.len(),
    ensures
        i % 2 == 0 ==> (steps[i] matches DownloadStep::Write(w) && w.index == writes[i / 2].index
            && w.subindex == writes[i / 2].subindex && w.data@ == writes[i / 2].data),
        i % 2 == 1 ==> (steps[i] matches DownloadStep::Pause(d) && d.nanos == 10_000_000),
        steps.len() == 2 * writes.len() - 1,
{
    let k = i / 2;
    if i % 2 == 0 {
        assert(steps[2 * k] == steps[i]);
    } else {
        assert(steps[2 * k + 1] == steps[i]);
    }
}

/// What a refused target is answered, in words: no mode was asked for; or the
/// number to divide by is not known; or it is known and is no divisor, and then
/// it is named.
pub proof fn refusals_in_words(t: MotorTarget, ctx: SetTargetContext, text: Seq<char>, e: Error)
    requires
        !target_accepted(t, ctx),
        target_refused_with(t, ctx, text, e),
    ensures
        ctx.current_mode is None ==> e.says(
            "set_target: motor mode unknown (call set_mode first)"@,
        ),
        t is Torque && ctx.current_mode == Some(MotorMode::Torque) && ctx.peak_torque_nm is None
            ==> e.says(
            "set_target(Torque): peak_torque not cached. initialize() must read 0x6076 first; this motor may not expose it."@,
        ),
        t is Torque && ctx.current_mode == Some(MotorMode::Torque) && ctx.peak_torque_nm is Some
            ==> e.says(
            "set_target(Torque): cached peak_torque is "@ + text + " Nm; cannot convert"@,
        ),
        t is Mit && ctx.current_mode == Some(MotorMode::Mit) && ctx.mit_kp_kd_factor is None
            ==> e.says(
            "set_target(Mit): mit_kp_kd_factor not cached. initialize() must read 0x2003:07 first; this motor may not expose it."@,
        ),
        t is Mit && ctx.current_mode == Some(MotorMode::Mit) && ctx.mit_kp_kd_factor is Some
            ==> e.says(
            "set_target(Mit): cached mit_kp_kd_factor is "@ + text + "; cannot convert"@,
        ),
{
}

/// The orders of a control word, as numbers.
pub proof fn control_words_as_numbers(cw: u16)
    ensures
        control_word(cw) == (Write { index: 0x6040, subindex: 0, data: le16(cw) }),
        CW_DISABLE_VOLTAGE == 0,
        CW_SHUTDOWN == 6,
        CW_SWITCH_ON == 7,
        CW_ENABLE_OPERATION == 15,
        CW_FAULT_RESET == 128,
        CW_ENABLE_PP_NEW_SP_CLEARED == 15 + 32,
        CW_ENABLE_PP_NEW_SP_LATCHED == 15 + 32 + 16,
{
}

} // verus!
