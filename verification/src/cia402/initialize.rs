//! Initialization: what is sent, read and written, in which order, and what
//! each reply means.
//!
//! The node is made pre-operational; the two transmit PDOs are configured; a
//! few constants of the motor are read; the node is started. Then a fault that
//! may be left from an earlier loss of our heartbeat is cleared, and the motor
//! is told to watch for the heartbeat. A single attempt at this fails about
//! every second time, so it is repeated until the status word shows no fault.
//! This is the only place where a fault is cleared without being asked to.

use vstd::prelude::*;

use super::codec::{has_fault, status_word_has_fault};
use super::options::Cia402ManagerOptions;
use super::sequences::{
    control_word, CW_DISABLE_VOLTAGE, CW_FAULT_RESET, OD_CONTROL_WORD, OD_MIT_CONTROL_PARAM,
};
use crate::canopen::bytes::{le16, le32, value16, value32};
use crate::canopen::cob::CommunicationObject;
use crate::canopen::dictionary::{
    last_write_stays, unwritten_stays, write_u16, write_u32, written, written_in_turn, Dictionary,
    Write,
};
use crate::canopen::frame::{Frame, FrameId, FrameKind};
use crate::canopen::heartbeat::{
    consumer_entry, consumer_entry_is_read_back, encode_consumer_heartbeat_entry,
};
use crate::canopen::nmt::{
    build_nmt_command, command_names_its_node, command_payload, NmtCommand, NmtState,
};
use crate::canopen::sdo::{decode_real32, decode_u16, too_short};
use crate::canopen::tpdo_config::{
    bits, build_tpdo_config_writes, holds_tpdo, tpdo_entries_after_the_writes,
    tpdo_is_configured, tpdo_sequence, views, SdoWrite, TpdoCommParams, TpdoEntry, TpdoRecipe,
};
use crate::error::Error;
use crate::number::Real32;
use crate::text::{decimal, node_message, node_text, push_decimal};
use crate::time::{Duration, Instant};

verus! {

/// The mapping of the first transmit PDO: position, time, torque and fault
/// code, 12 bytes.
pub open spec fn tpdo1_entries() -> Seq<TpdoEntry> {
    seq![
        TpdoEntry { index: 0x6064, subindex: 0, bit_len: 32 },
        TpdoEntry { index: 0x1013, subindex: 0, bit_len: 32 },
        TpdoEntry { index: 0x6077, subindex: 0, bit_len: 16 },
        TpdoEntry { index: 0x603F, subindex: 0, bit_len: 16 },
    ]
}

/// The mapping of the second transmit PDO: status word, the two temperatures,
/// control word and fault code, 10 bytes.
pub open spec fn tpdo2_entries() -> Seq<TpdoEntry> {
    seq![
        TpdoEntry { index: 0x6041, subindex: 0, bit_len: 16 },
        TpdoEntry { index: 0x2204, subindex: 1, bit_len: 16 },
        TpdoEntry { index: 0x2204, subindex: 2, bit_len: 16 },
        TpdoEntry { index: 0x6040, subindex: 0, bit_len: 16 },
        TpdoEntry { index: 0x603F, subindex: 0, bit_len: 16 },
    ]
}

/// The mapping of the first transmit PDO.
pub fn default_tpdo1_entries() -> (r: Vec<TpdoEntry>)
    ensures
        r@ == tpdo1_entries(),
{
    let r = vec![
        TpdoEntry { index: 0x6064, subindex: 0, bit_len: 32 },
        TpdoEntry { index: 0x1013, subindex: 0, bit_len: 32 },
        TpdoEntry { index: 0x6077, subindex: 0, bit_len: 16 },
        TpdoEntry { index: 0x603F, subindex: 0, bit_len: 16 },
    ];
    assert(r@ =~= tpdo1_entries());
    r
}

/// The mapping of the second transmit PDO.
pub fn default_tpdo2_entries() -> (r: Vec<TpdoEntry>)
    ensures
        r@ == tpdo2_entries(),
{
    let r = vec![
        TpdoEntry { index: 0x6041, subindex: 0, bit_len: 16 },
        TpdoEntry { index: 0x2204, subindex: 1, bit_len: 16 },
        TpdoEntry { index: 0x2204, subindex: 2, bit_len: 16 },
        TpdoEntry { index: 0x6040, subindex: 0, bit_len: 16 },
        TpdoEntry { index: 0x603F, subindex: 0, bit_len: 16 },
    ];
    assert(r@ =~= tpdo2_entries());
    r
}

/// The first transmit PDO is sent every ms, at most every 0.5 ms.
pub open spec fn tpdo1_comm() -> TpdoCommParams {
    TpdoCommParams { transmission_type: 255, inhibit_time_x100us: 5, event_timer_ms: 1 }
}

/// The second transmit PDO is sent every 20 ms, at most every 19 ms.
pub open spec fn tpdo2_comm() -> TpdoCommParams {
    TpdoCommParams { transmission_type: 255, inhibit_time_x100us: 190, event_timer_ms: 20 }
}

/// How the first transmit PDO is sent.
pub fn default_tpdo1_comm() -> (r: TpdoCommParams)
    ensures
        r == tpdo1_comm(),
{
    TpdoCommParams { transmission_type: 255, inhibit_time_x100us: 5, event_timer_ms: 1 }
}

/// How the second transmit PDO is sent.
pub fn default_tpdo2_comm() -> (r: TpdoCommParams)
    ensures
        r == tpdo2_comm(),
{
    TpdoCommParams { transmission_type: 255, inhibit_time_x100us: 190, event_timer_ms: 20 }
}

/// `recipe` is the default for the first transmit PDO of a node.
pub open spec fn is_tpdo1_recipe(recipe: TpdoRecipe, nid: u8) -> bool {
    &&& recipe.tpdo_index == 0
    &&& recipe.cob_id == 0x180 + nid
    &&& recipe.entries@ == tpdo1_entries()
    &&& recipe.comm == tpdo1_comm()
}

/// `recipe` is the default for the second transmit PDO of a node.
pub open spec fn is_tpdo2_recipe(recipe: TpdoRecipe, nid: u8) -> bool {
    &&& recipe.tpdo_index == 1
    &&& recipe.cob_id == 0x280 + nid
    &&& recipe.entries@ == tpdo2_entries()
    &&& recipe.comm == tpdo2_comm()
}

/// The default for the first transmit PDO of a node.
pub fn default_tpdo1_recipe(nid: u8) -> (r: TpdoRecipe)
    ensures
        is_tpdo1_recipe(r, nid),
        r.valid(),
{
    proof {
        default_lengths();
    }
    TpdoRecipe {
        tpdo_index: 0,
        cob_id: 0x180 + nid as u16,
        entries: default_tpdo1_entries(),
        comm: default_tpdo1_comm(),
    }
}

/// The default for the second transmit PDO of a node.
pub fn default_tpdo2_recipe(nid: u8) -> (r: TpdoRecipe)
    ensures
        is_tpdo2_recipe(r, nid),
        r.valid(),
{
    proof {
        default_lengths();
    }
    TpdoRecipe {
        tpdo_index: 1,
        cob_id: 0x280 + nid as u16,
        entries: default_tpdo2_entries(),
        comm: default_tpdo2_comm(),
    }
}

/// The pause around the edges of a fault reset, in milliseconds. The motor
/// looks at the control word now and then, and has to see each of its values.
pub const FAULT_RESET_SETTLE_MS: u64 = 50;

/// The pause between two looks at the state of a node, in milliseconds.
pub const NMT_POLL_MS: u64 = 20;

/// Something to do in the course of initialization.
#[derive(Debug)]
pub enum Action {
    /// Send a frame.
    Send(Frame),
    /// Wait until the node reports a state.
    AwaitNmt { state: NmtState, timeout: Duration },
    /// Read an entry of the motor.
    Upload { index: u16, subindex: u8 },
    /// Write an entry of the motor.
    Download(SdoWrite),
    /// Wait.
    Sleep(Duration),
}

/// What the reply to an action means.
#[derive(Debug, Clone, Copy, PartialEq, Eq, Structural)]
pub enum OnReply {
    /// It has to succeed.
    Require,
    /// It has to bring a 16-bit number.
    RequireWord,
    /// It may fail.
    Ignore,
    /// It may bring the peak torque.
    KeepPeak,
    /// It may bring the gain factor.
    KeepFactor,
    /// It may bring a status word without a fault: then all is done.
    CheckFault,
}

/// One step of initialization.
#[derive(Debug)]
pub struct InitStep {
    pub action: Action,
    pub on_reply: OnReply,
}

/// An action, as a value.
#[verifier::ext_equal]
pub enum Doing {
    Send { id: FrameId, kind: FrameKind, data: Seq<u8> },
    AwaitNmt { state: NmtState, timeout: Duration },
    Upload { index: u16, subindex: u8 },
    Download(Write),
    Sleep(Duration),
}

/// A step, as a value.
#[verifier::ext_equal]
pub struct Step {
    pub doing: Doing,
    pub on_reply: OnReply,
}

impl View for InitStep {
    type V = Step;

    open spec fn view(&self) -> Step {
        Step {
            doing: match self.action {
                Action::Send(frame) => Doing::Send {
                    id: frame.id,
                    kind: frame.kind,
                    data: frame.data@,
                },
                Action::AwaitNmt { state, timeout } => Doing::AwaitNmt { state, timeout },
                Action::Upload { index, subindex } => Doing::Upload { index, subindex },
                Action::Download(w) => Doing::Download(w@),
                Action::Sleep(d) => Doing::Sleep(d),
            },
            on_reply: self.on_reply,
        }
    }
}

/// The steps, as values.
pub open spec fn steps(plan: Seq<InitStep>) -> Seq<Step> {
    plan.map_values(|s: InitStep| s@)
}

/// A network management command.
pub open spec fn command(cmd: NmtCommand, nid: u8) -> Step {
    Step {
        doing: Doing::Send {
            id: FrameId::Standard(0x000),
            kind: FrameKind::Data,
            data: command_payload(cmd, nid),
        },
        on_reply: OnReply::Require,
    }
}

/// A write that has to succeed.
pub open spec fn download(w: Write) -> Step {
    Step { doing: Doing::Download(w), on_reply: OnReply::Require }
}

/// A read.
pub open spec fn upload(index: u16, subindex: u8, on_reply: OnReply) -> Step {
    Step { doing: Doing::Upload { index, subindex }, on_reply }
}

/// A pause.
pub open spec fn pause(d: Duration) -> Step {
    Step { doing: Doing::Sleep(d), on_reply: OnReply::Require }
}

/// A wait for a state of the node, for two periods of its heartbeat.
pub open spec fn await_nmt(state: NmtState, opts: Cia402ManagerOptions) -> Step {
    Step {
        doing: Doing::AwaitNmt {
            state,
            timeout: Duration { nanos: (opts.motor_heartbeat_period.nanos * 2) as u128 },
        },
        on_reply: OnReply::Require,
    }
}

/// Writes that have to succeed.
pub open spec fn downloads(writes: Seq<Write>) -> Seq<Step> {
    writes.map_values(|w: Write| download(w))
}

/// The writes of the default configuration of the first transmit PDO.
pub open spec fn tpdo1_default_writes(nid: u8) -> Seq<Write> {
    tpdo_sequence(0, (0x180 + nid) as u16, tpdo1_entries(), tpdo1_comm())
}

/// The writes of the default configuration of the second transmit PDO.
pub open spec fn tpdo2_default_writes(nid: u8) -> Seq<Write> {
    tpdo_sequence(1, (0x280 + nid) as u16, tpdo2_entries(), tpdo2_comm())
}

/// What the motor is told to watch: our heartbeat, with the timeout in whole
/// milliseconds, as far as it fits.
pub open spec fn watched(opts: Cia402ManagerOptions) -> u32 {
    let ms = opts.consumer_heartbeat_timeout.nanos as int / 1_000_000;
    consumer_entry(
        opts.heartbeat_node_id,
        if ms > 65_535 {
            65_535
        } else {
            ms as u16
        },
    )
}

/// The steps up to the started node.
pub open spec fn setup_steps(nid: u8, opts: Cia402ManagerOptions) -> Seq<Step> {
    seq![
        command(NmtCommand::EnterPreOperational, nid),
        await_nmt(NmtState::PreOperational, opts),
        upload(0x6041, 0, OnReply::RequireWord),
    ] + downloads(tpdo1_default_writes(nid)) + downloads(tpdo2_default_writes(nid)) + seq![
        upload(0x6076, 0, OnReply::KeepPeak),
        upload(OD_MIT_CONTROL_PARAM, 7, OnReply::KeepFactor),
        Step {
            doing: Doing::Download(write_u16(OD_MIT_CONTROL_PARAM, 6, 1000)),
            on_reply: OnReply::Ignore,
        },
        command(NmtCommand::StartRemoteNode, nid),
        await_nmt(NmtState::Operational, opts),
    ]
}

/// One attempt to clear a fault: the watch off, the reset bit down, up and
/// down again, the watch on, a wait that is longer than the watch, and a look
/// at the status word.
pub open spec fn attempt_steps(opts: Cia402ManagerOptions) -> Seq<Step> {
    seq![
        download(write_u32(0x1016, 1, 0)),
        download(control_word(CW_DISABLE_VOLTAGE)),
        pause(Duration::millis(FAULT_RESET_SETTLE_MS as int)),
        download(control_word(CW_FAULT_RESET)),
        pause(Duration::millis(FAULT_RESET_SETTLE_MS as int)),
        download(control_word(CW_DISABLE_VOLTAGE)),
        pause(Duration::millis(FAULT_RESET_SETTLE_MS as int)),
        download(write_u32(0x1016, 1, watched(opts))),
        pause(
            Duration {
                nanos: (opts.consumer_heartbeat_timeout.nanos + 100_000_000) as u128,
            },
        ),
        upload(0x6041, 0, OnReply::CheckFault),
    ]
}

/// The steps of so many attempts.
pub open spec fn attempts_steps(opts: Cia402ManagerOptions, n: nat) -> Seq<Step>
    decreases n,
{
    if n == 0 {
        seq![]
    } else {
        attempts_steps(opts, (n - 1) as nat) + attempt_steps(opts)
    }
}

/// How many attempts are made: at least one.
pub open spec fn attempts(opts: Cia402ManagerOptions) -> nat {
    if opts.init_fault_clear_attempts == 0 {
        1
    } else {
        opts.init_fault_clear_attempts as nat
    }
}

/// All steps of initialization.
pub open spec fn init_steps(nid: u8, opts: Cia402ManagerOptions) -> Seq<Step> {
    setup_steps(nid, opts) + attempts_steps(opts, attempts(opts))
}

fn nmt_step(cmd: NmtCommand, nid: u8) -> (r: InitStep)
    ensures
        r@ == command(cmd, nid),
{
    let frame = match build_nmt_command(cmd, nid) {
        Ok(frame) => frame,
        Err(_) => vstd::pervasive::unreached(),
    };
    InitStep { action: Action::Send(frame), on_reply: OnReply::Require }
}

fn await_step(state: NmtState, opts: &Cia402ManagerOptions) -> (r: InitStep)
    requires
        opts.wf(),
    ensures
        r@ == await_nmt(state, *opts),
{
    let timeout = Duration { nanos: opts.motor_heartbeat_period.nanos * 2 };
    InitStep { action: Action::AwaitNmt { state, timeout }, on_reply: OnReply::Require }
}

fn upload_step(index: u16, subindex: u8, on_reply: OnReply) -> (r: InitStep)
    ensures
        r@ == upload(index, subindex, on_reply),
{
    InitStep { action: Action::Upload { index, subindex }, on_reply }
}

fn download_step(w: SdoWrite) -> (r: InitStep)
    ensures
        r@ == download(w@),
{
    InitStep { action: Action::Download(w), on_reply: OnReply::Require }
}

fn pause_step(d: Duration) -> (r: InitStep)
    ensures
        r@ == pause(d),
{
    InitStep { action: Action::Sleep(d), on_reply: OnReply::Require }
}

fn push_downloads(plan: &mut Vec<InitStep>, writes: &Vec<SdoWrite>)
    ensures
        steps(final(plan)@) == steps(old(plan)@) + downloads(views(writes@)),
{
    let mut i: usize = 0;
    assert(steps(plan@) =~= steps(old(plan)@) + downloads(views(writes@.take(0))));
    while i < writes.len()
        invariant
            i <= writes@.len(),
            steps(plan@) == steps(old(plan)@) + downloads(views(writes@.take(i as int))),
        decreases writes@.len() - i,
    {
        let ghost before = plan@;
        let step = download_step(writes[i].clone());
        plan.push(step);
        proof {
            assert(steps(plan@) =~= steps(before).push(step@));
            assert(downloads(views(writes@.take(i + 1))) =~= downloads(
                views(writes@.take(i as int)),
            ).push(step@));
            assert(steps(plan@) =~= steps(old(plan)@) + downloads(views(writes@.take(i + 1))));
        }
        i = i + 1;
    }
    assert(writes@.take(i as int) =~= writes@);
}

fn setup_plan(nid: u8, opts: &Cia402ManagerOptions) -> (r: Vec<InitStep>)
    requires
        opts.wf(),
    ensures
        steps(r@) == setup_steps(nid, *opts),
{
    let mut plan: Vec<InitStep> = Vec::new();
    plan.push(nmt_step(NmtCommand::EnterPreOperational, nid));
    plan.push(await_step(NmtState::PreOperational, opts));
    plan.push(upload_step(0x6041, 0, OnReply::RequireWord));
    let ghost first = seq![
        command(NmtCommand::EnterPreOperational, nid),
        await_nmt(NmtState::PreOperational, *opts),
        upload(0x6041, 0, OnReply::RequireWord),
    ];
    assert(steps(plan@) =~= first);
    match build_tpdo_config_writes(&default_tpdo1_recipe(nid)) {
        Ok(writes) => push_downloads(&mut plan, &writes),
        Err(_) => vstd::pervasive::unreached(),
    }
    match build_tpdo_config_writes(&default_tpdo2_recipe(nid)) {
        Ok(writes) => push_downloads(&mut plan, &writes),
        Err(_) => vstd::pervasive::unreached(),
    }
    let ghost mapped = steps(plan@);
    assert(mapped == first + downloads(tpdo1_default_writes(nid)) + downloads(
        tpdo2_default_writes(nid),
    ));
    plan.push(upload_step(0x6076, 0, OnReply::KeepPeak));
    plan.push(upload_step(OD_MIT_CONTROL_PARAM, 7, OnReply::KeepFactor));
    plan.push(
        InitStep {
            action: Action::Download(SdoWrite::u16(OD_MIT_CONTROL_PARAM, 6, 1000)),
            on_reply: OnReply::Ignore,
        },
    );
    plan.push(nmt_step(NmtCommand::StartRemoteNode, nid));
    plan.push(await_step(NmtState::Operational, opts));
    assert(steps(plan@).take(mapped.len() as int) =~= mapped);
    assert(steps(plan@) =~= setup_steps(nid, *opts));
    plan
}

fn push_attempt(plan: &mut Vec<InitStep>, opts: &Cia402ManagerOptions)
    requires
        opts.wf(),
    ensures
        steps(final(plan)@) == steps(old(plan)@) + attempt_steps(*opts),
{
    let ms: u128 = opts.consumer_heartbeat_timeout.as_millis();
    let timeout_ms: u16 = if ms > 65_535 {
        65_535
    } else {
        ms as u16
    };
    let consumer = encode_consumer_heartbeat_entry(opts.heartbeat_node_id, timeout_ms);
    let settle = Duration::from_millis(FAULT_RESET_SETTLE_MS);
    let verify_wait = Duration { nanos: opts.consumer_heartbeat_timeout.nanos + 100_000_000 };
    let ghost before = steps(plan@);
    plan.push(download_step(SdoWrite::u32(0x1016, 1, 0)));
    plan.push(download_step(SdoWrite::u16(OD_CONTROL_WORD, 0, CW_DISABLE_VOLTAGE)));
    plan.push(pause_step(settle));
    plan.push(download_step(SdoWrite::u16(OD_CONTROL_WORD, 0, CW_FAULT_RESET)));
    plan.push(pause_step(settle));
    plan.push(download_step(SdoWrite::u16(OD_CONTROL_WORD, 0, CW_DISABLE_VOLTAGE)));
    plan.push(pause_step(settle));
    plan.push(download_step(SdoWrite::u32(0x1016, 1, consumer)));
    plan.push(pause_step(verify_wait));
    plan.push(upload_step(0x6041, 0, OnReply::CheckFault));
    assert(steps(plan@).take(before.len() as int) =~= before);
    assert(steps(plan@) =~= before + attempt_steps(*opts));
}

/// The reply to an action.
#[derive(Debug)]
pub enum Reply<'a> {
    /// It succeeded.
    Done,
    /// It succeeded and brought this.
    Data(&'a [u8]),
    /// It failed.
    Failed,
}

/// What comes of a reply.
#[derive(Debug)]
pub enum Progress {
    /// On to the next step.
    Next,
    /// The peak torque; on to the next step.
    Peak(Real32),
    /// The gain factor; on to the next step.
    Factor(Real32),
    /// All is done: there is no fault.
    Cleared,
    /// Initialization has failed; without an error of its own, with that of
    /// the action.
    Stop(Option<Error>),
}

/// A course of initialization.
#[derive(Debug)]
pub struct InitializeRun {
    nid: u8,
    attempts: u8,
    plan: Vec<InitStep>,
    at: usize,
}

/// The message when no attempt has cleared the fault.
pub open spec fn not_cleared(nid: u8, attempts: nat) -> Seq<char> {
    node_text(nid) + ": could not clear heartbeat/CiA402 fault after "@ + decimal(attempts)
        + " attempts; motor may need a power cycle"@
}

/// The reply is a status word without a fault.
pub open spec fn shows_no_fault(reply: Reply) -> bool {
    reply matches Reply::Data(d) && d@.len() >= 2 && !has_fault(value16(d@, 0))
}

/// Whether the course goes on after this reply to this step, other than a
/// check for a fault.
pub open spec fn goes_on(step: Step, reply: Reply) -> bool {
    match step.on_reply {
        OnReply::Require => !(reply is Failed),
        OnReply::RequireWord => reply matches Reply::Data(d) && d@.len() >= 2,
        _ => true,
    }
}

impl InitializeRun {
    /// The node.
    pub closed spec fn node(self) -> u8 {
        self.nid
    }

    /// How many attempts are made.
    pub closed spec fn rounds(self) -> nat {
        self.attempts as nat
    }

    /// The steps.
    pub closed spec fn plan(self) -> Seq<Step> {
        steps(self.plan@)
    }

    /// How many steps have been made.
    pub closed spec fn position(self) -> nat {
        self.at as nat
    }

    /// There is something to do, and the last thing is to check for a fault.
    pub open spec fn wf(self) -> bool {
        &&& self.position() < self.plan().len()
        &&& self.plan().last().on_reply is CheckFault
    }

    /// `self` is on the same course as `other`.
    pub open spec fn same_course(self, other: InitializeRun) -> bool {
        &&& self.node() == other.node()
        &&& self.rounds() == other.rounds()
        &&& self.plan() == other.plan()
    }

    /// Begins a course for a node.
    pub fn new(nid: u8, opts: &Cia402ManagerOptions) -> (r: Self)
        requires
            opts.wf(),
        ensures
            r.node() == nid,
            r.rounds() == attempts(*opts),
            r.plan() == init_steps(nid, *opts),
            r.position() == 0,
            r.wf(),
    {
        let mut plan = setup_plan(nid, opts);
        let n: u8 = if opts.init_fault_clear_attempts == 0 {
            1
        } else {
            opts.init_fault_clear_attempts
        };
        let mut i: u8 = 0;
        assert(steps(plan@) =~= setup_steps(nid, *opts) + attempts_steps(*opts, 0));
        while i < n
            invariant
                i <= n,
                opts.wf(),
                steps(plan@) == setup_steps(nid, *opts) + attempts_steps(*opts, i as nat),
            decreases n - i,
        {
            push_attempt(&mut plan, opts);
            assert(steps(plan@) =~= setup_steps(nid, *opts) + attempts_steps(
                *opts,
                (i + 1) as nat,
            ));
            i = i + 1;
        }
        assert(steps(plan@).last() == attempt_steps(*opts).last());
        InitializeRun { nid, attempts: n, plan, at: 0 }
    }

    /// What to do next.
    pub fn action(&self) -> (r: &InitStep)
        requires
            self.wf(),
        ensures
            r@ == self.plan()[self.position() as int],
    {
        &self.plan[self.at]
    }

    /// Takes the reply to the last action.
    pub fn reply(&mut self, reply: Reply) -> (r: Progress)
        requires
            old(self).wf(),
        ensures
            final(self).wf(),
            final(self).same_course(*old(self)),
            ({
                let step = old(self).plan()[old(self).position() as int];
                let last = old(self).position() + 1 == old(self).plan().len();
                let moved = final(self).position() == old(self).position() + 1;
                let stays = final(self).position() == old(self).position();
                match step.on_reply {
                    OnReply::Require => if goes_on(step, reply) {
                        r is Next && moved
                    } else {
                        r == Progress::Stop(None) && stays
                    },
                    OnReply::RequireWord => if goes_on(step, reply) {
                        r is Next && moved
                    } else {
                        &&& stays
                        &&& r matches Progress::Stop(e)
                        &&& match reply {
                            Reply::Data(d) => e matches Some(e) && e.says(
                                too_short("expected 2 bytes"@, 0x6041, 0, d@.len()),
                            ),
                            _ => e is None,
                        }
                    },
                    OnReply::Ignore => r is Next && moved,
                    OnReply::KeepPeak => moved && if reply matches Reply::Data(d) && d@.len() >= 4 {
                        r == Progress::Peak(Real32 { bits: value32(reply->Data_0@, 0) })
                    } else {
                        r is Next
                    },
                    OnReply::KeepFactor => moved && if reply matches Reply::Data(d) && d@.len() >= 4 {
                        r == Progress::Factor(Real32 { bits: value32(reply->Data_0@, 0) })
                    } else {
                        r is Next
                    },
                    OnReply::CheckFault => if shows_no_fault(reply) {
                        r is Cleared && stays
                    } else if last {
                        &&& stays
                        &&& r matches Progress::Stop(Some(e))
                        &&& e.says(not_cleared(old(self).node(), old(self).rounds()))
                    } else {
                        r is Next && moved
                    },
                }
            }),
    {
        let n = self.plan.len();
        let on_reply = self.plan[self.at].on_reply;
        match on_reply {
            OnReply::Require => match reply {
                Reply::Failed => Progress::Stop(None),
                _ => {
                    self.at = self.at + 1;
                    Progress::Next
                },
            },
            OnReply::RequireWord => match reply {
                Reply::Data(d) => match decode_u16(d, 0x6041, 0) {
                    Ok(_) => {
                        self.at = self.at + 1;
                        Progress::Next
                    },
                    Err(e) => Progress::Stop(Some(e)),
                },
                _ => Progress::Stop(None),
            },
            OnReply::Ignore => {
                self.at = self.at + 1;
                Progress::Next
            },
            OnReply::KeepPeak => {
                self.at = self.at + 1;
                match reply {
                    Reply::Data(d) => match decode_real32(d, 0x6076, 0) {
                        Ok(peak) => Progress::Peak(peak),
                        Err(_) => Progress::Next,
                    },
                    _ => Progress::Next,
                }
            },
            OnReply::KeepFactor => {
                self.at = self.at + 1;
                match reply {
                    Reply::Data(d) => match decode_real32(d, OD_MIT_CONTROL_PARAM, 7) {
                        Ok(factor) => Progress::Factor(factor),
                        Err(_) => Progress::Next,
                    },
                    _ => Progress::Next,
                }
            },
            OnReply::CheckFault => {
                let cleared = match reply {
                    Reply::Data(d) => match decode_u16(d, 0x6041, 0) {
                        Ok(sw) => !status_word_has_fault(sw),
                        Err(_) => false,
                    },
                    _ => false,
                };
                if cleared {
                    return Progress::Cleared;
                }
                if self.at + 1 < n {
                    self.at = self.at + 1;
                    return Progress::Next;
                }
                let mut text = node_message(self.nid);
                text.append(": could not clear heartbeat/CiA402 fault after ");
                push_decimal(&mut text, self.attempts as u64);
                text.append(" attempts; motor may need a power cycle");
                Progress::Stop(Some(Error::Internal(text)))
            },
        }
    }
}

/// What comes of a look at something that is waited for.
#[derive(Debug)]
pub enum Poll {
    /// It is there.
    Reached,
    /// Look again after this time.
    Wait(Duration),
    /// It is given up.
    GivenUp(Error),
}

/// The state that was last reported, in words.
pub open spec fn observed_text(observed: Option<NmtState>) -> Seq<char> {
    match observed {
        Some(state) => "Some("@ + state.text() + ")"@,
        None => "None"@,
    }
}

/// The message when a node does not report a state in time.
pub open spec fn nmt_timeout_text(nid: u8, target: NmtState, observed: Option<NmtState>) -> Seq<
    char,
> {
    node_text(nid) + ": timeout waiting NMT "@ + target.text() + " (last observed "@
        + observed_text(observed) + ")"@
}

/// A look at the state that a node reports. The first look is made before the
/// deadline is set.
pub fn poll_nmt_state(
    nid: u8,
    target: NmtState,
    observed: Option<NmtState>,
    now: Instant,
    deadline: Option<Instant>,
) -> (r: Poll)
    ensures
        if observed == Some(target) {
            r is Reached
        } else if deadline is Some && now.nanos >= deadline->0.nanos {
            r matches Poll::GivenUp(e) && e.says(nmt_timeout_text(nid, target, observed))
        } else {
            r == Poll::Wait(Duration::millis(NMT_POLL_MS as int))
        },
{
    if let Some(state) = observed {
        if state == target {
            return Poll::Reached;
        }
    }
    let expired = match deadline {
        Some(deadline) => now.nanos >= deadline.nanos,
        None => false,
    };
    if !expired {
        return Poll::Wait(Duration::from_millis(NMT_POLL_MS));
    }
    let mut text = node_message(nid);
    text.append(": timeout waiting NMT ");
    text.append(target.name());
    text.append(" (last observed ");
    match observed {
        Some(state) => {
            text.append("Some(");
            text.append(state.name());
            text.append(")");
        },
        None => {
            text.append("None");
        },
    }
    text.append(")");
    assert(text@ =~= nmt_timeout_text(nid, target, observed));
    Poll::GivenUp(Error::Internal(text))
}

/// The writes among the steps, in order.
pub open spec fn writes_of(plan: Seq<Step>) -> Seq<Write>
    decreases plan.len(),
{
    if plan.len() == 0 {
        seq![]
    } else {
        match plan.last().doing {
            Doing::Download(w) => writes_of(plan.drop_last()).push(w),
            _ => writes_of(plan.drop_last()),
        }
    }
}

proof fn writes_of_both(a: Seq<Step>, b: Seq<Step>)
    ensures
        writes_of(a + b) == writes_of(a) + writes_of(b),
    decreases b.len(),
{
    if b.len() == 0 {
        assert(a + b =~= a);
        assert(writes_of(a) + writes_of(b) =~= writes_of(a));
    } else {
        assert((a + b).drop_last() =~= a + b.drop_last());
        writes_of_both(a, b.drop_last());
        assert(writes_of(a + b) =~= writes_of(a) + writes_of(b));
    }
}

proof fn writes_of_downloads(writes: Seq<Write>)
    ensures
        writes_of(downloads(writes)) == writes,
    decreases writes.len(),
{
    if writes.len() == 0 {
        assert(writes_of(downloads(writes)) =~= writes);
    } else {
        assert(downloads(writes).drop_last() =~= downloads(writes.drop_last()));
        writes_of_downloads(writes.drop_last());
        assert(writes =~= writes.drop_last().push(writes.last()));
    }
}

/// The writes of one attempt.
pub open spec fn attempt_writes(opts: Cia402ManagerOptions) -> Seq<Write> {
    seq![
        write_u32(0x1016, 1, 0),
        control_word(CW_DISABLE_VOLTAGE),
        control_word(CW_FAULT_RESET),
        control_word(CW_DISABLE_VOLTAGE),
        write_u32(0x1016, 1, watched(opts)),
    ]
}

proof fn writes_of_attempt(opts: Cia402ManagerOptions)
    ensures
        writes_of(attempt_steps(opts)) == attempt_writes(opts),
{
    let s = attempt_steps(opts);
    reveal_with_fuel(writes_of, 11);
    assert(s.drop_last() =~= s.take(9));
    assert(s.take(9).drop_last() =~= s.take(8));
    assert(s.take(8).drop_last() =~= s.take(7));
    assert(s.take(7).drop_last() =~= s.take(6));
    assert(s.take(6).drop_last() =~= s.take(5));
    assert(s.take(5).drop_last() =~= s.take(4));
    assert(s.take(4).drop_last() =~= s.take(3));
    assert(s.take(3).drop_last() =~= s.take(2));
    assert(s.take(2).drop_last() =~= s.take(1));
    assert(s.take(1).drop_last() =~= s.take(0));
    assert(writes_of(s) =~= attempt_writes(opts));
}

proof fn writes_of_parts(a: Seq<Step>, w1: Seq<Write>, w2: Seq<Write>, d: Seq<Step>)
    ensures
        writes_of(a + downloads(w1) + downloads(w2) + d) == writes_of(a) + w1 + w2 + writes_of(d),
{
    writes_of_both(a + downloads(w1) + downloads(w2), d);
    writes_of_both(a + downloads(w1), downloads(w2));
    writes_of_both(a, downloads(w1));
    writes_of_downloads(w1);
    writes_of_downloads(w2);
}

proof fn writes_of_three(s: Seq<Step>)
    requires
        s.len() == 3,
        !(s[0].doing is Download),
        !(s[1].doing is Download),
        !(s[2].doing is Download),
    ensures
        writes_of(s) == Seq::<Write>::empty(),
{
    reveal_with_fuel(writes_of, 4);
    assert(s.drop_last() =~= s.take(2));
    assert(s.take(2).drop_last() =~= s.take(1));
    assert(s.take(1).drop_last() =~= s.take(0));
}

proof fn writes_of_five(s: Seq<Step>, w: Write)
    requires
        s.len() == 5,
        !(s[0].doing is Download),
        !(s[1].doing is Download),
        s[2].doing == Doing::Download(w),
        !(s[3].doing is Download),
        !(s[4].doing is Download),
    ensures
        writes_of(s) == seq![w],
{
    reveal_with_fuel(writes_of, 6);
    assert(s.drop_last() =~= s.take(4));
    assert(s.take(4).drop_last() =~= s.take(3));
    assert(s.take(3).drop_last() =~= s.take(2));
    assert(s.take(2).drop_last() =~= s.take(1));
    assert(s.take(1).drop_last() =~= s.take(0));
    assert(writes_of(s) =~= seq![w]);
}

proof fn writes_of_setup(nid: u8, opts: Cia402ManagerOptions)
    ensures
        writes_of(setup_steps(nid, opts)) == tpdo1_default_writes(nid) + tpdo2_default_writes(nid)
            + seq![write_u16(OD_MIT_CONTROL_PARAM, 6, 1000)],
{
    let w1 = tpdo1_default_writes(nid);
    let w2 = tpdo2_default_writes(nid);
    let w = write_u16(OD_MIT_CONTROL_PARAM, 6, 1000);
    let a = seq![
        command(NmtCommand::EnterPreOperational, nid),
        await_nmt(NmtState::PreOperational, opts),
        upload(0x6041, 0, OnReply::RequireWord),
    ];
    let d = seq![
        upload(0x6076, 0, OnReply::KeepPeak),
        upload(OD_MIT_CONTROL_PARAM, 7, OnReply::KeepFactor),
        Step { doing: Doing::Download(w), on_reply: OnReply::Ignore },
        command(NmtCommand::StartRemoteNode, nid),
        await_nmt(NmtState::Operational, opts),
    ];
    writes_of_three(a);
    writes_of_five(d, w);
    writes_of_parts(a, w1, w2, d);
    assert(Seq::<Write>::empty() + w1 =~= w1);
}

/// A motor holds the default configuration of both transmit PDOs.
pub open spec fn holds_defaults(od: Dictionary, nid: u8) -> bool {
    &&& holds_tpdo(od, 0, (0x180 + nid) as u16, tpdo1_entries(), tpdo1_comm())
    &&& holds_tpdo(od, 1, (0x280 + nid) as u16, tpdo2_entries(), tpdo2_comm())
}

/// The entries that belong to the two transmit PDOs.
pub open spec fn of_default_pdos(key: (u16, u8)) -> bool {
    key.0 == 0x1800 || key.0 == 0x1801 || key.0 == 0x1A00 || key.0 == 0x1A01
}

proof fn defaults_stay(od: Dictionary, new: Dictionary, nid: u8)
    requires
        holds_defaults(od, nid),
        forall|key: (u16, u8)| #[trigger] of_default_pdos(key) ==> new[key] == od[key],
    ensures
        holds_defaults(new, nid),
{
    assert forall|i: u16, s: u8| i == 0x1800 || i == 0x1801 || i == 0x1A00 || i
        == 0x1A01 implies #[trigger] new[(i, s)] == od[(i, s)] by {
        assert(of_default_pdos((i, s)));
    }
}

proof fn setup_configures(before: Dictionary, nid: u8, opts: Cia402ManagerOptions)
    ensures
        holds_defaults(written(before, writes_of(setup_steps(nid, opts))), nid),
{
    let w1 = tpdo1_default_writes(nid);
    let w2 = tpdo2_default_writes(nid);
    let w3 = seq![write_u16(OD_MIT_CONTROL_PARAM, 6, 1000)];
    writes_of_setup(nid, opts);
    written_in_turn(before, w1 + w2, w3);
    written_in_turn(before, w1, w2);
    let od1 = written(before, w1);
    let od2 = written(od1, w2);
    let od3 = written(od2, w3);
    tpdo_is_configured(before, 0, (0x180 + nid) as u16, tpdo1_entries(), tpdo1_comm());
    tpdo_is_configured(od1, 1, (0x280 + nid) as u16, tpdo2_entries(), tpdo2_comm());
    assert forall|s: u8| #[trigger] od2[(0x1800u16, s)] == od1[(0x1800u16, s)] by {
        unwritten_stays(od1, w2, (0x1800u16, s));
    }
    assert forall|s: u8| #[trigger] od2[(0x1A00u16, s)] == od1[(0x1A00u16, s)] by {
        unwritten_stays(od1, w2, (0x1A00u16, s));
    }
    assert(holds_defaults(od2, nid));
    assert forall|key: (u16, u8)| #[trigger] of_default_pdos(key) implies od3[key] == od2[key] by {
        unwritten_stays(od2, w3, key);
    }
    defaults_stay(od2, od3, nid);
}

/// Whatever a motor held before: when an attempt has been made, the first or
/// any later one, it holds the configuration of the PDOs, watches for our
/// heartbeat, and its control word is back at rest.
pub proof fn attempt_leaves_motor_configured(
    before: Dictionary,
    nid: u8,
    opts: Cia402ManagerOptions,
    n: nat,
)
    requires
        n >= 1,
    ensures
        ({
            let od = written(before, writes_of(setup_steps(nid, opts) + attempts_steps(opts, n)));
            &&& holds_defaults(od, nid)
            &&& od[(0x1016u16, 1u8)] == write_u32(0x1016, 1, watched(opts)).data
            &&& od[(OD_CONTROL_WORD, 0u8)] == control_word(CW_DISABLE_VOLTAGE).data
        }),
    decreases n,
{
    let setup = setup_steps(nid, opts);
    let earlier = attempts_steps(opts, (n - 1) as nat);
    let w = attempt_writes(opts);
    assert(setup + attempts_steps(opts, n) =~= (setup + earlier) + attempt_steps(opts));
    writes_of_both(setup + earlier, attempt_steps(opts));
    writes_of_attempt(opts);
    written_in_turn(before, writes_of(setup + earlier), w);
    let od = written(before, writes_of(setup + earlier));
    if n == 1 {
        assert(setup + earlier =~= setup);
        setup_configures(before, nid, opts);
    } else {
        attempt_leaves_motor_configured(before, nid, opts, (n - 1) as nat);
    }
    assert forall|key: (u16, u8)| #[trigger] of_default_pdos(key) implies written(od, w)[key]
        == od[key] by {
        unwritten_stays(od, w, key);
    }
    defaults_stay(od, written(od, w), nid);
    last_write_stays(od, w, 4);
    last_write_stays(od, w, 3);
}

/// How many checks for a fault there are among the steps.
pub open spec fn checks_in(plan: Seq<Step>) -> nat
    decreases plan.len(),
{
    if plan.len() == 0 {
        0
    } else {
        checks_in(plan.drop_last()) + if plan.last().on_reply is CheckFault {
            1nat
        } else {
            0nat
        }
    }
}

proof fn checks_in_both(a: Seq<Step>, b: Seq<Step>)
    ensures
        checks_in(a + b) == checks_in(a) + checks_in(b),
    decreases b.len(),
{
    if b.len() == 0 {
        assert(a + b =~= a);
    } else {
        assert((a + b).drop_last() =~= a + b.drop_last());
        checks_in_both(a, b.drop_last());
    }
}

proof fn no_checks(plan: Seq<Step>)
    requires
        forall|i: int| 0 <= i < plan.len() ==> !((#[trigger] plan[i]).on_reply is CheckFault),
    ensures
        checks_in(plan) == 0,
    decreases plan.len(),
{
    if plan.len() > 0 {
        assert(!(plan[plan.len() - 1].on_reply is CheckFault));
        no_checks(plan.drop_last());
    }
}

proof fn checks_in_attempts(opts: Cia402ManagerOptions, n: nat)
    ensures
        checks_in(attempts_steps(opts, n)) == n,
    decreases n,
{
    if n > 0 {
        let s = attempt_steps(opts);
        checks_in_attempts(opts, (n - 1) as nat);
        checks_in_both(attempts_steps(opts, (n - 1) as nat), s);
        no_checks(s.drop_last());
        assert(checks_in(s) == 1);
    }
}

/// The fault is checked for once in each attempt, and never before: at most as
/// many times as attempts are allowed, but at least once.
pub proof fn checks_are_bounded(nid: u8, opts: Cia402ManagerOptions)
    ensures
        checks_in(init_steps(nid, opts)) == attempts(opts),
        1 <= attempts(opts) <= 255,
        attempts(opts) >= opts.init_fault_clear_attempts,
{
    checks_in_both(setup_steps(nid, opts), attempts_steps(opts, attempts(opts)));
    checks_in_attempts(opts, attempts(opts));
    no_checks(setup_steps(nid, opts));
}

/// The motor is told to watch for our heartbeat, and its control word is
/// touched, only after it has reported that it is operational.
pub proof fn operational_comes_first(nid: u8, opts: Cia402ManagerOptions, at: int)
    requires
        0 <= at < init_steps(nid, opts).len(),
        init_steps(nid, opts)[at].doing matches Doing::Download(w) && (w.index == 0x1016 || w.index
            == OD_CONTROL_WORD),
    ensures
        exists|earlier: int|
            0 <= earlier < at && #[trigger] init_steps(nid, opts)[earlier] == await_nmt(
                NmtState::Operational,
                opts,
            ),
{
    let setup = setup_steps(nid, opts);
    let plan = init_steps(nid, opts);
    let last = setup.len() - 1;
    assert(plan[last] == setup[last]);
    if at < setup.len() {
        assert(plan[at] == setup[at]);
        let w1 = tpdo1_default_writes(nid);
        let w2 = tpdo2_default_writes(nid);
        let b = 3 + w1.len();
        let c = b + w2.len();
        if at < 3 {
        } else if at < b {
            assert(setup[at] == download(w1[at - 3]));
        } else if at < c {
            assert(setup[at] == download(w2[at - b]));
        }
        assert(false);
    }
}

/// The default PDOs have the identifiers of the first and second transmit PDO
/// of the node.
pub proof fn defaults_have_their_cob_ids(nid: u8)
    requires
        1 <= nid <= 127,
    ensures
        CommunicationObject::Tpdo1.cob_id_of(nid) == Ok::<u16, Error>((0x180 + nid) as u16),
        CommunicationObject::Tpdo2.cob_id_of(nid) == Ok::<u16, Error>((0x280 + nid) as u16),
{
}

/// The default mappings put each value where it is read: the first PDO is 12
/// bytes long with its values at bytes 0, 4, 8 and 10, the second 10 bytes with
/// its values at every second byte.
pub proof fn defaults_match_the_reading()
    ensures
        bits(tpdo1_entries()) == 8 * 12,
        bits(tpdo1_entries().take(1)) == 8 * 4,
        bits(tpdo1_entries().take(2)) == 8 * 8,
        bits(tpdo1_entries().take(3)) == 8 * 10,
        bits(tpdo2_entries()) == 8 * 10,
        forall|i: int| 0 <= i <= 5 ==> bits(#[trigger] tpdo2_entries().take(i)) == 8 * (2 * i),
{
    default_lengths();
    let e = tpdo1_entries();
    assert(e.take(1).drop_last() =~= e.take(0));
    assert(e.take(2).drop_last() =~= e.take(1));
    assert(e.take(3).drop_last() =~= e.take(2));
    assert(bits(e.take(0)) == 0);
    assert(bits(e.take(1)) == 32);
    assert(bits(e.take(2)) == 64);
    let f = tpdo2_entries();
    assert(f.take(1).drop_last() =~= f.take(0));
    assert(f.take(2).drop_last() =~= f.take(1));
    assert(f.take(3).drop_last() =~= f.take(2));
    assert(f.take(4).drop_last() =~= f.take(3));
    assert(f.take(5).drop_last() =~= f.take(4));
    assert(bits(f.take(0)) == 0);
    assert(bits(f.take(1)) == 16);
    assert(bits(f.take(2)) == 32);
    assert(bits(f.take(3)) == 48);
    assert(bits(f.take(4)) == 64);
    assert(bits(f.take(5)) == 80);
}

proof fn default_lengths()
    ensures
        bits(tpdo1_entries()) == 96,
        bits(tpdo2_entries()) == 80,
{
    reveal_with_fuel(bits, 6);
}

proof fn setup_leaves(before: Dictionary, nid: u8, opts: Cia402ManagerOptions)
    ensures
        ({
            let od = written(before, writes_of(setup_steps(nid, opts)));
            &&& od[(0x1800u16, 1u8)] == le32((0x4000_0180 + nid) as u32)
            &&& od[(0x1800u16, 2u8)] == seq![255u8]
            &&& od[(0x1800u16, 3u8)] == le16(5)
            &&& od[(0x1800u16, 5u8)] == le16(1)
            &&& od[(0x1A00u16, 0u8)] == seq![4u8]
            &&& od[(0x1A00u16, 1u8)] == le32(0x6064_0020)
            &&& od[(0x1A00u16, 2u8)] == le32(0x1013_0020)
            &&& od[(0x1A00u16, 3u8)] == le32(0x6077_0010)
            &&& od[(0x1A00u16, 4u8)] == le32(0x603F_0010)
            &&& od[(0x1801u16, 1u8)] == le32((0x4000_0280 + nid) as u32)
            &&& od[(0x1801u16, 2u8)] == seq![255u8]
            &&& od[(0x1801u16, 3u8)] == le16(190)
            &&& od[(0x1801u16, 5u8)] == le16(20)
            &&& od[(0x1A01u16, 0u8)] == seq![5u8]
            &&& od[(0x1A01u16, 1u8)] == le32(0x6041_0010)
            &&& od[(0x1A01u16, 2u8)] == le32(0x2204_0110)
            &&& od[(0x1A01u16, 3u8)] == le32(0x2204_0210)
            &&& od[(0x1A01u16, 4u8)] == le32(0x6040_0010)
            &&& od[(0x1A01u16, 5u8)] == le32(0x603F_0010)
            &&& od[(0x2003u16, 6u8)] == le16(1000)
            &&& forall|key: (u16, u8)|
                !of_default_pdos(key) && key != (0x2003u16, 6u8) ==> #[trigger] od[key]
                    == before[key]
        }),
{
    let w1 = tpdo1_default_writes(nid);
    let w2 = tpdo2_default_writes(nid);
    let w3 = seq![write_u16(OD_MIT_CONTROL_PARAM, 6, 1000)];
    let e1 = tpdo1_entries();
    let e2 = tpdo2_entries();
    writes_of_setup(nid, opts);
    written_in_turn(before, w1 + w2, w3);
    written_in_turn(before, w1, w2);
    let od1 = written(before, w1);
    let od2 = written(od1, w2);
    let od3 = written(od2, w3);
    tpdo_entries_after_the_writes(before, 0, (0x180 + nid) as u16, e1, tpdo1_comm());
    tpdo_entries_after_the_writes(od1, 1, (0x280 + nid) as u16, e2, tpdo2_comm());
    assert(e1.len() == 4 && e2.len() == 5);
    assert(od1[(0x1A00u16, 1u8)] == le32(0x6064_0020)) by {
        assert(e1[0].index == 0x6064);
    }
    assert(od1[(0x1A00u16, 2u8)] == le32(0x1013_0020)) by {
        assert(e1[1].index == 0x1013);
    }
    assert(od1[(0x1A00u16, 3u8)] == le32(0x6077_0010)) by {
        assert(e1[2].index == 0x6077);
    }
    assert(od1[(0x1A00u16, 4u8)] == le32(0x603F_0010)) by {
        assert(e1[3].index == 0x603F);
    }
    assert(od2[(0x1A01u16, 1u8)] == le32(0x6041_0010)) by {
        assert(e2[0].index == 0x6041);
    }
    assert(od2[(0x1A01u16, 2u8)] == le32(0x2204_0110)) by {
        assert(e2[1].index == 0x2204);
    }
    assert(od2[(0x1A01u16, 3u8)] == le32(0x2204_0210)) by {
        assert(e2[2].index == 0x2204);
    }
    assert(od2[(0x1A01u16, 4u8)] == le32(0x6040_0010)) by {
        assert(e2[3].index == 0x6040);
    }
    assert(od2[(0x1A01u16, 5u8)] == le32(0x603F_0010)) by {
        assert(e2[4].index == 0x603F);
    }
    assert forall|key: (u16, u8)| key != (0x2003u16, 6u8) implies #[trigger] od3[key]
        == od2[key] by {
        unwritten_stays(od2, w3, key);
    }
    last_write_stays(od2, w3, 0);
}

proof fn attempts_leave(before: Dictionary, opts: Cia402ManagerOptions, n: nat)
    ensures
        ({
            let od = written(before, writes_of(attempts_steps(opts, n)));
            &&& n >= 1 ==> od[(0x1016u16, 1u8)] == le32(watched(opts))
            &&& n >= 1 ==> od[(0x6040u16, 0u8)] == seq![0u8, 0u8]
            &&& forall|key: (u16, u8)|
                key != (0x1016u16, 1u8) && key != (0x6040u16, 0u8) ==> #[trigger] od[key]
                    == before[key]
        }),
    decreases n,
{
    if n > 0 {
        let earlier = attempts_steps(opts, (n - 1) as nat);
        let w = attempt_writes(opts);
        attempts_leave(before, opts, (n - 1) as nat);
        writes_of_both(earlier, attempt_steps(opts));
        writes_of_attempt(opts);
        written_in_turn(before, writes_of(earlier), w);
        let od = written(before, writes_of(earlier));
        last_write_stays(od, w, 4);
        last_write_stays(od, w, 3);
        assert(le16(0) =~= seq![0u8, 0u8]);
        assert forall|key: (u16, u8)|
            key != (0x1016u16, 1u8) && key != (0x6040u16, 0u8) implies #[trigger] written(
            od,
            w,
        )[key] == od[key] by {
            unwritten_stays(od, w, key);
        }
    }
}

/// What a motor holds after any attempt of its initialization, whatever it held
/// before. The first PDO carries position, time, torque and fault code, every
/// ms; the second status word, the two temperatures, control word and fault
/// code, every 20 ms; each under its identifier. The torque limit of the gains
/// is 1000. The motor watches the heartbeat of our node for as many ms as were
/// set, at most 65535, and its control word is 0. Nothing else is touched.
pub proof fn motor_holds_its_initialization(
    before: Dictionary,
    nid: u8,
    opts: Cia402ManagerOptions,
    n: nat,
)
    requires
        n >= 1,
    ensures
        ({
            let od = written(before, writes_of(setup_steps(nid, opts) + attempts_steps(opts, n)));
            let ms = opts.consumer_heartbeat_timeout.nanos as int / 1_000_000;
            &&& od[(0x1800u16, 1u8)] == le32((0x4000_0180 + nid) as u32)
            &&& od[(0x1800u16, 2u8)] == seq![255u8]
            &&& od[(0x1800u16, 3u8)] == le16(5)
            &&& od[(0x1800u16, 5u8)] == le16(1)
            &&& od[(0x1A00u16, 0u8)] == seq![4u8]
            &&& od[(0x1A00u16, 1u8)] == le32(0x6064_0020)
            &&& od[(0x1A00u16, 2u8)] == le32(0x1013_0020)
            &&& od[(0x1A00u16, 3u8)] == le32(0x6077_0010)
            &&& od[(0x1A00u16, 4u8)] == le32(0x603F_0010)
            &&& od[(0x1801u16, 1u8)] == le32((0x4000_0280 + nid) as u32)
            &&& od[(0x1801u16, 2u8)] == seq![255u8]
            &&& od[(0x1801u16, 3u8)] == le16(190)
            &&& od[(0x1801u16, 5u8)] == le16(20)
            &&& od[(0x1A01u16, 0u8)] == seq![5u8]
            &&& od[(0x1A01u16, 1u8)] == le32(0x6041_0010)
            &&& od[(0x1A01u16, 2u8)] == le32(0x2204_0110)
            &&& od[(0x1A01u16, 3u8)] == le32(0x2204_0210)
            &&& od[(0x1A01u16, 4u8)] == le32(0x6040_0010)
            &&& od[(0x1A01u16, 5u8)] == le32(0x603F_0010)
            &&& od[(0x2003u16, 6u8)] == le16(1000)
            &&& ms <= 65_535 ==> od[(0x1016u16, 1u8)] == le32(
                (0x1_0000 * opts.heartbeat_node_id + ms) as u32,
            )
            &&& ms > 65_535 ==> od[(0x1016u16, 1u8)] == le32(
                (0x1_0000 * opts.heartbeat_node_id + 65_535) as u32,
            )
            &&& od[(0x6040u16, 0u8)] == seq![0u8, 0u8]
            &&& forall|key: (u16, u8)|
                key.0 != 0x1800 && key.0 != 0x1801 && key.0 != 0x1A00 && key.0 != 0x1A01 && key != (
                0x2003u16,
                6u8,
                ) && key != (0x1016u16, 1u8) && key != (0x6040u16, 0u8) ==> #[trigger] od[key]
                    == before[key]
        }),
{
    let setup = setup_steps(nid, opts);
    let rest = attempts_steps(opts, n);
    writes_of_both(setup, rest);
    written_in_turn(before, writes_of(setup), writes_of(rest));
    let od = written(before, writes_of(setup));
    setup_leaves(before, nid, opts);
    attempts_leave(od, opts, n);
    let ms = opts.consumer_heartbeat_timeout.nanos as int / 1_000_000;
    consumer_entry_is_read_back(
        opts.heartbeat_node_id,
        if ms > 65_535 {
            65_535
        } else {
            ms as u16
        },
    );
}

/// The setup, step by step. The node is stopped from sending PDOs and has to
/// report that within two periods of its heartbeat; its status word has to be
/// readable; all writes of the two PDOs have to succeed, those of the first
/// coming first. The peak torque and the gain factor may be missing and the
/// torque limit of the gains may be refused. Then the node is started and has
/// to report that.
pub proof fn setup_in_order(nid: u8, opts: Cia402ManagerOptions)
    requires
        opts.wf(),
    ensures
        ({
            let s = setup_steps(nid, opts);
            let n = s.len() as int;
            let two = Duration { nanos: (2 * opts.motor_heartbeat_period.nanos) as u128 };
            &&& n > 8
            &&& s[0] == (Step {
                doing: Doing::Send {
                    id: FrameId::Standard(0),
                    kind: FrameKind::Data,
                    data: seq![0x80u8, nid],
                },
                on_reply: OnReply::Require,
            })
            &&& s[1] == (Step {
                doing: Doing::AwaitNmt { state: NmtState::PreOperational, timeout: two },
                on_reply: OnReply::Require,
            })
            &&& s[2] == (Step {
                doing: Doing::Upload { index: 0x6041, subindex: 0 },
                on_reply: OnReply::RequireWord,
            })
            &&& forall|i: int|
                3 <= i < n - 5 ==> (#[trigger] s[i]).on_reply is Require && (
                s[i].doing matches Doing::Download(w) && (w.index == 0x1800 || w.index == 0x1A00
                    || w.index == 0x1801 || w.index == 0x1A01))
            &&& forall|i: int, j: int|
                #![trigger s[i], s[j]]
                3 <= i < j < n - 5 && (s[j].doing matches Doing::Download(w) && (w.index == 0x1800
                    || w.index == 0x1A00)) ==> (s[i].doing matches Doing::Download(w) && (w.index
                    == 0x1800 || w.index == 0x1A00))
            &&& s[n - 5] == (Step {
                doing: Doing::Upload { index: 0x6076, subindex: 0 },
                on_reply: OnReply::KeepPeak,
            })
            &&& s[n - 4] == (Step {
                doing: Doing::Upload { index: 0x2003, subindex: 7 },
                on_reply: OnReply::KeepFactor,
            })
            &&& s[n - 3] == (Step {
                doing: Doing::Download(Write { index: 0x2003, subindex: 6, data: le16(1000) }),
                on_reply: OnReply::Ignore,
            })
            &&& s[n - 2] == (Step {
                doing: Doing::Send {
                    id: FrameId::Standard(0),
                    kind: FrameKind::Data,
                    data: seq![0x01u8, nid],
                },
                on_reply: OnReply::Require,
            })
            &&& s[n - 1] == (Step {
                doing: Doing::AwaitNmt { state: NmtState::Operational, timeout: two },
                on_reply: OnReply::Require,
            })
        }),
{
    let s = setup_steps(nid, opts);
    let n = s.len() as int;
    let w1 = tpdo1_default_writes(nid);
    let w2 = tpdo2_default_writes(nid);
    let a = 3 + w1.len();
    assert(n == a + w2.len() + 5);
    command_names_its_node(NmtCommand::EnterPreOperational, nid);
    command_names_its_node(NmtCommand::StartRemoteNode, nid);
    assert(command_payload(NmtCommand::EnterPreOperational, nid) =~= seq![0x80u8, nid]);
    assert(command_payload(NmtCommand::StartRemoteNode, nid) =~= seq![0x01u8, nid]);
    assert forall|k: int| 0 <= k < w1.len() implies (#[trigger] w1[k]).index == 0x1800 || w1[k].index
        == 0x1A00 by {}
    assert forall|k: int| 0 <= k < w2.len() implies (#[trigger] w2[k]).index == 0x1801 || w2[k].index
        == 0x1A01 by {}
    assert forall|i: int| 3 <= i < a implies #[trigger] s[i] == download(w1[i - 3]) by {}
    assert forall|i: int| a <= i < n - 5 implies #[trigger] s[i] == download(w2[i - a]) by {}
}

proof fn attempt_at(opts: Cia402ManagerOptions, n: nat, k: nat, j: int)
    requires
        k < n,
        0 <= j < 10,
    ensures
        attempts_steps(opts, n).len() == 10 * n,
        attempts_steps(opts, n)[10 * k + j] == attempt_steps(opts)[j],
    decreases n,
{
    attempts_length(opts, (n - 1) as nat);
    if k < n - 1 {
        attempt_at(opts, (n - 1) as nat, k, j);
    }
}

proof fn attempts_length(opts: Cia402ManagerOptions, n: nat)
    ensures
        attempts_steps(opts, n).len() == 10 * n,
    decreases n,
{
    if n > 0 {
        attempts_length(opts, (n - 1) as nat);
    }
}

/// Every attempt, step by step: the watch is turned off; the control word goes
/// to 0, to 0x80 and to 0 again, with 50 ms after each; the watch is turned on;
/// after 100 ms more than the motor waits for a heartbeat, its status word is
/// looked at. All but the look have to succeed. There are as many attempts as
/// were set, at least one.
pub proof fn attempts_in_order(nid: u8, opts: Cia402ManagerOptions, k: nat)
    requires
        opts.wf(),
        k < attempts(opts),
    ensures
        ({
            let plan = init_steps(nid, opts);
            let at = (setup_steps(nid, opts).len() + 10 * k) as int;
            let settle = Step {
                doing: Doing::Sleep(Duration { nanos: 50_000_000 }),
                on_reply: OnReply::Require,
            };
            let rest = Step {
                doing: Doing::Download(Write { index: 0x6040, subindex: 0, data: seq![0u8, 0u8] }),
                on_reply: OnReply::Require,
            };
            &&& plan.len() == setup_steps(nid, opts).len() + 10 * attempts(opts)
            &&& plan.take(setup_steps(nid, opts).len() as int) == setup_steps(nid, opts)
            &&& opts.init_fault_clear_attempts >= 1 ==> attempts(opts)
                == opts.init_fault_clear_attempts
            &&& opts.init_fault_clear_attempts == 0 ==> attempts(opts) == 1
            &&& plan[at] == (Step {
                doing: Doing::Download(
                    Write { index: 0x1016, subindex: 1, data: seq![0u8, 0u8, 0u8, 0u8] },
                ),
                on_reply: OnReply::Require,
            })
            &&& plan[at + 1] == rest
            &&& plan[at + 2] == settle
            &&& plan[at + 3] == (Step {
                doing: Doing::Download(
                    Write { index: 0x6040, subindex: 0, data: seq![0x80u8, 0u8] },
                ),
                on_reply: OnReply::Require,
            })
            &&& plan[at + 4] == settle
            &&& plan[at + 5] == rest
            &&& plan[at + 6] == settle
            &&& plan[at + 7].on_reply is Require
            &&& plan[at + 7].doing matches Doing::Download(w) && w.index == 0x1016 && w.subindex
                == 1 && w.data == le32(watched(opts))
            &&& plan[at + 8] == (Step {
                doing: Doing::Sleep(
                    Duration {
                        nanos: (opts.consumer_heartbeat_timeout.nanos + 100_000_000) as u128,
                    },
                ),
                on_reply: OnReply::Require,
            })
            &&& plan[at + 9] == (Step {
                doing: Doing::Upload { index: 0x6041, subindex: 0 },
                on_reply: OnReply::CheckFault,
            })
        }),
{
    let n = attempts(opts);
    let setup = setup_steps(nid, opts);
    let plan = init_steps(nid, opts);
    assert(plan.take(setup.len() as int) =~= setup);
    assert(le16(0) =~= seq![0u8, 0u8]);
    assert(le16(0x80) =~= seq![0x80u8, 0u8]);
    assert(le32(0) =~= seq![0u8, 0u8, 0u8, 0u8]);
    attempt_at(opts, n, k, 0);
    attempt_at(opts, n, k, 1);
    attempt_at(opts, n, k, 2);
    attempt_at(opts, n, k, 3);
    attempt_at(opts, n, k, 4);
    attempt_at(opts, n, k, 5);
    attempt_at(opts, n, k, 6);
    attempt_at(opts, n, k, 7);
    attempt_at(opts, n, k, 8);
    attempt_at(opts, n, k, 9);
}

/// Which replies let the course go on, and which end it with success: a step
/// that has to succeed must not fail; one that has to bring a word needs two
/// bytes; and a status word shows no fault when it has two bytes and bit 3 of
/// the first is down.
pub proof fn meaning_of_replies(step: Step, reply: Reply)
    ensures
        step.on_reply is Require ==> (goes_on(step, reply) <==> reply is Done || reply is Data),
        step.on_reply is RequireWord ==> (goes_on(step, reply) <==> reply is Data
            && reply->Data_0@.len() >= 2),
        !(step.on_reply is Require) && !(step.on_reply is RequireWord) ==> goes_on(step, reply),
        shows_no_fault(reply) <==> reply is Data && reply->Data_0@.len() >= 2
            && reply->Data_0@[0] & 0x08 == 0,
{
    if let Reply::Data(d) = reply {
        if d@.len() >= 2 {
            let low = d@[0];
            assert((low & 0x08 == 0) <==> (low / 8 % 2 == 0)) by (bit_vector);
            assert(value16(d@, 0) == d@[0] + 0x100 * d@[1]);
        }
    }
}

/// The default PDOs of a node are the first and the second, under its two
/// identifiers, and are sent when their timer says so.
pub proof fn default_recipes(recipe: TpdoRecipe, nid: u8)
    ensures
        is_tpdo1_recipe(recipe, nid) ==> recipe.tpdo_index == 0 && recipe.cob_id == 0x180 + nid
            && recipe.entries@.len() == 4 && recipe.comm.transmission_type == 255
            && recipe.comm.inhibit_time_x100us == 5 && recipe.comm.event_timer_ms == 1,
        is_tpdo2_recipe(recipe, nid) ==> recipe.tpdo_index == 1 && recipe.cob_id == 0x280 + nid
            && recipe.entries@.len() == 5 && recipe.comm.transmission_type == 255
            && recipe.comm.inhibit_time_x100us == 190 && recipe.comm.event_timer_ms == 20,
{
}

/// The messages name the node, what was waited for and how often it was tried;
/// looks at a state are 20 ms apart.
pub proof fn initialization_messages(
    nid: u8,
    n: nat,
    target: NmtState,
    observed: Option<NmtState>,
)
    ensures
        not_cleared(nid, n) == node_text(nid) + (": could not clear heartbeat/CiA402 fault after "@
            + (decimal(n) + " attempts; motor may need a power cycle"@)),
        observed is None ==> nmt_timeout_text(nid, target, observed) == node_text(nid) + (
        ": timeout waiting NMT "@ + (target.text() + (" (last observed "@ + ("None"@ + ")"@)))),
        observed is Some ==> nmt_timeout_text(nid, target, observed) == node_text(nid) + (
        ": timeout waiting NMT "@ + (target.text() + (" (last observed "@ + ("Some("@ + (
        observed->0.text() + (")"@ + ")"@)))))),
        Duration::millis(NMT_POLL_MS as int).nanos == 20_000_000,
{
    assert(not_cleared(nid, n) =~= node_text(nid) + (
    ": could not clear heartbeat/CiA402 fault after "@ + (decimal(n)
        + " attempts; motor may need a power cycle"@)));
    if observed is None {
        assert(nmt_timeout_text(nid, target, observed) =~= node_text(nid) + (
        ": timeout waiting NMT "@ + (target.text() + (" (last observed "@ + ("None"@ + ")"@)))));
    } else {
        assert(nmt_timeout_text(nid, target, observed) =~= node_text(nid) + (
        ": timeout waiting NMT "@ + (target.text() + (" (last observed "@ + ("Some("@ + (
        observed->0.text() + (")"@ + ")"@)))))));
    }
}

/// A step stands for what is done, and a plan for its steps in turn.
pub proof fn steps_stand_for_what_is_done(s: InitStep, plan: Seq<InitStep>, i: int)
    requires
        0 <= i < plan.len(),
    ensures
        s@.on_reply == s.on_reply,
        s.action matches Action::Send(f) ==> s@.doing == (Doing::Send {
            id: f.id,
            kind: f.kind,
            data: f.data@,
        }),
        s.action matches Action::AwaitNmt { state, timeout } ==> s@.doing == (Doing::AwaitNmt {
            state,
            timeout,
        }),
        s.action matches Action::Upload { index, subindex } ==> s@.doing == (Doing::Upload {
            index,
            subindex,
        }),
        s.action matches Action::Download(w) ==> s@.doing == Doing::Download(
            Write { index: w.index, subindex: w.subindex, data: w.data@ },
        ),
        s.action matches Action::Sleep(d) ==> s@.doing == Doing::Sleep(d),
        steps(plan).len() == plan.len(),
        steps(plan)[i] == plan[i]@,
{
}

} // verus!
