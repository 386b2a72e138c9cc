//! The motors that have been seen.

use std::collections::HashMap;

use vstd::prelude::*;

use super::events::Cia402Event;
use super::motor_entry::{Change, Entry, MotorEntry, MotorState};
use super::tpdo_listener::{Filtered, TpdoKind};
use super::types::{LiveState, MotorInfo, MotorLifecycle};
use crate::canopen::nmt::NmtState;
use crate::time::{Duration, Instant};

verus! {

/// The motors that have been seen, by node id.
#[derive(Debug)]
pub struct MotorRegistry {
    entries: HashMap<u8, MotorEntry>,
}

impl View for MotorRegistry {
    type V = Map<u8, Entry>;

    closed spec fn view(&self) -> Map<u8, Entry> {
        Map::new(
            |nid: u8| self.entries@.contains_key(nid),
            |nid: u8| self.entries@[nid]@,
        )
    }
}

/// Every entry is under its own node id.
pub open spec fn keyed(motors: Map<u8, Entry>) -> bool {
    forall|nid: u8| #[trigger] motors.contains_key(nid) ==> motors[nid].node_id == nid
}

/// What is shown of the motors with a node id below `n`, by ascending node id.
pub open spec fn listed(motors: Map<u8, Entry>, n: nat) -> Seq<MotorInfo>
    decreases n,
{
    if n == 0 {
        seq![]
    } else {
        let nid = (n - 1) as u8;
        let before = listed(motors, (n - 1) as nat);
        if motors.contains_key(nid) {
            before.push(motors[nid].inner.info(nid))
        } else {
            before
        }
    }
}

/// A motor that can be initialized: it is identified, or has to be initialized
/// again.
pub open spec fn awaits_initialize(state: MotorState) -> bool {
    state.lifecycle is Identified || state.lifecycle is NeedsReinit
}

/// The motors with a node id below `n` that can be initialized, ascending.
pub open spec fn awaiting(motors: Map<u8, Entry>, n: nat) -> Seq<u8>
    decreases n,
{
    if n == 0 {
        seq![]
    } else {
        let nid = (n - 1) as u8;
        let before = awaiting(motors, (n - 1) as nat);
        if motors.contains_key(nid) && awaits_initialize(motors[nid].inner) {
            before.push(nid)
        } else {
            before
        }
    }
}

/// The motors with a node id below `n` that have fallen silent, ascending.
pub open spec fn silent(
    motors: Map<u8, Entry>,
    n: nat,
    now: Instant,
    uninit: Duration,
    init: Duration,
) -> Seq<u8>
    decreases n,
{
    if n == 0 {
        seq![]
    } else {
        let nid = (n - 1) as u8;
        let before = silent(motors, (n - 1) as nat, now, uninit, init);
        if motors.contains_key(nid) && motors[nid].inner.falls_silent(now, uninit, init) {
            before.push(nid)
        } else {
            before
        }
    }
}

/// The motor once it has been looked after.
pub open spec fn looked_after(e: Entry, now: Instant, uninit: Duration, init: Duration) -> Entry {
    Entry {
        inner: MotorState {
            online: e.inner.online && e.inner.alive(now, uninit, init),
            ..e.inner
        },
        ..e
    }
}

/// `change` tells that this motor went offline.
pub open spec fn tells_offline(change: Change, nid: u8, after: Entry, now: Instant) -> bool {
    &&& change.nid == nid
    &&& change.events@ == seq![Cia402Event::NodeOffline { nid }]
    &&& change.live == after.inner.live(now)
    &&& !change.identify
}

/// The motors that are online.
pub open spec fn online_only(motors: Map<u8, Entry>) -> Map<u8, Entry> {
    Map::new(
        |nid: u8| motors.contains_key(nid) && motors[nid].inner.online,
        |nid: u8| motors[nid],
    )
}

/// The motor that is listed, or else a new one.
pub open spec fn found_or_fresh(motors: Map<u8, Entry>, nid: u8, now: Instant) -> Entry {
    if motors.contains_key(nid) {
        motors[nid]
    } else {
        Entry::fresh(nid, now)
    }
}

/// What is told of a node that was not listed.
pub open spec fn appearance(motors: Map<u8, Entry>, nid: u8) -> Seq<Cia402Event> {
    if motors.contains_key(nid) {
        seq![]
    } else {
        seq![Cia402Event::NodeAppeared { nid }]
    }
}

impl MotorRegistry {
    /// Every entry is under its own node id.
    pub closed spec fn wf(self) -> bool {
        forall|nid: u8| #[trigger]
            self.entries@.contains_key(nid) ==> self.entries@[nid].node_id == nid
    }

    /// Every entry is under its own node id.
    pub proof fn is_keyed(self)
        requires
            self.wf(),
        ensures
            keyed(self@),
    {
        assert forall|nid: u8| #[trigger] self@.contains_key(nid) implies self@[nid].node_id
            == nid by {
            assert(self.entries@.contains_key(nid));
        }
    }

    /// No motor has been seen.
    pub fn new() -> (r: Self)
        ensures
            r.wf(),
            r@ == Map::<u8, Entry>::empty(),
    {
        let r = MotorRegistry { entries: HashMap::new() };
        assert(r@ =~= Map::<u8, Entry>::empty());
        r
    }

    /// The motor with this node id.
    pub fn get(&self, nid: u8) -> (r: Option<&MotorEntry>)
        requires
            self.wf(),
        ensures
            match r {
                Some(e) => self@.contains_key(nid) && e@ == self@[nid],
                None => !self@.contains_key(nid),
            },
    {
        broadcast use vstd::std_specs::hash::group_hash_axioms;

        self.entries.get(&nid)
    }

    /// Takes the motor with this node id out.
    pub(crate) fn take(&mut self, nid: u8) -> (r: Option<MotorEntry>)
        requires
            old(self).wf(),
        ensures
            final(self).wf(),
            final(self)@ == old(self)@.remove(nid),
            match r {
                Some(e) => old(self)@.contains_key(nid) && e@ == old(self)@[nid] && e.node_id
                    == nid,
                None => !old(self)@.contains_key(nid),
            },
    {
        broadcast use vstd::std_specs::hash::group_hash_axioms;

        let e = self.entries.remove(&nid);
        assert(self@ =~= old(self)@.remove(nid));
        e
    }

    /// Puts a motor in.
    pub(crate) fn put(&mut self, e: MotorEntry)
        requires
            old(self).wf(),
        ensures
            final(self).wf(),
            final(self)@ == old(self)@.insert(e.node_id, e@),
    {
        broadcast use vstd::std_specs::hash::group_hash_axioms;

        let nid = e.node_id;
        let ghost view = e@;
        let _ = self.entries.insert(nid, e);
        assert(self@ =~= old(self)@.insert(nid, view));
    }

    /// Makes sure that the node is listed.
    pub fn ensure(&mut self, nid: u8, now: Instant)
        requires
            old(self).wf(),
        ensures
            final(self).wf(),
            final(self)@ == old(self)@.insert(nid, found_or_fresh(old(self)@, nid, now)),
    {
        let e = match self.take(nid) {
            Some(e) => e,
            None => MotorEntry::new(nid, now),
        };
        self.put(e);
        assert(self@ =~= old(self)@.insert(nid, found_or_fresh(old(self)@, nid, now)));
    }

    /// Takes a heartbeat of a node. A node that is not listed appears.
    pub fn handle_heartbeat(&mut self, nid: u8, state: NmtState, now: Instant) -> (r: Change)
        requires
            old(self).wf(),
        ensures
            final(self).wf(),
            ({
                let e = found_or_fresh(old(self)@, nid, now);
                let after = Entry { inner: e.inner.heard_heartbeat(state, now), ..e };
                &&& final(self)@ == old(self)@.insert(nid, after)
                &&& r.nid == nid
                &&& r.events@ == appearance(old(self)@, nid) + e.inner.heartbeat_events(nid, state)
                &&& r.live == after.inner.live(now)
                &&& r.identify == (e.inner.lifecycle is Unknown)
            }),
    {
        let mut events: Vec<Cia402Event> = Vec::new();
        let mut e = match self.take(nid) {
            Some(e) => e,
            None => {
                events.push(Cia402Event::NodeAppeared { nid });
                MotorEntry::new(nid, now)
            },
        };
        assert(events@ =~= appearance(old(self)@, nid));
        let mut change = e.inner.handle_inbound_hb(nid, state, now);
        events.append(&mut change.events);
        self.put(e);
        proof {
            let e = found_or_fresh(old(self)@, nid, now);
            let after = Entry { inner: e.inner.heard_heartbeat(state, now), ..e };
            assert(self@ =~= old(self)@.insert(nid, after));
        }
        Change { nid, events, live: change.live, identify: change.identify }
    }

    /// Takes a PDO of a node. One that is not listed is ignored: its heartbeat
    /// has to come first.
    pub fn handle_tpdo(
        &mut self,
        nid: u8,
        kind: TpdoKind,
        data: &[u8],
        now: Instant,
        filtered: Filtered,
    ) -> (r: Option<Change>)
        requires
            old(self).wf(),
        ensures
            final(self).wf(),
            match r {
                None => !old(self)@.contains_key(nid) && final(self)@ == old(self)@,
                Some(c) => {
                    let e = old(self)@[nid];
                    let after = Entry {
                        inner: e.inner.heard_tpdo(kind, data@, now, filtered),
                        ..e
                    };
                    &&& old(self)@.contains_key(nid)
                    &&& final(self)@ == old(self)@.insert(nid, after)
                    &&& c.nid == nid
                    &&& c.events@ == e.inner.tpdo_events(nid, after.inner)
                    &&& c.live == after.inner.live(now)
                    &&& !c.identify
                },
            },
    {
        match self.take(nid) {
            None => {
                assert(self@ =~= old(self)@);
                None
            },
            Some(mut e) => {
                let change = e.inner.handle_tpdo(nid, kind, data, now, filtered);
                self.put(e);
                proof {
                    let e = old(self)@[nid];
                    let after = Entry {
                        inner: e.inner.heard_tpdo(kind, data@, now, filtered),
                        ..e
                    };
                    assert(self@ =~= old(self)@.insert(nid, after));
                }
                Some(change)
            },
        }
    }

    /// Publishes a snapshot of a node. One that is no longer listed is ignored.
    pub fn publish(&mut self, nid: u8, live: LiveState)
        requires
            old(self).wf(),
        ensures
            final(self).wf(),
            final(self)@.dom() == old(self)@.dom(),
            forall|n: u8|
                n != nid && #[trigger] old(self)@.contains_key(n) ==> final(self)@[n]
                    == old(self)@[n],
            old(self)@.contains_key(nid) ==> old(self)@[nid].published(live, final(self)@[nid]),
    {
        match self.take(nid) {
            None => {
                assert(self@ =~= old(self)@);
            },
            Some(mut e) => {
                e.publish(live);
                self.put(e);
                assert(self@.dom() =~= old(self)@.dom());
            },
        }
    }

    /// What is shown of the motors, by ascending node id.
    pub fn list(&self) -> (r: Vec<MotorInfo>)
        requires
            self.wf(),
        ensures
            r@ == listed(self@, 256),
    {
        let mut out: Vec<MotorInfo> = Vec::new();
        let mut n: usize = 0;
        while n < 256
            invariant
                n <= 256,
                self.wf(),
                out@ == listed(self@, n as nat),
            decreases 256 - n,
        {
            let nid: u8 = n as u8;
            if let Some(e) = self.get(nid) {
                out.push(e.inner.info(nid));
            }
            n = n + 1;
        }
        out
    }

    /// The motors that can be initialized, by ascending node id.
    pub fn initialize_targets(&self) -> (r: Vec<u8>)
        requires
            self.wf(),
        ensures
            r@ == awaiting(self@, 256),
    {
        let mut out: Vec<u8> = Vec::new();
        let mut n: usize = 0;
        while n < 256
            invariant
                n <= 256,
                self.wf(),
                out@ == awaiting(self@, n as nat),
            decreases 256 - n,
        {
            let nid: u8 = n as u8;
            if let Some(e) = self.get(nid) {
                match e.inner.lifecycle {
                    MotorLifecycle::Identified | MotorLifecycle::NeedsReinit { .. } => {
                        out.push(nid);
                    },
                    _ => {},
                }
            }
            n = n + 1;
        }
        out
    }

    /// Looks after all motors, by ascending node id. Returns what is told of
    /// those that have fallen silent.
    pub fn check_alive(&mut self, now: Instant, uninit: Duration, init: Duration) -> (r: Vec<
        Change,
    >)
        requires
            old(self).wf(),
        ensures
            final(self).wf(),
            final(self)@.dom() == old(self)@.dom(),
            forall|nid: u8| #[trigger]
                old(self)@.contains_key(nid) ==> final(self)@[nid] == looked_after(
                    old(self)@[nid],
                    now,
                    uninit,
                    init,
                ),
            ({
                let gone = silent(old(self)@, 256, now, uninit, init);
                &&& r@.len() == gone.len()
                &&& forall|i: int|
                    0 <= i < gone.len() ==> tells_offline(
                        #[trigger] r@[i],
                        gone[i],
                        looked_after(old(self)@[gone[i]], now, uninit, init),
                        now,
                    )
            }),
    {
        let mut out: Vec<Change> = Vec::new();
        let mut n: usize = 0;
        while n < 256
            invariant
                n <= 256,
                self.wf(),
                self@.dom() == old(self)@.dom(),
                forall|nid: u8| #[trigger]
                    old(self)@.contains_key(nid) ==> self@[nid] == if nid < n {
                        looked_after(old(self)@[nid], now, uninit, init)
                    } else {
                        old(self)@[nid]
                    },
                out@.len() == silent(old(self)@, n as nat, now, uninit, init).len(),
                forall|i: int|
                    0 <= i < out@.len() ==> tells_offline(
                        #[trigger] out@[i],
                        silent(old(self)@, n as nat, now, uninit, init)[i],
                        looked_after(
                            old(self)@[silent(old(self)@, n as nat, now, uninit, init)[i]],
                            now,
                            uninit,
                            init,
                        ),
                        now,
                    ),
            decreases 256 - n,
        {
            let nid: u8 = n as u8;
            let ghost before = self@;
            match self.take(nid) {
                None => {
                    assert(self@ =~= before);
                },
                Some(mut e) => {
                    if let Some(change) = e.inner.check_alive(nid, now, uninit, init) {
                        out.push(change);
                    }
                    self.put(e);
                    assert(self@ =~= before.insert(
                        nid,
                        looked_after(old(self)@[nid], now, uninit, init),
                    ));
                    assert(self@.dom() =~= old(self)@.dom());
                },
            }
            n = n + 1;
        }
        out
    }

    /// Removes the motors that are offline. A motor that is heard of later
    /// appears again.
    pub fn forget_offline(&mut self)
        requires
            old(self).wf(),
        ensures
            final(self).wf(),
            final(self)@ == online_only(old(self)@),
    {
        let mut n: usize = 0;
        while n < 256
            invariant
                n <= 256,
                self.wf(),
                forall|nid: u8| #[trigger]
                    self@.contains_key(nid) <==> old(self)@.contains_key(nid) && (nid >= n
                        || old(self)@[nid].inner.online),
                forall|nid: u8| #[trigger]
                    self@.contains_key(nid) ==> self@[nid] == old(self)@[nid],
            decreases 256 - n,
        {
            let nid: u8 = n as u8;
            let ghost before = self@;
            if let Some(e) = self.take(nid) {
                if e.inner.online {
                    self.put(e);
                    assert(self@ =~= before);
                }
            }
            n = n + 1;
        }
        assert(self@ =~= online_only(old(self)@));
    }
}

/// The motors are listed by ascending node id, each once and none left out.
pub proof fn list_is_complete(motors: Map<u8, Entry>, n: nat)
    requires
        n <= 256,
    ensures
        forall|i: int, j: int|
            0 <= i < j < listed(motors, n).len() ==> (#[trigger] listed(motors, n)[i]).node_id < (
            #[trigger] listed(motors, n)[j]).node_id,
        forall|i: int|
            0 <= i < listed(motors, n).len() ==> {
                let info = #[trigger] listed(motors, n)[i];
                &&& info.node_id < n
                &&& motors.contains_key(info.node_id)
                &&& info == motors[info.node_id].inner.info(info.node_id)
            },
        forall|nid: u8| #[trigger]
            motors.contains_key(nid) && nid < n ==> exists|i: int|
                0 <= i < listed(motors, n).len() && (#[trigger] listed(motors, n)[i]).node_id
                    == nid,
    decreases n,
{
    if n > 0 {
        let last = (n - 1) as u8;
        let before = listed(motors, (n - 1) as nat);
        let all = listed(motors, n);
        list_is_complete(motors, (n - 1) as nat);
        assert forall|nid: u8| #[trigger] motors.contains_key(nid) && nid < n implies exists|i: int|
            0 <= i < all.len() && (#[trigger] all[i]).node_id == nid by {
            if nid == last {
                assert(all[all.len() - 1].node_id == nid);
            } else {
                let i = choose|i: int|
                    0 <= i < before.len() && (#[trigger] before[i]).node_id == nid;
                assert(all[i] == before[i]);
            }
        }
    }
}

/// The motors that can be initialized are found by ascending node id, each
/// once and none left out.
pub proof fn targets_are_complete(motors: Map<u8, Entry>, n: nat)
    requires
        n <= 256,
    ensures
        forall|i: int, j: int|
            0 <= i < j < awaiting(motors, n).len() ==> #[trigger] awaiting(motors, n)[i]
                < #[trigger] awaiting(motors, n)[j],
        forall|i: int|
            0 <= i < awaiting(motors, n).len() ==> {
                let nid = #[trigger] awaiting(motors, n)[i];
                nid < n && motors.contains_key(nid) && awaits_initialize(motors[nid].inner)
            },
        forall|nid: u8| #[trigger]
            motors.contains_key(nid) && nid < n && awaits_initialize(motors[nid].inner)
                ==> awaiting(motors, n).contains(nid),
    decreases n,
{
    if n > 0 {
        let last = (n - 1) as u8;
        let before = awaiting(motors, (n - 1) as nat);
        let all = awaiting(motors, n);
        targets_are_complete(motors, (n - 1) as nat);
        assert forall|nid: u8| #[trigger]
            motors.contains_key(nid) && nid < n && awaits_initialize(
                motors[nid].inner,
            ) implies all.contains(nid) by {
            if nid == last {
                assert(all[all.len() - 1] == nid);
            } else {
                let i = choose|i: int| 0 <= i < before.len() && before[i] == nid;
                assert(all[i] == before[i]);
            }
        }
    }
}

/// What is told after motors were looked after is told of exactly those that
/// have fallen silent, each once.
pub proof fn silence_is_complete(
    motors: Map<u8, Entry>,
    n: nat,
    now: Instant,
    uninit: Duration,
    init: Duration,
)
    requires
        n <= 256,
    ensures
        ({
            let gone = silent(motors, n, now, uninit, init);
            &&& forall|i: int, j: int|
                0 <= i < j < gone.len() ==> #[trigger] gone[i] < #[trigger] gone[j]
            &&& forall|i: int|
                0 <= i < gone.len() ==> {
                    let nid = #[trigger] gone[i];
                    nid < n && motors.contains_key(nid) && motors[nid].inner.falls_silent(
                        now,
                        uninit,
                        init,
                    )
                }
            &&& forall|nid: u8| #[trigger]
                motors.contains_key(nid) && nid < n && motors[nid].inner.falls_silent(
                    now,
                    uninit,
                    init,
                ) ==> gone.contains(nid)
        }),
    decreases n,
{
    if n > 0 {
        let last = (n - 1) as u8;
        let before = silent(motors, (n - 1) as nat, now, uninit, init);
        let all = silent(motors, n, now, uninit, init);
        silence_is_complete(motors, (n - 1) as nat, now, uninit, init);
        assert forall|nid: u8| #[trigger]
            motors.contains_key(nid) && nid < n && motors[nid].inner.falls_silent(
                now,
                uninit,
                init,
            ) implies all.contains(nid) by {
            if nid == last {
                assert(all[all.len() - 1] == nid);
            } else {
                let i = choose|i: int| 0 <= i < before.len() && before[i] == nid;
                assert(all[i] == before[i]);
            }
        }
    }
}

/// Which motors are initialized when all are, by their lifecycle: those that
/// are identified or have to be initialized again. One that is initialized, is
/// being initialized or is not identified is left alone.
pub proof fn targets_go_by_the_lifecycle(motors: Map<u8, Entry>, nid: u8)
    ensures
        motors.contains_key(nid) && (motors[nid].inner.lifecycle is Identified
            || motors[nid].inner.lifecycle is NeedsReinit) ==> awaiting(motors, 256).contains(nid),
        !motors.contains_key(nid) ==> !awaiting(motors, 256).contains(nid),
        motors.contains_key(nid) && (motors[nid].inner.lifecycle is Unknown
            || motors[nid].inner.lifecycle is Initializing
            || motors[nid].inner.lifecycle is Initialized) ==> !awaiting(motors, 256).contains(nid),
{
    targets_are_complete(motors, 256);
    let all = awaiting(motors, 256);
    if all.contains(nid) {
        let i = choose|i: int| 0 <= i < all.len() && all[i] == nid;
        assert(all[i] == nid);
    }
}

/// Each motor that is listed is shown once, as it is, and no other is shown.
pub proof fn list_shows_the_motors(motors: Map<u8, Entry>, nid: u8)
    ensures
        motors.contains_key(nid) <==> exists|i: int|
            0 <= i < listed(motors, 256).len() && (#[trigger] listed(motors, 256)[i]).node_id
                == nid,
        forall|i: int|
            0 <= i < listed(motors, 256).len() ==> {
                let shown = #[trigger] listed(motors, 256)[i];
                let m = motors[shown.node_id].inner;
                &&& shown.identity == m.identity
                &&& shown.lifecycle == m.lifecycle
                &&& shown.online == m.online
                &&& shown.logic == m.logic
                &&& shown.nmt_state == m.nmt_state
                &&& shown.peak_torque_nm == m.peak_torque_nm
            },
{
    list_is_complete(motors, 256);
    let all = listed(motors, 256);
    if exists|i: int| 0 <= i < all.len() && (#[trigger] all[i]).node_id == nid {
        let i = choose|i: int| 0 <= i < all.len() && (#[trigger] all[i]).node_id == nid;
        assert(motors.contains_key(all[i].node_id));
    }
}

/// To forget the motors that are offline keeps the others as they are.
pub proof fn forgetting_keeps_the_others(motors: Map<u8, Entry>, nid: u8)
    ensures
        online_only(motors).contains_key(nid) <==> motors.contains_key(nid)
            && motors[nid].inner.online,
        online_only(motors).contains_key(nid) ==> online_only(motors)[nid] == motors[nid],
{
}

/// A node that is listed is found as it is and does not appear; one that is not
/// is new, and that is told once.
pub proof fn nodes_appear_once(motors: Map<u8, Entry>, nid: u8, now: Instant)
    ensures
        motors.contains_key(nid) ==> found_or_fresh(motors, nid, now) == motors[nid] && appearance(
            motors,
            nid,
        ).len() == 0,
        !motors.contains_key(nid) ==> {
            &&& found_or_fresh(motors, nid, now) == Entry::fresh(nid, now)
            &&& appearance(motors, nid).len() == 1
            &&& appearance(motors, nid)[0] == (Cia402Event::NodeAppeared { nid })
        },
{
}

/// To look after a motor changes only whether it is online: it is offline
/// afterwards if it was before or has fallen silent, and never comes online.
pub proof fn looking_after_changes_only_online(
    e: Entry,
    now: Instant,
    uninit: Duration,
    init: Duration,
)
    ensures
        ({
            let after = looked_after(e, now, uninit, init);
            &&& after.inner.online <==> e.inner.online && !e.inner.falls_silent(now, uninit, init)
            &&& after == (Entry {
                inner: MotorState { online: after.inner.online, ..e.inner },
                ..e
            })
        }),
{
}

/// What is told of a motor that went offline: that, and nothing else, with a
/// snapshot that shows it offline.
pub proof fn offline_is_what_is_told(
    change: Change,
    nid: u8,
    e: Entry,
    now: Instant,
    uninit: Duration,
    init: Duration,
)
    requires
        e.inner.falls_silent(now, uninit, init),
        tells_offline(change, nid, looked_after(e, now, uninit, init), now),
    ensures
        change.nid == nid,
        change.events@.len() == 1,
        change.events@[0] == (Cia402Event::NodeOffline { nid }),
        !change.live.connection.online,
        change.live.timestamp == now,
        change.live.measurements == e.inner.measurements,
        change.live.logic == e.inner.logic,
        !change.identify,
{
}

} // verus!
