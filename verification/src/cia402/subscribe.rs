//! Streams of snapshots.
//!
//! Every subscriber has a bounded channel of its own. When it is full, samples
//! are dropped and counted; the count is delivered before the next sample that
//! finds room. A subscriber whose stream is gone is removed.

use tokio::sync::mpsc::{Receiver, Sender};
use vstd::prelude::*;

use super::types::LiveState;

verus! {

/// Enough for a slow consumer: eight seconds at one sample per ms.
pub const DEFAULT_STREAM_CAPACITY: usize = 8192;

/// What to do when a channel is full.
#[derive(Debug, Clone, Copy, PartialEq, Eq, Structural)]
#[non_exhaustive]
pub enum OverflowPolicy {
    /// Drop new samples, and tell how many.
    Lagged,
}

/// How a stream is set up.
#[derive(Debug, Clone, Copy, PartialEq, Eq, Structural)]
pub struct StreamOptions {
    /// How many items the channel holds; more than 0.
    pub capacity: usize,
    pub on_overflow: OverflowPolicy,
}

impl Default for StreamOptions {
    fn default() -> (r: Self)
        ensures
            r.capacity == DEFAULT_STREAM_CAPACITY,
            r.capacity == 8192,
            r.on_overflow is Lagged,
    {
        StreamOptions {
            capacity: DEFAULT_STREAM_CAPACITY,
            on_overflow: OverflowPolicy::Lagged,
        }
    }
}

/// What a stream delivers.
#[derive(Debug, Clone, Copy, PartialEq)]
pub enum StatusStreamItem {
    /// A snapshot.
    Sample(LiveState),
    /// So many samples were dropped since the last item.
    Lagged { dropped: u64 },
}

#[verifier::external_type_specification]
#[verifier::external_body]
#[verifier::reject_recursive_types(T)]
pub struct ExSender<T>(Sender<T>);

#[verifier::external_type_specification]
#[verifier::external_body]
#[verifier::reject_recursive_types(T)]
pub struct ExReceiver<T>(Receiver<T>);

/// What became of an item that was offered to a channel.
#[derive(Debug, Clone, Copy, PartialEq, Eq, Structural)]
pub enum Offer {
    /// The channel took it.
    Taken,
    /// There was no room for it.
    Full,
    /// The receiving end is gone.
    Closed,
}

/// The items that the channel of a sender has taken, in order.
pub uninterp spec fn taken_by(tx: Sender<StatusStreamItem>) -> Seq<StatusStreamItem>;

/// How many items the channel of a sender can hold.
pub uninterp spec fn room_of(tx: Sender<StatusStreamItem>) -> nat;

/// The items that the channel of a sender has refused because it was full, in
/// order.
pub uninterp spec fn refused_by(tx: Sender<StatusStreamItem>) -> Seq<StatusStreamItem>;

/// How many items the receiver had handed out, their places free again, when
/// the channel of a sender last took or refused one.
pub uninterp spec fn given_when_asked(tx: Sender<StatusStreamItem>) -> nat;

/// Whether the channel of a sender has said that its receiving end is gone.
pub uninterp spec fn told_closed(tx: Sender<StatusStreamItem>) -> bool;

/// The items that pass through the channel of a sender, by the place at which
/// the channel takes them, those still to come included.
pub uninterp spec fn course_of(tx: Sender<StatusStreamItem>) -> Map<nat, StatusStreamItem>;

/// The items that a receiver has handed out, in order.
pub uninterp spec fn given_by(rx: Receiver<StatusStreamItem>) -> Seq<StatusStreamItem>;

/// How many items the channel had taken when its receiver was last asked for
/// one.
pub uninterp spec fn taken_when_asked(rx: Receiver<StatusStreamItem>) -> nat;

/// The items that pass through the channel of a receiver, by the place at
/// which the channel takes them, those still to come included.
pub uninterp spec fn course_from(rx: Receiver<StatusStreamItem>) -> Map<nat, StatusStreamItem>;

/// The largest capacity of a channel.
pub open spec fn max_capacity() -> nat {
    (usize::MAX / 8) as nat
}

/// Calls `tokio::sync::mpsc::channel`: a new channel has taken, refused and
/// handed out nothing, and neither end was asked for anything. It has the room
/// that was asked for and has not said that it is closed.
/// What passes through it is the same at both ends.
#[verifier::external_body]
fn new_channel(capacity: usize) -> (r: (Sender<StatusStreamItem>, Receiver<StatusStreamItem>))
    requires
        1 <= capacity <= max_capacity(),
    ensures
        taken_by(r.0) == Seq::<StatusStreamItem>::empty(),
        refused_by(r.0) == Seq::<StatusStreamItem>::empty(),
        given_when_asked(r.0) == 0,
        room_of(r.0) == capacity,
        !told_closed(r.0),
        given_by(r.1) == Seq::<StatusStreamItem>::empty(),
        taken_when_asked(r.1) == 0,
        course_from(r.1) == course_of(r.0),
{
    tokio::sync::mpsc::channel(capacity)
}

/// Calls `tokio::sync::mpsc::Sender::is_closed`. The answer is what the sender
/// has been told from now on; once told that the receiving end is gone, it is
/// told so again. Before that, nothing is said of the answer: it is for the
/// subscriber to decide. Nothing else changes.
#[verifier::external_body]
fn is_closed(tx: &mut Sender<StatusStreamItem>) -> (r: bool)
    ensures
        r == told_closed(*final(tx)),
        told_closed(*old(tx)) ==> r,
        taken_by(*final(tx)) == taken_by(*old(tx)),
        refused_by(*final(tx)) == refused_by(*old(tx)),
        given_when_asked(*final(tx)) == given_when_asked(*old(tx)),
        room_of(*final(tx)) == room_of(*old(tx)),
        course_of(*final(tx)) == course_of(*old(tx)),
{
    tx.is_closed()
}

/// Calls `tokio::sync::mpsc::Sender::try_send` on the only sender of a
/// channel. An item that is taken is appended to what the channel has taken,
/// and passes through it at that place; one that finds the channel full is
/// appended to what it has refused. The channel is full exactly when as many
/// items as it can hold have been taken and not yet handed out. `Closed` tells
/// that the receiving end is gone, and comes again every time after. Nothing
/// more is said of which of the three comes back: it depends on the subscriber
/// and how fast it is.
#[verifier::external_body]
fn offer(tx: &mut Sender<StatusStreamItem>, item: StatusStreamItem) -> (r: Offer)
    ensures
        r is Taken ==> taken_by(*final(tx)) == taken_by(*old(tx)).push(item),
        !(r is Taken) ==> taken_by(*final(tx)) == taken_by(*old(tx)),
        r is Full ==> refused_by(*final(tx)) == refused_by(*old(tx)).push(item),
        !(r is Full) ==> refused_by(*final(tx)) == refused_by(*old(tx)),
        room_of(*final(tx)) == room_of(*old(tx)),
        r is Taken ==> taken_by(*old(tx)).len() < given_when_asked(*final(tx)) + room_of(*old(tx)),
        r is Full ==> taken_by(*old(tx)).len() == given_when_asked(*final(tx)) + room_of(*old(tx)),
        r is Closed ==> given_when_asked(*final(tx)) == given_when_asked(*old(tx)),
        given_when_asked(*old(tx)) <= given_when_asked(*final(tx)) <= taken_by(*old(tx)).len(),
        r is Closed <==> told_closed(*final(tx)),
        told_closed(*old(tx)) ==> r is Closed,
        course_of(*final(tx)) == course_of(*old(tx)),
        r is Taken ==> course_of(*final(tx))[taken_by(*old(tx)).len()] == item,
{
    match tx.try_send(item) {
        Ok(()) => Offer::Taken,
        Err(tokio::sync::mpsc::error::TrySendError::Full(_)) => Offer::Full,
        Err(tokio::sync::mpsc::error::TrySendError::Closed(_)) => Offer::Closed,
    }
}

/// Calls `tokio::sync::mpsc::Receiver::try_recv`. What comes out of a channel
/// comes out in the order in which the channel takes it: an item that is
/// handed out is the next one that passes through the channel. One is handed
/// out exactly when the channel has taken more than were handed out before.
/// How many it has taken by then depends on the sending end; nothing is said
/// of it.
#[verifier::external_body]
fn take_waiting(rx: &mut Receiver<StatusStreamItem>) -> (r: Option<StatusStreamItem>)
    ensures
        r matches Some(item) ==> item == course_from(*old(rx))[given_by(*old(rx)).len()],
        r matches Some(item) ==> given_by(*final(rx)) == given_by(*old(rx)).push(item),
        r is None ==> given_by(*final(rx)) == given_by(*old(rx)),
        r is Some ==> given_by(*old(rx)).len() < taken_when_asked(*final(rx)),
        r is None ==> given_by(*old(rx)).len() == taken_when_asked(*final(rx)),
        taken_when_asked(*old(rx)) <= taken_when_asked(*final(rx)),
        course_from(*final(rx)) == course_from(*old(rx)),
{
    rx.try_recv().ok()
}

/// The receiving end of a stream.
#[derive(Debug)]
pub struct StatusStream {
    /// The channel, to wait on.
    pub rx: Receiver<StatusStreamItem>,
}

/// The items stand at their places in what passes through a channel.
pub open spec fn on_course(
    items: Seq<StatusStreamItem>,
    course: Map<nat, StatusStreamItem>,
) -> bool {
    forall|i: int| 0 <= i < items.len() ==> #[trigger] items[i] == course[i as nat]
}

impl StatusStream {
    /// The items that were delivered, in order.
    pub open spec fn delivered(self) -> Seq<StatusStreamItem> {
        given_by(self.rx)
    }

    /// The items that pass through the channel.
    pub open spec fn course(self) -> Map<nat, StatusStreamItem> {
        course_from(self.rx)
    }

    /// How many items the channel had taken when the stream was last asked.
    pub open spec fn seen(self) -> nat {
        taken_when_asked(self.rx)
    }

    /// `new` is the stream after `self` was asked and `r` came: the item that
    /// the channel takes at the place after those that were delivered. None
    /// comes when all that the channel has taken was delivered.
    pub open spec fn asked(self, r: Option<StatusStreamItem>, new: StatusStream) -> bool {
        &&& new.course() == self.course()
        &&& self.seen() <= new.seen()
        &&& on_course(self.delivered(), self.course()) ==> on_course(new.delivered(), new.course())
        &&& match r {
            Some(item) => {
                &&& item == self.course()[self.delivered().len()]
                &&& new.delivered() == self.delivered().push(item)
                &&& self.delivered().len() < new.seen()
            },
            None => {
                &&& new.delivered() == self.delivered()
                &&& self.delivered().len() == new.seen()
            },
        }
    }

    /// The next item, if one is waiting.
    pub fn try_recv(&mut self) -> (r: Option<StatusStreamItem>)
        ensures
            old(self).asked(r, *final(self)),
    {
        take_waiting(&mut self.rx)
    }
}

/// The sending end of a stream.
#[derive(Debug)]
pub struct Subscriber {
    tx: Sender<StatusStreamItem>,
    /// The samples that were dropped and not yet told.
    pending_lagged: u64,
}

/// The number of samples among the items.
pub open spec fn samples_in(items: Seq<StatusStreamItem>) -> nat
    decreases items.len(),
{
    if items.len() == 0 {
        0
    } else {
        samples_in(items.drop_last()) + if items.last() is Sample {
            1nat
        } else {
            0nat
        }
    }
}

/// The number of dropped samples that the items tell of.
pub open spec fn dropped_in(items: Seq<StatusStreamItem>) -> nat
    decreases items.len(),
{
    if items.len() == 0 {
        0
    } else {
        dropped_in(items.drop_last()) + match items.last() {
            StatusStreamItem::Sample(_) => 0nat,
            StatusStreamItem::Lagged { dropped } => dropped as nat,
        }
    }
}

proof fn count_push(items: Seq<StatusStreamItem>, item: StatusStreamItem)
    ensures
        samples_in(items.push(item)) == samples_in(items) + if item is Sample {
            1nat
        } else {
            0nat
        },
        dropped_in(items.push(item)) == dropped_in(items) + match item {
            StatusStreamItem::Sample(_) => 0nat,
            StatusStreamItem::Lagged { dropped } => dropped as nat,
        },
{
    assert(items.push(item).drop_last() =~= items);
}

/// One more, but no more than fits.
pub open spec fn one_more(n: u64) -> u64 {
    if n == u64::MAX {
        u64::MAX
    } else {
        (n + 1) as u64
    }
}

/// What follows when a count was offered.
#[derive(Debug, Clone, Copy, PartialEq, Eq, Structural)]
pub enum AfterCount {
    /// The sample is offered next.
    OfferSample,
    /// The sample is dropped; the subscriber stays.
    Keep,
    /// The subscriber is removed.
    Remove,
}

/// What follows when the count of dropped samples was offered: how many remain
/// to be told, and what is done next.
pub fn after_count(pending: u64, outcome: Offer) -> (r: (u64, AfterCount))
    ensures
        r == match outcome {
            Offer::Taken => (0u64, AfterCount::OfferSample),
            Offer::Full => (one_more(pending), AfterCount::Keep),
            Offer::Closed => (pending, AfterCount::Remove),
        },
{
    match outcome {
        Offer::Taken => (0, AfterCount::OfferSample),
        Offer::Full => (pending.saturating_add(1), AfterCount::Keep),
        Offer::Closed => (pending, AfterCount::Remove),
    }
}

/// What follows when a sample was offered: how many dropped samples remain to
/// be told, and whether the subscriber stays.
pub fn after_sample(pending: u64, outcome: Offer) -> (r: (u64, bool))
    ensures
        r == match outcome {
            Offer::Taken => (pending, true),
            Offer::Full => (one_more(pending), true),
            Offer::Closed => (pending, false),
        },
{
    match outcome {
        Offer::Taken => (pending, true),
        Offer::Full => (pending.saturating_add(1), true),
        Offer::Closed => (pending, false),
    }
}

impl Subscriber {
    /// The items that the channel has taken.
    pub closed spec fn taken(self) -> Seq<StatusStreamItem> {
        taken_by(self.tx)
    }

    /// The samples that were dropped and not yet told.
    pub closed spec fn pending(self) -> u64 {
        self.pending_lagged
    }

    /// How many items the channel can hold.
    pub closed spec fn room(self) -> nat {
        room_of(self.tx)
    }

    /// The items that the channel has refused because it was full.
    pub closed spec fn refused(self) -> Seq<StatusStreamItem> {
        refused_by(self.tx)
    }

    /// How many items the stream had delivered when the channel last took or
    /// refused one.
    pub closed spec fn seen(self) -> nat {
        given_when_asked(self.tx)
    }

    /// The channel has said that the stream is gone.
    pub closed spec fn gone(self) -> bool {
        told_closed(self.tx)
    }

    /// The items that pass through the channel.
    pub closed spec fn course(self) -> Map<nat, StatusStreamItem> {
        course_of(self.tx)
    }

    /// The samples of which the channel has been told, one way or the other,
    /// and those of which it still has to be.
    pub open spec fn accounted(self) -> nat {
        samples_in(self.taken()) + dropped_in(self.taken()) + self.pending() as nat
    }

    /// A new stream: the sending and the receiving end. A capacity of 0 counts
    /// as 1.
    pub fn new(opts: &StreamOptions) -> (r: (Subscriber, StatusStream))
        requires
            opts.capacity <= max_capacity(),
        ensures
            r.0.taken() == Seq::<StatusStreamItem>::empty(),
            r.0.pending() == 0,
            r.0.refused() == Seq::<StatusStreamItem>::empty(),
            r.0.seen() == 0,
            !r.0.gone(),
            r.1.delivered() == Seq::<StatusStreamItem>::empty(),
            r.1.seen() == 0,
            r.1.course() == r.0.course(),
            r.0.room() == if opts.capacity == 0 {
                1
            } else {
                opts.capacity as nat
            },
    {
        let capacity: usize = if opts.capacity == 0 {
            1
        } else {
            opts.capacity
        };
        let (tx, rx) = new_channel(capacity);
        (Subscriber { tx, pending_lagged: 0 }, StatusStream { rx })
    }

    /// `new` is the subscriber after `state` was offered to `self`, if it
    /// stays: the count of dropped samples goes first if there is one, then
    /// the sample, each if the channel has a free place for it; a sample that
    /// is not taken is added to the count.
    pub open spec fn offered(self, state: LiveState, new: Subscriber) -> bool {
        let count = StatusStreamItem::Lagged { dropped: self.pending() };
        let sample = StatusStreamItem::Sample(state);
        let free = self.room() + new.seen() - self.taken().len();
        &&& new.room() == self.room()
        &&& new.course() == self.course()
        &&& on_course(self.taken(), self.course()) ==> on_course(new.taken(), new.course())
        &&& !self.gone() && !new.gone()
        &&& self.seen() <= new.seen()
        &&& free >= 0
        &&& if self.pending() == 0 && free >= 1 {
            &&& new.taken() == self.taken().push(sample)
            &&& new.refused() == self.refused()
            &&& new.pending() == 0
        } else if self.pending() == 0 {
            &&& new.taken() == self.taken()
            &&& new.refused() == self.refused().push(sample)
            &&& new.pending() == 1
        } else if free >= 2 {
            &&& new.taken() == self.taken().push(count).push(sample)
            &&& new.refused() == self.refused()
            &&& new.pending() == 0
        } else if free == 1 {
            &&& new.taken() == self.taken().push(count)
            &&& new.refused() == self.refused().push(sample)
            &&& new.pending() == 1
        } else {
            &&& new.taken() == self.taken()
            &&& new.refused() == self.refused().push(count)
            &&& new.pending() == one_more(self.pending())
        }
    }

    /// `new` is the subscriber after the channel has said that the stream is
    /// gone: at once, or when the count of dropped samples had been taken.
    pub open spec fn gave_up(self, new: Subscriber) -> bool {
        &&& new.room() == self.room()
        &&& new.course() == self.course()
        &&& on_course(self.taken(), self.course()) ==> on_course(new.taken(), new.course())
        &&& new.gone()
        &&& new.refused() == self.refused()
        &&& self.seen() <= new.seen()
        &&& {
            ||| new.taken() == self.taken() && new.pending() == self.pending()
            ||| self.pending() > 0 && new.taken() == self.taken().push(
                StatusStreamItem::Lagged { dropped: self.pending() },
            ) && new.pending() == 0
        }
    }

    /// Offers a snapshot. Returns whether the subscriber stays: it does unless
    /// its channel says that the stream is gone.
    pub fn push(&mut self, state: &LiveState) -> (r: bool)
        ensures
            r == !final(self).gone(),
            old(self).gone() ==> !r,
            r ==> old(self).offered(*state, *final(self)),
            !r ==> old(self).gave_up(*final(self)),
            r && old(self).pending() < u64::MAX ==> final(self).accounted()
                == old(self).accounted() + 1,
    {
        let ghost before = *self;
        let ghost count = StatusStreamItem::Lagged { dropped: before.pending() };
        if is_closed(&mut self.tx) {
            return false;
        }
        if self.pending_lagged > 0 {
            let item = StatusStreamItem::Lagged { dropped: self.pending_lagged };
            let outcome = offer(&mut self.tx, item);
            let (pending, next) = after_count(self.pending_lagged, outcome);
            self.pending_lagged = pending;
            match next {
                AfterCount::OfferSample => {},
                AfterCount::Keep => {
                    return true;
                },
                AfterCount::Remove => {
                    return false;
                },
            }
            proof {
                count_push(before.taken(), count);
            }
        }
        let ghost told = self.taken();
        let outcome = offer(&mut self.tx, StatusStreamItem::Sample(*state));
        let (pending, stays) = after_sample(self.pending_lagged, outcome);
        self.pending_lagged = pending;
        proof {
            count_push(told, StatusStreamItem::Sample(*state));
        }
        stays
    }
}

/// `new` is what remains of the subscribers after `state` was offered to each
/// of them: those that stay, in their order. Only those are removed whose
/// channel has said that the stream is gone.
pub open spec fn fanned_out(
    old_subs: Seq<Subscriber>,
    state: LiveState,
    new_subs: Seq<Subscriber>,
) -> bool
    decreases old_subs.len(),
{
    if old_subs.len() == 0 {
        new_subs.len() == 0
    } else {
        ||| fanned_out(old_subs.drop_last(), state, new_subs) && exists|last: Subscriber|
            #[trigger] old_subs.last().gave_up(last)
        ||| new_subs.len() > 0 && old_subs.last().offered(state, new_subs.last()) && fanned_out(
            old_subs.drop_last(),
            state,
            new_subs.drop_last(),
        )
    }
}

/// Offers a snapshot to all subscribers, and removes those whose stream is
/// gone.
pub fn fan_out(subs: &mut Vec<Subscriber>, state: &LiveState)
    ensures
        fanned_out(old(subs)@, *state, final(subs)@),
{
    let ghost all = subs@;
    let mut kept: Vec<Subscriber> = Vec::new();
    std::mem::swap(subs, &mut kept);
    let mut i: usize = 0;
    let n = kept.len();
    assert(all.take(0) =~= Seq::<Subscriber>::empty());
    while i < n
        invariant
            i <= n == all.len(),
            kept@ == all.skip(i as int),
            fanned_out(all.take(i as int), *state, subs@),
        decreases n - i,
    {
        let ghost before = subs@;
        let mut sub = kept.remove(0);
        let ghost sub_before = sub;
        assert(all.take(i + 1).drop_last() =~= all.take(i as int));
        assert(all.take(i + 1).last() == sub_before);
        if sub.push(state) {
            subs.push(sub);
            assert(subs@.drop_last() =~= before);
        } else {
            assert(sub_before.gave_up(sub));
        }
        assert(kept@ =~= all.skip(i + 1));
        i = i + 1;
    }
    assert(all.take(i as int) =~= all);
}

/// No subscriber is added by a snapshot.
pub proof fn fan_out_adds_none(
    old_subs: Seq<Subscriber>,
    state: LiveState,
    new_subs: Seq<Subscriber>,
)
    requires
        fanned_out(old_subs, state, new_subs),
    ensures
        new_subs.len() <= old_subs.len(),
    decreases old_subs.len(),
{
    if old_subs.len() > 0 {
        if fanned_out(old_subs.drop_last(), state, new_subs) {
            fan_out_adds_none(old_subs.drop_last(), state, new_subs);
        } else {
            fan_out_adds_none(old_subs.drop_last(), state, new_subs.drop_last());
        }
    }
}

/// A stream delivers what its channel has taken, in that order: as far as both
/// go, the items that were delivered are those that were taken.
pub proof fn stream_delivers_what_was_taken(sub: Subscriber, stream: StatusStream)
    requires
        sub.course() == stream.course(),
        on_course(sub.taken(), sub.course()),
        on_course(stream.delivered(), stream.course()),
    ensures
        forall|i: int|
            0 <= i < sub.taken().len() && i < stream.delivered().len() ==> #[trigger]
                stream.delivered()[i] == sub.taken()[i],
{
}

/// The samples among the items, in order.
pub open spec fn samples_of(items: Seq<StatusStreamItem>) -> Seq<LiveState>
    decreases items.len(),
{
    if items.len() == 0 {
        seq![]
    } else {
        match items.last() {
            StatusStreamItem::Sample(state) => samples_of(items.drop_last()).push(state),
            StatusStreamItem::Lagged { .. } => samples_of(items.drop_last()),
        }
    }
}

/// `part` is `whole` with some elements left out.
pub open spec fn in_order(part: Seq<LiveState>, whole: Seq<LiveState>) -> bool
    decreases whole.len(),
{
    ||| part.len() == 0
    ||| whole.len() > 0 && part.last() == whole.last() && in_order(
        part.drop_last(),
        whole.drop_last(),
    )
    ||| whole.len() > 0 && in_order(part, whole.drop_last())
}

/// `subs` is a subscriber that stays while `states` are pushed one after the
/// other: before the first and after each of them.
pub open spec fn pushed_in_turn(subs: Seq<Subscriber>, states: Seq<LiveState>) -> bool {
    &&& subs.len() == states.len() + 1
    &&& forall|i: int|
        0 <= i < states.len() ==> subs[i].offered(#[trigger] states[i], subs[i + 1])
}

proof fn samples_push(items: Seq<StatusStreamItem>, item: StatusStreamItem)
    ensures
        samples_of(items.push(item)) == match item {
            StatusStreamItem::Sample(state) => samples_of(items).push(state),
            StatusStreamItem::Lagged { .. } => samples_of(items),
        },
{
    assert(items.push(item).drop_last() =~= items);
}

/// No sample is lost without being counted, and none is counted twice: however
/// pushes and receives alternate, the samples that the channel has taken, those
/// that it was told were dropped and those that it is still to be told of are
/// as many as were pushed. The samples that it has taken are in the order of
/// the pushes.
pub proof fn every_sample_is_accounted_for(subs: Seq<Subscriber>, states: Seq<LiveState>)
    requires
        pushed_in_turn(subs, states),
        subs[0].taken().len() == 0,
        subs[0].pending() == 0,
        states.len() <= u64::MAX,
    ensures
        ({
            let last = subs.last();
            &&& samples_in(last.taken()) + dropped_in(last.taken()) + last.pending()
                == states.len()
            &&& in_order(samples_of(last.taken()), states)
            &&& on_course(last.taken(), last.course())
            &&& last.course() == subs[0].course()
            &&& last.room() == subs[0].room()
        }),
    decreases states.len(),
{
    if states.len() > 0 {
        let earlier = subs.drop_last();
        let before = earlier.last();
        let after = subs.last();
        let state = states.last();
        let count = StatusStreamItem::Lagged { dropped: before.pending() };
        let sample = StatusStreamItem::Sample(state);
        assert forall|i: int| 0 <= i < states.drop_last().len() implies earlier[i].offered(
            #[trigger] states.drop_last()[i],
            earlier[i + 1],
        ) by {
            assert(states.drop_last()[i] == states[i]);
        }
        every_sample_is_accounted_for(earlier, states.drop_last());
        assert(before.offered(states[states.len() - 1], after));
        count_push(before.taken(), count);
        count_push(before.taken(), sample);
        count_push(before.taken().push(count), sample);
        samples_push(before.taken(), count);
        samples_push(before.taken(), sample);
        samples_push(before.taken().push(count), sample);
        let kept = samples_of(before.taken());
        assert(kept.push(state).drop_last() =~= kept);
        assert(in_order(kept.push(state), states));
        assert(in_order(kept, states));
    } else {
        assert(subs.last() == subs[0]);
    }
}

/// A subscriber that lags is told. However pushes and receives alternated
/// before: when all that the channel has taken was delivered, and then a sample
/// is pushed, the stream yields the count of what was dropped and not yet told,
/// if there is any, and then the sample. With that count, all samples that were
/// pushed are accounted for, and those that were delivered came in the order of
/// the pushes.
///
/// `subs` and `states` are the pushes up to then, `before` is the stream with
/// everything delivered, `after` is the subscriber after the last push, `first`
/// and `second` are the stream after it was asked once and twice. The receives
/// up to `before` come before the last push, and the two others after it: each
/// end has seen what the other did until then.
pub proof fn lagging_subscriber_is_told(
    subs: Seq<Subscriber>,
    states: Seq<LiveState>,
    before: StatusStream,
    state: LiveState,
    after: Subscriber,
    first: (Option<StatusStreamItem>, StatusStream),
    second: (Option<StatusStreamItem>, StatusStream),
)
    requires
        pushed_in_turn(subs, states),
        subs[0].taken().len() == 0,
        subs[0].pending() == 0,
        subs[0].room() >= 2,
        states.len() <= u64::MAX,
        before.course() == subs[0].course(),
        on_course(before.delivered(), before.course()),
        before.delivered().len() == subs.last().taken().len(),
        subs.last().offered(state, after),
        before.delivered().len() <= after.seen(),
        before.asked(first.0, first.1),
        first.1.asked(second.0, second.1),
        after.taken().len() == first.1.seen() == second.1.seen(),
    ensures
        ({
            let received = before.delivered();
            let d = subs.last().pending();
            &&& states.len() == samples_in(received) + dropped_in(received) + d
            &&& in_order(samples_of(received), states)
            &&& after.pending() == 0
            &&& if d > 0 {
                &&& first.0 == Some(StatusStreamItem::Lagged { dropped: d })
                &&& second.0 == Some(StatusStreamItem::Sample(state))
            } else {
                &&& first.0 == Some(StatusStreamItem::Sample(state))
                &&& second.0 is None
            }
        }),
{
    let last = subs.last();
    let n = before.delivered().len();
    every_sample_is_accounted_for(subs, states);
    assert(before.delivered() =~= last.taken());
    assert(after.taken()[n as int] == after.course()[n]);
    if last.pending() > 0 {
        assert(after.taken()[(n + 1) as int] == after.course()[n + 1]);
    }
}

/// A snapshot is offered to every subscriber that stays, and these stay in
/// their order: `places` tells where each of them was. If none was removed,
/// each was offered the snapshot where it stands.
pub proof fn fan_out_serves_everyone(
    old_subs: Seq<Subscriber>,
    state: LiveState,
    new_subs: Seq<Subscriber>,
) -> (places: Seq<int>)
    requires
        fanned_out(old_subs, state, new_subs),
    ensures
        places.len() == new_subs.len(),
        forall|i: int| 0 <= i < places.len() ==> i <= #[trigger] places[i] < old_subs.len(),
        forall|i: int, j: int|
            0 <= i < j < places.len() ==> #[trigger] places[i] < #[trigger] places[j],
        forall|i: int|
            0 <= i < places.len() ==> old_subs[#[trigger] places[i]].offered(state, new_subs[i]),
        new_subs.len() == old_subs.len() ==> forall|i: int|
            0 <= i < places.len() ==> #[trigger] places[i] == i,
    decreases old_subs.len(),
{
    fan_out_adds_none(old_subs, state, new_subs);
    if old_subs.len() == 0 {
        seq![]
    } else {
        let shorter = old_subs.drop_last();
        if fanned_out(shorter, state, new_subs) {
            fan_out_adds_none(shorter, state, new_subs);
            fan_out_serves_everyone(shorter, state, new_subs)
        } else {
            let earlier = fan_out_serves_everyone(shorter, state, new_subs.drop_last());
            earlier.push(old_subs.len() - 1)
        }
    }
}

/// A count grows by one with every dropped sample, up to the largest number
/// that it can hold.
pub proof fn counts_grow_by_one(n: u64)
    ensures
        n < u64::MAX ==> one_more(n) == n + 1,
        n == u64::MAX ==> one_more(n) == n,
{
}

/// A subscriber that is told nothing new stays in step: a sample that finds a
/// free place, with nothing left to tell, is the one item that is added; one
/// that finds none adds nothing, and is what is left to tell.
pub proof fn sample_is_taken_or_counted(sub: Subscriber, state: LiveState, new: Subscriber)
    requires
        sub.offered(state, new),
        sub.pending() == 0,
    ensures
        sub.taken().len() < sub.room() + new.seen() ==> new.taken() == sub.taken().push(
            StatusStreamItem::Sample(state),
        ) && new.pending() == 0,
        sub.taken().len() == sub.room() + new.seen() ==> new.taken() == sub.taken() && new.pending()
            == 1,
        sub.taken().len() <= sub.room() + new.seen(),
{
}

/// A subscriber whose stream is gone loses nothing but what it was not told:
/// what the channel has taken only grows, by the count of dropped samples at
/// most.
pub proof fn gone_subscriber_takes_no_sample(sub: Subscriber, new: Subscriber)
    requires
        sub.gave_up(new),
    ensures
        new.gone(),
        new.taken() == sub.taken() || new.taken() == sub.taken().push(
            StatusStreamItem::Lagged { dropped: sub.pending() },
        ),
        sub.pending() == 0 ==> new.taken() == sub.taken(),
        samples_in(new.taken()) == samples_in(sub.taken()),
{
    count_push(sub.taken(), StatusStreamItem::Lagged { dropped: sub.pending() });
}

} // verus!
