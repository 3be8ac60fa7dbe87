//! The feed engine: bounded append and the per-round age sweep, over one
//! shared storage cell.

use vstd::prelude::*;

use crate::laws::lemma_sweep_fresh;
use crate::laws::lemma_sweep_len;
use crate::laws::lemma_sweep_preserves_order;
use crate::types::BoundedBytes;
use crate::types::Error;
use crate::types::Event;
use crate::types::FeedEvent;
use crate::types::SubmitError;

verus! {

/// Mathematical model of the engine state: the feed, the notifications
/// emitted so far, and the three configured bounds.
pub ghost struct PalletView {
    /// The retained records, oldest first.
    pub feed: Seq<FeedEvent>,
    /// Every notification emitted so far, oldest first.
    pub log: Seq<Event>,
    /// Hard bound on the number of retained records.
    pub max_events_in_feed: u32,
    /// Number of rounds a record survives before the sweep evicts it.
    pub max_event_age: u64,
    /// Hard bound on the payload bytes of one record.
    pub max_event_bytes: u32,
}

/// The record a successful append stores for `value` at `round`.
pub open spec fn record(value: BoundedBytes, round: u64) -> FeedEvent {
    FeedEvent { value, round_recorded: round }
}

/// The oldest round a record may carry and still survive a sweep at
/// `current_round`: `current_round - max_age`, saturating at zero, so no
/// record is evicted before round `max_age` is reached.
pub open spec fn oldest_allowed(current_round: u64, max_age: u64) -> u64 {
    if current_round >= max_age {
        (current_round - max_age) as u64
    } else {
        0
    }
}

/// What a sweep leaves of `feed`: every record recorded at or after
/// `threshold`, in their original relative order.
pub open spec fn swept(feed: Seq<FeedEvent>, threshold: u64) -> Seq<FeedEvent>
    decreases feed.len(),
{
    if feed.len() == 0 {
        Seq::empty()
    } else if feed.last().round_recorded >= threshold {
        swept(feed.drop_last(), threshold).push(feed.last())
    } else {
        swept(feed.drop_last(), threshold)
    }
}

/// The two views agree on all three configured bounds.
pub open spec fn same_config(a: PalletView, b: PalletView) -> bool {
    &&& a.max_events_in_feed == b.max_events_in_feed
    &&& a.max_event_age == b.max_event_age
    &&& a.max_event_bytes == b.max_event_bytes
}

/// The emitted log grew by exactly one `NewFeedEvent` carrying `value` and
/// `round`.
pub open spec fn emitted(log_pre: Seq<Event>, log_post: Seq<Event>, value: Seq<u8>, round: u64) -> bool {
    &&& log_post.len() == log_pre.len() + 1
    &&& log_post.drop_last() == log_pre
    &&& log_post.last() matches Event::NewFeedEvent { value: v, round: r } && v@ == value && r == round
}

/// The feed engine.
///
/// It owns the feed exclusively: callers observe it through [`Pallet::feed`]
/// and mutate it only through the append and sweep operations. The three
/// bounds are fixed at construction; the host advancing the rounds drives
/// the lifecycle hooks and supplies the current round to every operation.
pub struct Pallet {
    feed: Vec<FeedEvent>,
    events: Vec<Event>,
    max_events_in_feed: u32,
    max_event_age: u64,
    max_event_bytes: u32,
}

impl View for Pallet {
    type V = PalletView;

    closed spec fn view(&self) -> PalletView {
        PalletView {
            feed: self.feed@,
            log: self.events@,
            max_events_in_feed: self.max_events_in_feed,
            max_event_age: self.max_event_age,
            max_event_bytes: self.max_event_bytes,
        }
    }
}

impl Pallet {
    /// The engine invariant, holding in every reachable state: the feed
    /// never exceeds the record-count bound, and every retained payload fits
    /// under the byte bound.
    pub open spec fn inv(self) -> bool {
        &&& self@.feed.len() <= self@.max_events_in_feed
        &&& forall|i: int|
            0 <= i < self@.feed.len() ==> (#[trigger] self@.feed[i]).value@.len()
                <= self@.max_event_bytes
    }

    /// A fresh engine: an empty feed under the given bounds.
    pub fn new(max_events_in_feed: u32, max_event_age: u64, max_event_bytes: u32) -> (engine: Pallet)
        ensures
            engine.inv(),
            engine@.feed == Seq::<FeedEvent>::empty(),
            engine@.log == Seq::<Event>::empty(),
            engine@.max_events_in_feed == max_events_in_feed,
            engine@.max_event_age == max_event_age,
            engine@.max_event_bytes == max_event_bytes,
    {
        Pallet {
            feed: Vec::new(),
            events: Vec::new(),
            max_events_in_feed,
            max_event_age,
            max_event_bytes,
        }
    }

    /// Read accessor: a consistent snapshot of the retained records, oldest
    /// first, reflecting all completed appends and sweeps.
    pub fn feed(&self) -> (r: &Vec<FeedEvent>)
        ensures
            r@ == self@.feed,
    {
        &self.feed
    }

    /// The notifications emitted so far, oldest first.
    pub fn events(&self) -> (r: &Vec<Event>)
        ensures
            r@ == self@.log,
    {
        &self.events
    }

    /// Appends one record under the count bound.
    ///
    /// The payload length is a structural precondition, already enforced by
    /// the bounded construction of `value`, and is not re-checked here. The
    /// append succeeds exactly when the feed is below its count bound;
    /// otherwise it fails with [`Error::EventTooLarge`] and leaves the
    /// engine untouched.
    pub fn append(&mut self, value: BoundedBytes, current_round: u64) -> (r: Result<(), Error>)
        requires
            old(self).inv(),
            value@.len() <= old(self)@.max_event_bytes,
        ensures
            final(self).inv(),
            same_config(final(self)@, old(self)@),
            final(self)@.log == old(self)@.log,
            old(self)@.feed.len() < old(self)@.max_events_in_feed ==> (r == Ok::<(), Error>(())
                && final(self)@.feed == old(self)@.feed.push(record(value, current_round))),
            old(self)@.feed.len() >= old(self)@.max_events_in_feed ==> (
                r == Err::<(), Error>(Error::EventTooLarge)
                && final(self)@ == old(self)@),
    {
        if self.feed.len() < self.max_events_in_feed as usize {
            self.feed.push(FeedEvent { value, round_recorded: current_round });
            Ok(())
        } else {
            Err(Error::EventTooLarge)
        }
    }

    /// The inbound boundary operation: submits a payload on behalf of a
    /// caller whose authorization the external collaborator has already
    /// judged, and emits one notification per successful append.
    ///
    /// `origin_authorized` is that collaborator's decision: when it is false
    /// the submission is rejected unchanged as
    /// [`SubmitError::OriginRejected`]; the engine adds no policy of its
    /// own.
    pub fn submit_event(
        &mut self,
        origin_authorized: bool,
        value: BoundedBytes,
        current_round: u64,
    ) -> (r: Result<(), SubmitError>)
        requires
            old(self).inv(),
            value@.len() <= old(self)@.max_event_bytes,
        ensures
            final(self).inv(),
            same_config(final(self)@, old(self)@),
            !origin_authorized ==> (r == Err::<(), SubmitError>(SubmitError::OriginRejected)
                && final(self)@ == old(self)@),
            origin_authorized && old(self)@.feed.len() >= old(self)@.max_events_in_feed ==> (
                r == Err::<(), SubmitError>(SubmitError::EventTooLarge)
                && final(self)@ == old(self)@),
            origin_authorized && old(self)@.feed.len() < old(self)@.max_events_in_feed ==> (
                r == Ok::<(), SubmitError>(())
                && final(self)@.feed == old(self)@.feed.push(record(value, current_round))
                && emitted(old(self)@.log, final(self)@.log, value@, current_round)),
    {
        if !origin_authorized {
            return Err(SubmitError::OriginRejected);
        }
        let event_bytes: Vec<u8> = value.to_vec();
        match self.append(value, current_round) {
            Ok(()) => {
                self.events.push(Event::NewFeedEvent { value: event_bytes, round: current_round });
                proof {
                    assert(self@.log.drop_last() =~= old(self)@.log);
                }
                Ok(())
            },
            Err(_) => Err(SubmitError::EventTooLarge),
        }
    }

    /// The age sweep: retains exactly the records recorded at or after
    /// `oldest_allowed(current_round, max_event_age)`, in their original
    /// relative order, and discards the rest. It cannot fail; an empty feed
    /// sweeps to itself.
    pub fn sweep(&mut self, current_round: u64)
        requires
            old(self).inv(),
        ensures
            final(self).inv(),
            same_config(final(self)@, old(self)@),
            final(self)@.log == old(self)@.log,
            final(self)@.feed == swept(
                old(self)@.feed,
                oldest_allowed(current_round, old(self)@.max_event_age),
            ),
            forall|i: int|
                0 <= i < final(self)@.feed.len()
                    ==> (#[trigger] final(self)@.feed[i]).round_recorded
                    >= oldest_allowed(current_round, old(self)@.max_event_age),
    {
        let threshold: u64 = if current_round >= self.max_event_age {
            current_round - self.max_event_age
        } else {
            0
        };
        let mut old_feed: Vec<FeedEvent> = Vec::new();
        core::mem::swap(&mut old_feed, &mut self.feed);
        let ghost orig: Seq<FeedEvent> = old_feed@;
        let mut kept: Vec<FeedEvent> = Vec::new();
        while old_feed.len() > 0
            invariant
                old_feed@.len() <= orig.len(),
                old_feed@ == orig.skip(orig.len() - old_feed@.len()),
                kept@ == swept(orig.take(orig.len() - old_feed@.len()), threshold),
            decreases old_feed@.len(),
        {
            let ghost k: int = orig.len() - old_feed@.len();
            let e = old_feed.remove(0);
            proof {
                assert(e == orig[k]);
                assert(old_feed@ =~= orig.skip(k + 1));
                assert(orig.take(k + 1).drop_last() =~= orig.take(k));
                assert(orig.take(k + 1).last() == orig[k]);
            }
            if e.round_recorded >= threshold {
                kept.push(e);
            }
            proof {
                assert(kept@ == swept(orig.take(k + 1), threshold));
            }
        }
        self.feed = kept;
        proof {
            assert(orig.take(orig.len() as int) =~= orig);
            assert(threshold == oldest_allowed(current_round, old(self)@.max_event_age));
            lemma_sweep_len(orig, threshold);
            lemma_sweep_fresh(orig, threshold);
            let positions = lemma_sweep_preserves_order(orig, threshold);
            assert forall|i: int| 0 <= i < self@.feed.len() implies (#[trigger] self@.feed[i]).value@.len()
                <= self@.max_event_bytes by {
                assert(self@.feed[i] == orig[positions[i]]);
            }
        }
    }

    /// Round-finalization hook: runs the sweep for the finishing round,
    /// unconditionally, once per round.
    pub fn on_finalize(&mut self, n: u64)
        requires
            old(self).inv(),
        ensures
            final(self).inv(),
            same_config(final(self)@, old(self)@),
            final(self)@.log == old(self)@.log,
            final(self)@.feed == swept(
                old(self)@.feed,
                oldest_allowed(n, old(self)@.max_event_age),
            ),
            forall|i: int|
                0 <= i < final(self)@.feed.len()
                    ==> (#[trigger] final(self)@.feed[i]).round_recorded
                    >= oldest_allowed(n, old(self)@.max_event_age),
    {
        self.sweep(n);
    }

    /// Round-initialization hook: a no-op, kept for symmetry with the host's
    /// lifecycle contract.
    pub fn on_initialize(&mut self, _n: u64)
        ensures
            *final(self) == *old(self),
    {
    }
}

} // verus!
