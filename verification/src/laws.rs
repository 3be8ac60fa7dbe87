//! General laws of the age sweep, stated over the sweep model [`swept`] that
//! the engine contracts use.

use vstd::prelude::*;

use crate::pallet::swept;
use crate::types::FeedEvent;

verus! {

/// Law: a sweep never lengthens the feed, so the record-count bound is
/// maintained by sweeping.
pub proof fn lemma_sweep_len(feed: Seq<FeedEvent>, threshold: u64)
    ensures
        swept(feed, threshold).len() <= feed.len(),
    decreases feed.len(),
{
    if feed.len() > 0 {
        lemma_sweep_len(feed.drop_last(), threshold);
    }
}

/// Law: immediately after a sweep, every surviving record was recorded at or
/// after the threshold.
pub proof fn lemma_sweep_fresh(feed: Seq<FeedEvent>, threshold: u64)
    ensures
        forall|i: int|
            0 <= i < swept(feed, threshold).len() ==> (#[trigger] swept(feed, threshold)[i]).round_recorded
                >= threshold,
    decreases feed.len(),
{
    if feed.len() > 0 {
        lemma_sweep_fresh(feed.drop_last(), threshold);
        let s = swept(feed, threshold);
        let prev = swept(feed.drop_last(), threshold);
        if feed.last().round_recorded >= threshold {
            assert forall|i: int| 0 <= i < s.len() implies (#[trigger] s[i]).round_recorded
                >= threshold by {
                if i < prev.len() {
                    assert(s[i] == prev[i]);
                } else {
                    assert(s[i] == feed.last());
                }
            }
        }
    }
}

/// Law: a sweep discards only stale records — every record recorded at or
/// after the threshold is retained.
pub proof fn lemma_sweep_retains_fresh(feed: Seq<FeedEvent>, threshold: u64)
    ensures
        forall|i: int|
            0 <= i < feed.len() && (#[trigger] feed[i]).round_recorded >= threshold ==> swept(
                feed,
                threshold,
            ).contains(feed[i]),
    decreases feed.len(),
{
    if feed.len() > 0 {
        lemma_sweep_retains_fresh(feed.drop_last(), threshold);
        let prev = swept(feed.drop_last(), threshold);
        let s = swept(feed, threshold);
        assert forall|i: int|
            0 <= i < feed.len() && (#[trigger] feed[i]).round_recorded >= threshold implies s.contains(
            feed[i],
        ) by {
            if i < feed.len() - 1 {
                assert(feed.drop_last()[i] == feed[i]);
                assert(prev.contains(feed[i]));
                let j = choose|j: int| 0 <= j < prev.len() && prev[j] == feed[i];
                assert(s[j] == feed[i]);
            } else {
                assert(s[s.len() - 1] == feed.last());
            }
        }
    }
}

/// Law: a feed whose every record is at or after the threshold sweeps to
/// itself.
pub proof fn lemma_sweep_of_fresh_feed(feed: Seq<FeedEvent>, threshold: u64)
    requires
        forall|i: int| 0 <= i < feed.len() ==> (#[trigger] feed[i]).round_recorded >= threshold,
    ensures
        swept(feed, threshold) == feed,
    decreases feed.len(),
{
    if feed.len() == 0 {
        assert(swept(feed, threshold) =~= feed);
    } else {
        assert(feed.last() == feed[feed.len() - 1]);
        assert forall|i: int| 0 <= i < feed.drop_last().len() implies (#[trigger] feed.drop_last()[i]).round_recorded
            >= threshold by {
            assert(feed.drop_last()[i] == feed[i]);
        }
        lemma_sweep_of_fresh_feed(feed.drop_last(), threshold);
        assert(swept(feed, threshold) =~= feed);
    }
}

/// Law: sweeping is idempotent — with no intervening append, a second sweep
/// at the same round leaves the feed exactly as the first did.
pub proof fn lemma_sweep_idempotent(feed: Seq<FeedEvent>, threshold: u64)
    ensures
        swept(swept(feed, threshold), threshold) == swept(feed, threshold),
{
    lemma_sweep_fresh(feed, threshold);
    lemma_sweep_of_fresh_feed(swept(feed, threshold), threshold);
}

/// Law: a sweep never reorders surviving records. The survivors are the
/// records of the old feed at the returned positions, which are strictly
/// increasing: relative order before and after the sweep is identical.
pub proof fn lemma_sweep_preserves_order(feed: Seq<FeedEvent>, threshold: u64) -> (positions: Seq<
    int,
>)
    ensures
        positions.len() == swept(feed, threshold).len(),
        forall|k: int| 0 <= k < positions.len() ==> 0 <= #[trigger] positions[k] < feed.len(),
        forall|k: int|
            0 <= k < positions.len() ==> feed[#[trigger] positions[k]] == swept(feed, threshold)[k],
        forall|k1: int, k2: int|
            0 <= k1 < k2 < positions.len() ==> #[trigger] positions[k1] < #[trigger] positions[k2],
    decreases feed.len(),
{
    if feed.len() == 0 {
        Seq::empty()
    } else {
        let prev = lemma_sweep_preserves_order(feed.drop_last(), threshold);
        assert forall|k: int| 0 <= k < prev.len() implies feed[#[trigger] prev[k]] == swept(
            feed.drop_last(),
            threshold,
        )[k] by {
            assert(feed.drop_last()[prev[k]] == feed[prev[k]]);
        }
        if feed.last().round_recorded >= threshold {
            let positions = prev.push(feed.len() - 1);
            let s = swept(feed, threshold);
            assert forall|k: int| 0 <= k < positions.len() implies feed[#[trigger] positions[k]]
                == s[k] by {
                if k < prev.len() {
                    assert(positions[k] == prev[k]);
                    assert(s[k] == swept(feed.drop_last(), threshold)[k]);
                }
            }
            positions
        } else {
            prev
        }
    }
}

} // verus!
