//! The record type of the feed, its bounded payload, and the errors and
//! notifications of the engine boundary.

use vstd::prelude::*;

verus! {

/// Error raised by the feed engine itself.
///
/// Only one condition is reachable at the engine: an append that would push
/// the feed past its record-count bound. An oversized payload never reaches
/// the engine, because a payload over the byte bound cannot be constructed
/// as a [`BoundedBytes`] in the first place; the single error kind is kept
/// under its historical name rather than split.
#[derive(Clone, Copy, PartialEq, Eq, Debug)]
pub enum Error {
    /// The feed already holds its configured maximum number of records.
    EventTooLarge,
}

/// Error returned by [`crate::Pallet::submit_event`], the inbound boundary
/// operation.
///
/// `OriginRejected` passes through the verdict of the external authorization
/// collaborator unchanged; the engine itself only produces the capacity
/// failure.
#[derive(Clone, Copy, PartialEq, Eq, Debug)]
pub enum SubmitError {
    /// The external authorization check did not admit the caller.
    OriginRejected,
    /// The feed already holds its configured maximum number of records.
    EventTooLarge,
}

/// A byte payload whose length bound is checked once, at construction.
///
/// A value of this type can only be built through [`BoundedBytes::try_new`],
/// which rejects bytes over the bound, so the engine never re-validates
/// payload length at append time.
#[derive(PartialEq, Eq, Debug, Clone)]
pub struct BoundedBytes {
    bytes: Vec<u8>,
    limit: u32,
}

impl View for BoundedBytes {
    type V = Seq<u8>;

    closed spec fn view(&self) -> Seq<u8> {
        self.bytes@
    }
}

impl BoundedBytes {
    /// The length bound this payload was validated against.
    pub closed spec fn bound(self) -> u32 {
        self.limit
    }

    /// A payload is well formed when its bytes fit under its bound.
    pub open spec fn inv(self) -> bool {
        self@.len() <= self.bound()
    }

    /// Validating constructor: accepts `bytes` exactly when their length is
    /// at most `bound`, and hands the input back unchanged otherwise.
    pub fn try_new(bytes: Vec<u8>, bound: u32) -> (r: Result<BoundedBytes, Vec<u8>>)
        ensures
            bytes@.len() <= bound ==> (r matches Ok(b) && b@ == bytes@ && b.bound() == bound),
            bytes@.len() > bound ==> (r matches Err(e) && e@ == bytes@),
    {
        if bytes.len() <= bound as usize {
            Ok(BoundedBytes { bytes, limit: bound })
        } else {
            Err(bytes)
        }
    }

    /// Number of payload bytes.
    pub fn len(&self) -> (n: usize)
        ensures
            n == self@.len(),
    {
        self.bytes.len()
    }

    /// Consumes the payload and hands back the raw bytes.
    pub fn into_inner(self) -> (r: Vec<u8>)
        ensures
            r@ == self@,
    {
        self.bytes
    }

    /// A fresh copy of the raw bytes.
    pub fn to_vec(&self) -> (r: Vec<u8>)
        ensures
            r@ == self@,
    {
        let mut out: Vec<u8> = Vec::new();
        let mut i: usize = 0;
        while i < self.bytes.len()
            invariant
                i <= self.bytes@.len(),
                out@ == self.bytes@.take(i as int),
            decreases self.bytes@.len() - i,
        {
            out.push(self.bytes[i]);
            proof {
                assert(self.bytes@.take(i + 1) =~= self.bytes@.take(i as int).push(self.bytes@[i as int]));
            }
            i = i + 1;
        }
        proof {
            assert(self.bytes@.take(self.bytes@.len() as int) =~= self.bytes@);
        }
        out
    }
}

/// One record of the feed: an opaque payload and the round at which it was
/// recorded. Both fields are immutable once the record is stored.
#[derive(PartialEq, Eq, Debug, Clone)]
pub struct FeedEvent {
    /// Payload bytes, bounded at construction.
    pub value: BoundedBytes,
    /// The round that was current when the record was appended.
    pub round_recorded: u64,
}

/// Notification handed to observers, exactly once per successful append,
/// after the mutation is committed.
#[derive(PartialEq, Eq, Debug, Clone)]
pub enum Event {
    /// A new record entered the feed.
    NewFeedEvent {
        /// The raw payload bytes of the new record.
        value: Vec<u8>,
        /// The round at which the record was appended.
        round: u64,
    },
}

} // verus!
