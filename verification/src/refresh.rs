//! What a refresh loop decides after each round: a value that was fetched
//! and verified is published, any failure leaves the slot as it is, and
//! either way the loop is told how long to wait.

use crate::slot::Slot;
use crate::tsl::{SignerPolicy, TrustListDocument, Tsl};
use std::sync::Arc;
use vstd::prelude::*;

verus! {

/// How one round of a refresh loop ended.
#[derive(Debug)]
pub enum Round<T> {
    /// The source could not be fetched.
    FetchFailed,
    /// What was fetched did not parse or did not verify.
    Rejected,
    /// A new value was fetched and verified.
    Verified(T),
}

/// What a refresh loop does before its next round.
#[derive(Debug, Clone, Copy, PartialEq, Eq, Structural)]
pub struct Pause {
    /// The seconds to wait before the source is fetched again.
    pub seconds: u64,
    /// Whether the registries that are derived from the slot are to be
    /// woken.
    pub notify: bool,
}

/// The timing of one refresh loop.
#[derive(Debug, Clone, Copy, PartialEq, Eq, Structural)]
pub struct Schedule {
    /// The seconds between two rounds after a success.
    pub interval: u64,
    /// The seconds to wait after a failure.
    pub backoff: u64,
    /// Whether registries are derived from the slot of this loop.
    pub feeds_registry: bool,
}

/// What a slot holds after a round was settled: the value of a verified
/// round, else what it held before.
pub open spec fn settled<T>(held: Option<T>, round: Round<T>) -> Option<T> {
    match round {
        Round::Verified(value) => Some(value),
        _ => held,
    }
}

/// A round that failed, for whichever reason, leaves in the slot what was
/// published before, and leaves an empty slot empty.
pub proof fn lemma_failed_round_retains<T>(held: Option<T>, round: Round<T>)
    requires
        !(round is Verified),
    ensures
        settled(held, round) == held,
{
}

/// A verified round leaves its value in the slot, whatever was there.
pub proof fn lemma_verified_round_replaces<T>(held: Option<T>, value: T)
    ensures
        settled(held, Round::Verified(value)) == Some(value),
{
}

impl Schedule {
    /// The pause after a round that published a value.
    pub open spec fn after_success(self) -> Pause {
        Pause { seconds: self.interval, notify: self.feeds_registry }
    }

    /// The pause after a round that failed.
    pub open spec fn after_failure(self) -> Pause {
        Pause { seconds: self.backoff, notify: false }
    }

    /// The pause after a round that published a value.
    pub fn success_pause(&self) -> (pause: Pause)
        ensures
            pause == self.after_success(),
    {
        Pause { seconds: self.interval, notify: self.feeds_registry }
    }

    /// The pause after a round that failed.
    pub fn failure_pause(&self) -> (pause: Pause)
        ensures
            pause == self.after_failure(),
    {
        Pause { seconds: self.backoff, notify: false }
    }

    /// Settles one round: a verified value replaces what the slot holds and
    /// the derived registries are woken where there are any; after a failed
    /// round the slot holds what it held before and nobody is woken.
    pub fn settle<T>(&self, slot: &mut Slot<T>, round: Round<T>) -> (pause: Pause)
        ensures
            final(slot)@ == settled(old(slot)@, round),
            pause == if round is Verified {
                self.after_success()
            } else {
                self.after_failure()
            },
    {
        match round {
            Round::Verified(value) => {
                slot.publish(Arc::new(value));
                self.success_pause()
            },
            _ => self.failure_pause(),
        }
    }

    /// One round of a trust list loop: `fetched` is the document as it was
    /// read, `None` where the source could not be fetched or read. The list
    /// is published where its signature matched and the policy accepts its
    /// signer; any failure is settled as a failed round.
    pub fn settle_trust_list(
        &self,
        slot: &mut Slot<Tsl>,
        fetched: Option<TrustListDocument>,
        policy: &SignerPolicy,
    ) -> (pause: Pause)
        ensures
            match fetched {
                Some(document) if document.acceptable(policy) => {
                    &&& final(slot)@ matches Some(tsl)
                    &&& tsl@ == document.listed()
                    &&& pause == self.after_success()
                },
                _ => final(slot)@ == old(slot)@ && pause == self.after_failure(),
            },
    {
        let round = match fetched {
            Some(document) => match Tsl::parse_and_verify(document, policy) {
                Ok(tsl) => Round::Verified(tsl),
                Err(_) => Round::Rejected,
            },
            None => Round::FetchFailed,
        };
        self.settle(slot, round)
    }
}

} // verus!
