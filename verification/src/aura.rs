//! The decisions of a slot-based block author for a parachain: which slots it still
//! produces a candidate for, and how large the candidate may be.

use vstd::prelude::*;

verus! {

/// The length of a slot in milliseconds.
#[derive(Clone, Copy, PartialEq, Eq, Debug, Structural)]
pub struct SlotDuration(pub u64);

impl SlotDuration {
    /// The length of a slot in milliseconds.
    pub fn as_millis(&self) -> (millis: u64)
        ensures
            millis == self.0,
    {
        self.0
    }
}

/// Parameters of [`AuraConsensus::build`].
#[derive(Clone, Copy, PartialEq, Eq, Debug, Structural)]
pub struct BuildAuraConsensusParams {
    /// The length of a slot.
    pub slot_duration: SlotDuration,
}

/// What the author is asked to build in a slot.
#[derive(Clone, Copy, PartialEq, Eq, Debug, Structural)]
pub struct SlotPlan {
    /// The slot to author in.
    pub slot: u64,
    /// The length of the slot.
    pub duration: SlotDuration,
    /// The most bytes that the block may take.
    pub block_size_limit: usize,
}

/// The largest block to propose for a candidate whose proof is limited to
/// `max_pov_size` bytes: half of that limit.
pub open spec fn spec_block_size_limit(max_pov_size: u32) -> usize {
    (max_pov_size / 2) as usize
}

/// The largest block to propose for a candidate whose proof is limited to
/// `max_pov_size` bytes.
pub fn block_size_limit(max_pov_size: u32) -> (limit: usize)
    ensures
        limit == spec_block_size_limit(max_pov_size),
{
    (max_pov_size / 2) as usize
}

/// The slot-based consensus of a parachain: it produces at most one candidate in a
/// slot.
#[derive(Debug)]
pub struct AuraConsensus {
    /// The length of a slot.
    pub slot_duration: SlotDuration,
    /// The latest slot that a candidate was asked for.
    pub last_slot_processed: u64,
}

impl AuraConsensus {
    /// Creates the consensus. No slot has been processed yet.
    pub fn build(params: BuildAuraConsensusParams) -> (consensus: AuraConsensus)
        ensures
            consensus.slot_duration == params.slot_duration,
            consensus.last_slot_processed == 0,
    {
        AuraConsensus {
            slot_duration: params.slot_duration,
            last_slot_processed: 0,
        }
    }

    /// Notes that a candidate is asked for in `slot`, and tells whether this is the
    /// first time for this slot or a later one: only then a candidate is produced.
    pub fn claim_slot(&mut self, slot: u64) -> (fresh: bool)
        ensures
            fresh == (old(self).last_slot_processed < slot),
            final(self).last_slot_processed == if old(self).last_slot_processed < slot {
                slot
            } else {
                old(self).last_slot_processed
            },
            final(self).slot_duration == old(self).slot_duration,
    {
        let previous = self.last_slot_processed;
        if previous < slot {
            self.last_slot_processed = slot;
        }
        previous < slot
    }

    /// What to do about a request for a candidate: nothing where the inherent data
    /// gave no slot or where the slot is not ahead of the last one processed; else
    /// author in the slot, with a block of at most half the size that the proof of the
    /// candidate may have.
    pub fn produce_candidate(&mut self, slot: Option<u64>, max_pov_size: u32) -> (plan: Option<
        SlotPlan,
    >)
        ensures
            plan == match slot {
                Some(slot) if old(self).last_slot_processed < slot => Some(
                    SlotPlan {
                        slot,
                        duration: old(self).slot_duration,
                        block_size_limit: spec_block_size_limit(max_pov_size),
                    },
                ),
                _ => None::<SlotPlan>,
            },
            final(self).last_slot_processed == match slot {
                Some(slot) if old(self).last_slot_processed < slot => slot,
                _ => old(self).last_slot_processed,
            },
            final(self).slot_duration == old(self).slot_duration,
    {
        match slot {
            None => None,
            Some(slot) => {
                let info = SlotPlan {
                    slot,
                    duration: self.slot_duration,
                    block_size_limit: block_size_limit(max_pov_size),
                };
                if self.claim_slot(info.slot) {
                    Some(info)
                } else {
                    None
                }
            },
        }
    }
}

/// The slots among `requests`, in order, for which a consensus that has last
/// processed the slot `last` produces a candidate.
pub open spec fn produced_slots(last: u64, requests: Seq<u64>) -> Seq<u64>
    decreases requests.len(),
{
    if requests.len() == 0 {
        Seq::empty()
    } else if last < requests.first() {
        seq![requests.first()] + produced_slots(requests.first(), requests.skip(1))
    } else {
        produced_slots(last, requests.skip(1))
    }
}

/// However often and in whatever order candidates are asked for, the slots in which
/// one is produced are strictly increasing: no slot gets a second candidate, and none
/// gets one after a later slot did.
pub proof fn candidates_come_in_increasing_slots(last: u64, requests: Seq<u64>)
    ensures
        forall|i: int|
            0 <= i < produced_slots(last, requests).len() ==> last < #[trigger] produced_slots(
                last,
                requests,
            )[i],
        forall|i: int, j: int|
            0 <= i < j < produced_slots(last, requests).len() ==> produced_slots(
                last,
                requests,
            )[i] < produced_slots(last, requests)[j],
    decreases requests.len(),
{
    if requests.len() > 0 {
        let first = requests.first();
        let rest = requests.skip(1);
        if last < first {
            candidates_come_in_increasing_slots(first, rest);
            let tail = produced_slots(first, rest);
            let all = produced_slots(last, requests);
            assert(all =~= seq![first] + tail);
            assert forall|i: int| 0 <= i < all.len() implies last < #[trigger] all[i] by {
                if i > 0 {
                    assert(all[i] == tail[i - 1]);
                }
            }
            assert forall|i: int, j: int| 0 <= i < j < all.len() implies all[i] < all[j] by {
                assert(all[j] == tail[j - 1]);
                if i > 0 {
                    assert(all[i] == tail[i - 1]);
                } else {
                    assert(first < tail[j - 1]);
                }
            }
        } else {
            candidates_come_in_increasing_slots(last, rest);
            assert(produced_slots(last, requests) == produced_slots(last, rest));
        }
    } else {
        assert(produced_slots(last, requests).len() == 0);
    }
}

} // verus!
