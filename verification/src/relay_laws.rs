//! What holds of the target side of the relay across its operations.

use crate::lane::{InboundLaneView, MessageNonce, UnrewardedRelayersState};
use crate::target::{
    after_state_check, header_requirement, state_query_run, BatchProofTransaction, CallEffect,
    Connection, Error, FinalCall, HeaderId, HeaderRequirement, StateCheck, StateStep,
    SubstrateMessagesTarget,
};
use vstd::prelude::*;

verus! {

/// A lane whose record is missing or empty at the target chain is a lane without
/// traffic: nothing is delivered, nothing confirmed, and no relayer waits for a reward.
pub proof fn missing_record_is_an_empty_lane<SourceClnt, TargetClnt, Signer, Relay, E>(
    target: SubstrateMessagesTarget<SourceClnt, TargetClnt, Signer, Relay>,
    raw: Result<Option<Vec<u8>>, E>,
)
    requires
        raw matches Ok(entry) && (entry matches Some(bytes) ==> bytes@.len() == 0),
    ensures
        target.stored_lane_or_empty(raw) == Ok::<InboundLaneView, Error<E>>(
            InboundLaneView::empty(),
        ),
        InboundLaneView::empty().last_delivered_nonce() == 0,
        InboundLaneView::empty().last_confirmed_nonce == 0,
        InboundLaneView::empty().relayers_state() == (UnrewardedRelayersState {
            unrewarded_relayer_entries: 0,
            messages_in_oldest_entry: 0,
            total_messages: 0,
            last_delivered_nonce: 0,
        }),
{
}

/// A summary read at a block passes the source chain's check against the record
/// proved at the same block. Against a record proved at another block it passes
/// exactly if that record has the same summary.
pub proof fn summary_is_valid_for_its_block(read: InboundLaneView, proved: InboundLaneView)
    ensures
        read.relayers_state().spec_is_valid(read),
        read.relayers_state().spec_is_valid(proved) <==> read.relayers_state()
            == proved.relayers_state(),
{
}

/// A `state` query stops at the first chain that is not synced: it reports that
/// chain's error, makes no further check and never gets to read the heads. The heads
/// are read only after all three checks have passed.
pub proof fn unsynced_chain_ends_state_query<E>(
    source_synced: Result<(), E>,
    target_synced: Result<(), E>,
    pallet_active: Result<(), E>,
)
    ensures
        source_synced matches Err(e) ==> state_query_run(
            source_synced,
            target_synced,
            pallet_active,
        ) == (seq![StateCheck::SourceSynced], Some(Error::Client(e))),
        source_synced is Ok ==> (target_synced matches Err(e) ==> state_query_run(
            source_synced,
            target_synced,
            pallet_active,
        ) == (seq![StateCheck::SourceSynced, StateCheck::TargetSynced], Some(Error::Client(e)))),
        state_query_run(source_synced, target_synced, pallet_active).1 is None <==> (
        source_synced is Ok && target_synced is Ok && pallet_active is Ok),
        state_query_run(source_synced, target_synced, pallet_active).1 is None
            ==> after_state_check(StateCheck::PalletActive, pallet_active) == StateStep::<
            E,
        >::ReadHeads,
{
}

/// `reconnect` restores the target connection first, then the source connection, then
/// the headers relay where one runs. It stops at the first failure and reports it;
/// it succeeds only if every connection it tried was restored.
pub proof fn reconnect_goes_in_order_and_fails_fast<SourceClnt, TargetClnt, Signer, Relay, E>(
    target: SubstrateMessagesTarget<SourceClnt, TargetClnt, Signer, Relay>,
    target_outcome: Result<(), E>,
    source_outcome: Result<(), E>,
    relay_outcome: Result<(), E>,
)
    ensures
        ({
            let (tried, result) = target.reconnect_run(
                target_outcome,
                source_outcome,
                relay_outcome,
            );
            let all = seq![Connection::Target, Connection::Source, Connection::HeadersRelay];
            &&& 1 <= tried.len() <= 3
            &&& tried == all.subrange(0, tried.len() as int)
            &&& target_outcome matches Err(e) ==> tried.len() == 1 && result == Err::<
                (),
                Error<E>,
            >(Error::Client(e))
            &&& target_outcome is Ok ==> (source_outcome matches Err(e) ==> tried.len() == 2
                && result == Err::<(), Error<E>>(Error::Client(e)))
            &&& target_outcome is Ok && source_outcome is Ok ==> (tried.len() == 3
                <==> target.source_to_target_headers_relay is Some)
            &&& tried.len() == 3 ==> result == match relay_outcome {
                Ok(_) => Ok::<(), Error<E>>(()),
                Err(e) => Err(Error::Client(e)),
            }
            &&& target_outcome is Ok && source_outcome is Ok && tried.len() == 2 ==> result is Ok
        }),
{
    let (tried, result) = target.reconnect_run(target_outcome, source_outcome, relay_outcome);
    let all = seq![Connection::Target, Connection::Source, Connection::HeadersRelay];
    assert(tried =~= all.subrange(0, tried.len() as int));
}

/// A batch that the on-demand relay offers is submitted with the delivery: the
/// resulting call submits every header call of the batch, in order, and then delivers
/// the messages. Where the relay offers none, the relay is told which header is
/// needed, and a delivery without batch has the delivery as its only effect.
pub proof fn batch_carries_headers_before_delivery<Hash, Number, Call, ProofHash, E>(
    id: HeaderId<Hash, Number>,
    answer: Result<Option<BatchProofTransaction<Hash, Number, Call>>, E>,
    final_call: FinalCall<ProofHash, Call>,
)
    ensures
        answer matches Ok(Some(batch_tx)) ==> header_requirement(id, answer) == Ok::<
            HeaderRequirement<BatchProofTransaction<Hash, Number, Call>, Number>,
            Error<E>,
        >(HeaderRequirement::Batched(batch_tx)),
        answer matches Ok(None) ==> header_requirement(id, answer) == Ok::<
            HeaderRequirement<BatchProofTransaction<Hash, Number, Call>, Number>,
            Error<E>,
        >(HeaderRequirement::RequireMoreHeaders(id.0)),
        final_call.effects().len() == final_call.header_calls().len() + 1,
        final_call.effects().last() == CallEffect::<ProofHash, Call>::MessagesDelivered(
            final_call.delivery(),
        ),
        forall|i: int|
            0 <= i < final_call.header_calls().len() ==> #[trigger] final_call.effects()[i]
                == CallEffect::<ProofHash, Call>::HeaderSubmitted(final_call.header_calls()[i]),
        final_call is Delivery ==> final_call.effects() == seq![
            CallEffect::<ProofHash, Call>::MessagesDelivered(final_call.delivery()),
        ],
{
    if final_call is Delivery {
        assert(final_call.effects() =~= seq![
            CallEffect::<ProofHash, Call>::MessagesDelivered(final_call.delivery()),
        ]);
    }
}

/// One delivery as the scheduling loop makes it on a lane.
pub struct Delivery {
    /// The last delivered nonce that the target chain reported before the submission.
    pub received_before: MessageNonce,
    /// The first nonce that was submitted.
    pub first: MessageNonce,
    /// The last nonce that was submitted.
    pub last: MessageNonce,
}

/// The discipline of the scheduling loop: every delivery is a non-empty range above
/// what the target chain had received when it was made, and the state that a delivery
/// is based on was read after the delivery before it had taken effect.
pub open spec fn deliveries_follow_target_state(deliveries: Seq<Delivery>) -> bool {
    &&& forall|i: int|
        0 <= i < deliveries.len() ==> (#[trigger] deliveries[i]).received_before
            < deliveries[i].first <= deliveries[i].last
    &&& forall|i: int|
        0 <= i < deliveries.len() - 1 ==> (#[trigger] deliveries[i]).last <= deliveries[i
            + 1].received_before
}

/// The target state that later deliveries are based on never falls behind that of
/// earlier ones.
proof fn target_state_advances(deliveries: Seq<Delivery>, i: int, j: int)
    requires
        deliveries_follow_target_state(deliveries),
        0 <= i <= j < deliveries.len(),
    ensures
        deliveries[i].received_before <= deliveries[j].received_before,
    decreases j - i,
{
    if i < j {
        target_state_advances(deliveries, i, j - 1);
        assert(deliveries[j - 1].received_before < deliveries[j - 1].first);
        assert(deliveries[j - 1].last <= deliveries[j - 1 + 1].received_before);
    }
}

/// Successive deliveries on one lane that follow the target chain's state cover
/// strictly increasing nonce ranges that do not overlap.
pub proof fn submitted_ranges_increase(deliveries: Seq<Delivery>)
    requires
        deliveries_follow_target_state(deliveries),
    ensures
        forall|i: int, j: int|
            0 <= i < j < deliveries.len() ==> (#[trigger] deliveries[i]).last < (
            #[trigger] deliveries[j]).first,
{
    assert forall|i: int, j: int| 0 <= i < j < deliveries.len() implies (
    #[trigger] deliveries[i]).last < (#[trigger] deliveries[j]).first by {
        target_state_advances(deliveries, i + 1, j);
        assert(deliveries[i].last <= deliveries[i + 1].received_before);
        assert(deliveries[j].received_before < deliveries[j].first);
    }
}

} // verus!
