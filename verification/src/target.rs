//! The target side of a message lane relay: what to read from the target chain, how to
//! interpret it, and which calls to build and submit in return.
//!
//! The engine decides; it performs no chain access itself. Every operation that needs
//! the chains is split into the request the engine issues and the verdict it gives on
//! the outcome that the caller hands back.

use crate::lane::{
    DecodeError, InboundLaneView, LegacyInboundLaneData, MessageNonce, UnrewardedRelayersState,
};
use crate::vectors::copy_of;
use crate::weights::Weight;
use std::ops::RangeInclusive;
use vstd::prelude::*;
use vstd::string::StringExecFns;

verus! {

/// Identifier of a block header: its number and its hash.
#[derive(Clone, Copy, PartialEq, Eq, Debug)]
pub struct HeaderId<Hash, Number>(pub Number, pub Hash);

impl<Hash: Copy, Number: Copy> HeaderId<Hash, Number> {
    /// The header's number.
    pub fn number(&self) -> (n: Number)
        ensures
            n == self.0,
    {
        self.0
    }

    /// The header's hash.
    pub fn hash(&self) -> (h: Hash)
        ensures
            h == self.1,
    {
        self.1
    }
}

/// Identifier of a lane between exactly one source and one target chain.
#[derive(Clone, Copy, PartialEq, Eq, Debug)]
pub enum LaneId {
    /// Four bytes chosen when the bridge was configured.
    Legacy([u8; 4]),
    /// Hash of the two endpoints that the lane connects.
    Hashed([u8; 32]),
}

impl LaneId {
    /// The identifier as it is encoded in storage keys.
    pub open spec fn bytes(self) -> Seq<u8> {
        match self {
            LaneId::Legacy(id) => id@,
            LaneId::Hashed(id) => id@,
        }
    }
}

/// The storage key under which the messages pallet named `pallet_name` keeps the
/// inbound record of the lane whose encoded identifier is `lane`.
pub uninterp spec fn inbound_lane_storage_key(pallet_name: Seq<char>, lane: Seq<u8>) -> Seq<u8>;

/// Calls `bp_messages::storage_keys::inbound_lane_data_key`. The key it returns is
/// built by hashing the pallet name, the map name and the encoded lane identifier; the
/// contract only names it as a function of the pallet name and the lane's bytes.
#[verifier::external_body]
fn inbound_lane_data_key(pallet_name: &str, lane: &LaneId) -> (key: Vec<u8>)
    ensures
        key@ == inbound_lane_storage_key(pallet_name@, lane.bytes()),
{
    match lane {
        LaneId::Legacy(id) => bp_messages::storage_keys::inbound_lane_data_key(
            pallet_name,
            &bp_messages::LegacyLaneId(*id),
        ).0,
        LaneId::Hashed(id) => bp_messages::storage_keys::inbound_lane_data_key(
            pallet_name,
            &bp_messages::HashedLaneId::from_inner(sp_core::H256(*id)),
        ).0,
    }
}

/// The constants of the bridged pair that the engine works for.
#[derive(Clone, PartialEq, Eq, Debug)]
pub struct MessageLane {
    /// Name of the messages pallet that the target chain runs for this bridge.
    pub messages_pallet_name: String,
    /// Name of the target chain, used in diagnostics.
    pub target_chain_name: String,
    /// Width in bytes of an encoded account of the source chain.
    pub relayer_id_len: usize,
}

/// How transactions are signed and how long they stay valid.
#[derive(Clone, PartialEq, Eq, Debug)]
pub struct TransactionParams<Signer> {
    /// The key that signs transactions.
    pub signer: Signer,
    /// Number of blocks for which a transaction stays valid; `None` for no limit.
    pub mortality: Option<u32>,
}

/// Failure of an engine operation.
#[derive(Clone, PartialEq, Eq, Debug)]
pub enum Error<E> {
    /// A chain connection failed; the connection's own error is inside.
    Client(E),
    /// The target chain answered with bytes that are not a lane record.
    ResponseParseFailed(DecodeError),
    /// The engine's configuration does not allow the operation.
    Custom(String),
}

/// A storage value to read at a given block.
#[derive(Clone, PartialEq, Eq, Debug)]
pub struct StorageRead<Hash> {
    /// Hash of the block at which to read.
    pub at: Hash,
    /// The storage key to read.
    pub key: Vec<u8>,
}

/// Target side of the relay of one lane.
#[derive(Clone)]
pub struct SubstrateMessagesTarget<SourceClnt, TargetClnt, Signer, Relay> {
    /// The constants of the bridged pair.
    pub lane: MessageLane,
    /// Connection to the target chain.
    pub target_client: TargetClnt,
    /// Connection to the source chain.
    pub source_client: SourceClnt,
    /// The lane that is served.
    pub lane_id: LaneId,
    /// The account at the source chain that is credited for deliveries.
    pub relayer_id_at_source: Vec<u8>,
    /// How to sign delivery transactions. Without it nothing can be submitted.
    pub transaction_params: Option<TransactionParams<Signer>>,
    /// The on-demand relay of source headers to the target chain, when one runs.
    pub source_to_target_headers_relay: Option<Relay>,
}

impl<SourceClnt, TargetClnt, Signer, Relay> SubstrateMessagesTarget<
    SourceClnt,
    TargetClnt,
    Signer,
    Relay,
> {
    /// Creates the target side of a lane relay.
    pub fn new(
        lane: MessageLane,
        target_client: TargetClnt,
        source_client: SourceClnt,
        lane_id: LaneId,
        relayer_id_at_source: Vec<u8>,
        transaction_params: Option<TransactionParams<Signer>>,
        source_to_target_headers_relay: Option<Relay>,
    ) -> (target: Self)
        ensures
            target.lane == lane,
            target.target_client == target_client,
            target.source_client == source_client,
            target.lane_id == lane_id,
            target.relayer_id_at_source == relayer_id_at_source,
            target.transaction_params == transaction_params,
            target.source_to_target_headers_relay == source_to_target_headers_relay,
    {
        SubstrateMessagesTarget {
            lane,
            target_client,
            source_client,
            lane_id,
            relayer_id_at_source,
            transaction_params,
            source_to_target_headers_relay,
        }
    }

    /// The storage key of this lane's inbound record at the target chain.
    pub open spec fn lane_key(&self) -> Seq<u8> {
        inbound_lane_storage_key(self.lane.messages_pallet_name@, self.lane_id.bytes())
    }

    /// The read that fetches this lane's inbound record as of block `id`.
    pub fn inbound_lane_data_read<Hash: Copy, Number: Copy>(
        &self,
        id: HeaderId<Hash, Number>,
    ) -> (read: StorageRead<Hash>)
        ensures
            read.at == id.1,
            read.key@ == self.lane_key(),
    {
        StorageRead {
            at: id.1,
            key: inbound_lane_data_key(self.lane.messages_pallet_name.as_str(), &self.lane_id),
        }
    }

    /// What the outcome `raw` of reading the lane's inbound record means: `None` where
    /// nothing is stored yet, the decoded record otherwise.
    pub open spec fn stored_lane<E>(&self, raw: Result<Option<Vec<u8>>, E>) -> Result<
        Option<InboundLaneView>,
        Error<E>,
    > {
        match raw {
            Err(e) => Err(Error::Client(e)),
            Ok(None) => Ok(None),
            Ok(Some(bytes)) => if bytes@.len() == 0 {
                Ok(None)
            } else {
                match crate::lane::decoded_lane(bytes@, self.lane.relayer_id_len as nat) {
                    Ok(lane) => Ok(Some(lane)),
                    Err(e) => Err(Error::ResponseParseFailed(e)),
                }
            },
        }
    }

    /// The record that the lane has where `raw` holds none: that of a lane without
    /// traffic.
    pub open spec fn stored_lane_or_empty<E>(&self, raw: Result<Option<Vec<u8>>, E>) -> Result<
        InboundLaneView,
        Error<E>,
    > {
        match self.stored_lane(raw) {
            Err(e) => Err(e),
            Ok(None) => Ok(InboundLaneView::empty()),
            Ok(Some(lane)) => Ok(lane),
        }
    }

    /// Interprets the outcome of reading the lane's inbound record. A failed read is
    /// passed on, a missing or empty entry is no record, and anything else must decode.
    pub fn inbound_lane_data<E>(&self, raw: Result<Option<Vec<u8>>, E>) -> (r: Result<
        Option<LegacyInboundLaneData>,
        Error<E>,
    >)
        ensures
            match r {
                Ok(Some(data)) => self.stored_lane(raw) == Ok::<
                    Option<InboundLaneView>,
                    Error<E>,
                >(Some(data@)),
                Ok(None) => self.stored_lane(raw) == Ok::<Option<InboundLaneView>, Error<E>>(
                    None,
                ),
                Err(e) => self.stored_lane(raw) == Err::<Option<InboundLaneView>, Error<E>>(e),
            },
    {
        match raw {
            Err(e) => Err(Error::Client(e)),
            Ok(None) => Ok(None),
            Ok(Some(bytes)) => {
                if bytes.len() == 0 {
                    Ok(None)
                } else {
                    match LegacyInboundLaneData::decode(
                        bytes.as_slice(),
                        self.lane.relayer_id_len,
                    ) {
                        Ok(data) => Ok(Some(data)),
                        Err(e) => Err(Error::ResponseParseFailed(e)),
                    }
                }
            },
        }
    }

    /// The nonce of the last message delivered to the target chain as of block `id`,
    /// or 0 while the lane has no record.
    pub fn latest_received_nonce<Hash, Number, E>(
        &self,
        id: HeaderId<Hash, Number>,
        raw: Result<Option<Vec<u8>>, E>,
    ) -> (r: Result<(HeaderId<Hash, Number>, MessageNonce), Error<E>>)
        ensures
            match self.stored_lane_or_empty(raw) {
                Ok(lane) => r == Ok::<(HeaderId<Hash, Number>, MessageNonce), Error<E>>(
                    (id, lane.last_delivered_nonce()),
                ),
                Err(e) => r == Err::<(HeaderId<Hash, Number>, MessageNonce), Error<E>>(e),
            },
    {
        match self.inbound_lane_data(raw) {
            Err(e) => Err(e),
            Ok(None) => Ok((id, 0)),
            Ok(Some(data)) => Ok((id, data.last_delivered_nonce())),
        }
    }

    /// The nonce of the last message whose delivery the source chain has confirmed as
    /// of block `id`, or 0 while the lane has no record.
    pub fn latest_confirmed_received_nonce<Hash, Number, E>(
        &self,
        id: HeaderId<Hash, Number>,
        raw: Result<Option<Vec<u8>>, E>,
    ) -> (r: Result<(HeaderId<Hash, Number>, MessageNonce), Error<E>>)
        ensures
            match self.stored_lane_or_empty(raw) {
                Ok(lane) => r == Ok::<(HeaderId<Hash, Number>, MessageNonce), Error<E>>(
                    (id, lane.last_confirmed_nonce),
                ),
                Err(e) => r == Err::<(HeaderId<Hash, Number>, MessageNonce), Error<E>>(e),
            },
    {
        match self.inbound_lane_data(raw) {
            Err(e) => Err(e),
            Ok(None) => Ok((id, 0)),
            Ok(Some(data)) => Ok((id, data.last_confirmed_nonce)),
        }
    }

    /// The summary of the lane's unrewarded relayers as of block `id`.
    pub fn unrewarded_relayers_state<Hash, Number, E>(
        &self,
        id: HeaderId<Hash, Number>,
        raw: Result<Option<Vec<u8>>, E>,
    ) -> (r: Result<(HeaderId<Hash, Number>, UnrewardedRelayersState), Error<E>>)
        ensures
            match self.stored_lane_or_empty(raw) {
                Ok(lane) => r == Ok::<
                    (HeaderId<Hash, Number>, UnrewardedRelayersState),
                    Error<E>,
                >((id, lane.relayers_state())),
                Err(e) => r == Err::<
                    (HeaderId<Hash, Number>, UnrewardedRelayersState),
                    Error<E>,
                >(e),
            },
    {
        match self.inbound_lane_data(raw) {
            Err(e) => Err(e),
            Ok(maybe_data) => {
                let inbound_lane_data = match maybe_data {
                    Some(data) => data,
                    None => LegacyInboundLaneData::default(),
                };
                Ok((id, UnrewardedRelayersState::from(inbound_lane_data)))
            },
        }
    }
}


/// Proof by the target chain of the state of a lane's inbound record.
#[derive(Clone, PartialEq, Eq, Debug)]
pub struct FromBridgedChainMessagesDeliveryProof<Hash> {
    /// Hash of the target chain block at which the proof was taken.
    pub bridged_header_hash: Hash,
    /// The nodes of the storage proof.
    pub storage_proof: Vec<Vec<u8>>,
    /// The lane whose record is proved.
    pub lane: LaneId,
}

/// What the source chain needs to confirm deliveries: the relayers summary and the
/// proof of the record it was computed from.
pub type SubstrateMessagesDeliveryProof<Hash> = (
    UnrewardedRelayersState,
    FromBridgedChainMessagesDeliveryProof<Hash>,
);

/// A storage proof to take at the target chain, together with the relayers summary
/// that was read at the same block.
#[derive(Clone, PartialEq, Eq, Debug)]
pub struct ReceivingProofRequest<Hash, Number> {
    /// The block at which the summary was read and the proof is to be taken.
    pub id: HeaderId<Hash, Number>,
    /// The relayers summary as of that block.
    pub relayers_state: UnrewardedRelayersState,
    /// The storage keys to prove.
    pub storage_keys: Vec<Vec<u8>>,
}

/// Proof by the source chain that messages were sent over a lane.
#[derive(Clone, PartialEq, Eq, Debug)]
pub struct FromBridgedChainMessagesProof<Hash> {
    /// Hash of the source chain block at which the proof was taken.
    pub bridged_header_hash: Hash,
    /// The nodes of the storage proof.
    pub storage_proof: Vec<Vec<u8>>,
    /// The lane that the messages were sent over.
    pub lane: LaneId,
    /// Nonce of the first message that the proof covers.
    pub nonces_start: MessageNonce,
    /// Nonce of the last message that the proof covers.
    pub nonces_end: MessageNonce,
}

/// A messages proof together with the weight that dispatching its messages takes.
pub type SubstrateMessagesProof<Hash> = (Weight, FromBridgedChainMessagesProof<Hash>);

/// The call that delivers proved messages to the target chain.
#[derive(Clone, PartialEq, Eq, Debug)]
pub struct ReceiveMessagesProofCall<Hash> {
    /// The account at the source chain that is credited for the delivery.
    pub relayer_id_at_bridged_chain: Vec<u8>,
    /// The proof of the messages.
    pub proof: FromBridgedChainMessagesProof<Hash>,
    /// Number of messages that the call declares.
    pub messages_count: u32,
    /// Weight that dispatching the messages takes.
    pub dispatch_weight: Weight,
    /// Whether the call is reported in the relay's trace.
    pub trace_call: bool,
}

/// `RangeInclusive::start` of std. By its documentation it returns the lower bound of
/// the range, which is unspecified only after the range was iterated to exhaustion.
pub assume_specification<Idx>[ RangeInclusive::<Idx>::start ](r: &RangeInclusive<Idx>) -> (start:
    &Idx)
    ensures
        !r@.exhausted ==> *start == r@.start,
;

/// `RangeInclusive::end` of std. By its documentation it returns the upper bound of
/// the range, which is unspecified only after the range was iterated to exhaustion.
pub assume_specification<Idx>[ RangeInclusive::<Idx>::end ](r: &RangeInclusive<Idx>) -> (end:
    &Idx)
    ensures
        !r@.exhausted ==> *end == r@.end,
;

/// Makes the delivery call for the messages in `nonces` from their proof.
pub fn make_messages_delivery_call<Hash>(
    relayer_id_at_source: Vec<u8>,
    nonces: RangeInclusive<MessageNonce>,
    proof: SubstrateMessagesProof<Hash>,
    trace_call: bool,
) -> (call: ReceiveMessagesProofCall<Hash>)
    requires
        !nonces@.exhausted,
        nonces@.start <= nonces@.end,
        nonces@.end - nonces@.start < u32::MAX,
    ensures
        call.relayer_id_at_bridged_chain == relayer_id_at_source,
        call.proof == proof.1,
        call.messages_count == nonces@.end - nonces@.start + 1,
        call.dispatch_weight == proof.0,
        call.trace_call == trace_call,
{
    let messages_count: u64 = *nonces.end() - *nonces.start() + 1;
    let dispatch_weight = proof.0;
    ReceiveMessagesProofCall {
        relayer_id_at_bridged_chain: relayer_id_at_source,
        proof: proof.1,
        messages_count: messages_count as u32,
        dispatch_weight,
        trace_call,
    }
}

/// The call that is finally submitted to the target chain.
#[derive(Clone, PartialEq, Eq, Debug)]
pub enum FinalCall<Hash, Call> {
    /// The delivery call alone.
    Delivery(ReceiveMessagesProofCall<Hash>),
    /// One batch that applies the header calls in order and then the delivery call.
    Batch { header_calls: Vec<Call>, delivery: ReceiveMessagesProofCall<Hash> },
}

/// One effect of a submitted transaction on the target chain.
pub enum CallEffect<Hash, Call> {
    /// A source header becomes known to the target chain.
    HeaderSubmitted(Call),
    /// Messages are delivered.
    MessagesDelivered(ReceiveMessagesProofCall<Hash>),
}

impl<Hash, Call> FinalCall<Hash, Call> {
    /// What the call does at the target chain, in the order it is applied: the header
    /// calls of a batch first, the delivery last.
    pub open spec fn effects(self) -> Seq<CallEffect<Hash, Call>> {
        self.header_calls().map_values(|call: Call| CallEffect::HeaderSubmitted(call)).push(
            CallEffect::MessagesDelivered(self.delivery()),
        )
    }

    /// The delivery call that is submitted.
    pub open spec fn delivery(self) -> ReceiveMessagesProofCall<Hash> {
        match self {
            FinalCall::Delivery(delivery) => delivery,
            FinalCall::Batch { header_calls, delivery } => delivery,
        }
    }

    /// The header-submission calls that are applied before the delivery call.
    pub open spec fn header_calls(self) -> Seq<Call> {
        match self {
            FinalCall::Delivery(delivery) => Seq::empty(),
            FinalCall::Batch { header_calls, delivery } => header_calls@,
        }
    }
}

/// Header-submission calls of the on-demand relay, waiting to be submitted in one
/// transaction with the delivery call that needs the header.
#[derive(Clone, PartialEq, Eq, Debug)]
pub struct BatchProofTransaction<Hash, Number, Call> {
    /// The source header that the calls bring to the target chain.
    pub proved_header: HeaderId<Hash, Number>,
    /// The calls that submit the header, in the order they must be applied.
    pub prove_calls: Vec<Call>,
}

impl<Hash: Copy, Number: Copy, Call> BatchProofTransaction<Hash, Number, Call> {
    /// The header that the target chain knows once the batch is applied.
    pub fn required_header_id(&self) -> (id: HeaderId<Hash, Number>)
        ensures
            id == self.proved_header,
    {
        self.proved_header
    }

    /// Puts `call` behind the header calls and makes one batch of them.
    pub fn append_call_and_build<ProofHash>(self, call: ReceiveMessagesProofCall<ProofHash>) -> (
        batch: FinalCall<ProofHash, Call>
    )
        ensures
            batch is Batch,
            batch.header_calls() == self.prove_calls@,
            batch.delivery() == call,
    {
        FinalCall::Batch { header_calls: self.prove_calls, delivery: call }
    }
}

/// For how long a transaction is valid.
#[derive(Clone, Copy, PartialEq, Eq, Debug)]
pub enum TransactionEra<Hash, Number> {
    /// The transaction never expires.
    Immortal,
    /// The transaction is valid for the given number of blocks after the given block.
    Mortal(HeaderId<Hash, Number>, u32),
}

impl<Hash, Number> TransactionEra<Hash, Number> {
    /// The era of a transaction made at `best_block_id` with the given mortality.
    pub open spec fn spec_new(
        best_block_id: HeaderId<Hash, Number>,
        mortality_period: Option<u32>,
    ) -> Self {
        match mortality_period {
            Some(period) => TransactionEra::Mortal(best_block_id, period),
            None => TransactionEra::Immortal,
        }
    }

    /// The era of a transaction made at `best_block_id`: mortal from that block on
    /// where a mortality period is given, immortal otherwise.
    pub fn new(best_block_id: HeaderId<Hash, Number>, mortality_period: Option<u32>) -> (era:
        Self)
        ensures
            era == Self::spec_new(best_block_id, mortality_period),
    {
        match mortality_period {
            Some(period) => TransactionEra::Mortal(best_block_id, period),
            None => TransactionEra::Immortal,
        }
    }
}

/// A transaction that waits for its signature.
#[derive(Clone, PartialEq, Eq, Debug)]
pub struct UnsignedTransaction<Call, Index, Hash, Number> {
    /// The call to execute.
    pub call: Call,
    /// The signer's transaction index.
    pub nonce: Index,
    /// For how long the transaction is valid.
    pub era: TransactionEra<Hash, Number>,
}

impl<Call, Index, Hash, Number> UnsignedTransaction<Call, Index, Hash, Number> {
    /// An immortal transaction of `call` with the given index.
    pub fn new(call: Call, nonce: Index) -> (tx: Self)
        ensures
            tx.call == call,
            tx.nonce == nonce,
            tx.era == TransactionEra::<Hash, Number>::Immortal,
    {
        UnsignedTransaction { call, nonce, era: TransactionEra::Immortal }
    }

    /// The same transaction, valid for `era`.
    pub fn era(self, era: TransactionEra<Hash, Number>) -> (tx: Self)
        ensures
            tx.call == self.call,
            tx.nonce == self.nonce,
            tx.era == era,
    {
        UnsignedTransaction { call: self.call, nonce: self.nonce, era }
    }
}

/// The transaction that submits `final_call` when the best block of the target chain
/// is `best_block_id`: it is valid from that block on for as long as `mortality` says,
/// and carries the signer's index `transaction_nonce`.
pub fn delivery_transaction<Call, Index, Hash, Number>(
    final_call: Call,
    mortality: Option<u32>,
    best_block_id: HeaderId<Hash, Number>,
    transaction_nonce: Index,
) -> (tx: UnsignedTransaction<Call, Index, Hash, Number>)
    ensures
        tx.call == final_call,
        tx.nonce == transaction_nonce,
        tx.era == TransactionEra::spec_new(best_block_id, mortality),
{
    UnsignedTransaction::new(final_call, transaction_nonce).era(
        TransactionEra::new(best_block_id, mortality),
    )
}

/// A delivery that is ready to be signed and submitted.
#[derive(Debug)]
pub struct MessagesProofSubmission<'a, Signer, Hash, Call> {
    /// The key that signs the transaction.
    pub signer: &'a Signer,
    /// Number of blocks for which the transaction stays valid.
    pub mortality: Option<u32>,
    /// The call to submit.
    pub final_call: FinalCall<Hash, Call>,
    /// The nonces that the submission delivers.
    pub nonces: RangeInclusive<MessageNonce>,
}

/// What a submission leaves behind: the nonces it covers and the handle that tracks
/// the transaction.
#[derive(Debug)]
pub struct NoncesSubmitArtifacts<T> {
    /// The nonces that were submitted.
    pub nonces: RangeInclusive<MessageNonce>,
    /// Tracks the submitted transaction.
    pub tx_tracker: T,
}

/// The diagnostic of a submission that cannot be signed.
pub open spec fn cannot_sign_message(chain_name: Seq<char>) -> Seq<char> {
    "Cannot sign transaction of "@ + chain_name + " chain"@
}

/// What to do about a source header that a delivery needs at the target chain.
#[derive(Clone, PartialEq, Eq, Debug)]
pub enum HeaderRequirement<Batch, Number> {
    /// Submit this batch together with the delivery.
    Batched(Batch),
    /// Tell the on-demand relay that the header with this number is needed, and
    /// deliver without a batch.
    RequireMoreHeaders(Number),
}

/// What follows from the relay's answer to the request for the header `id`.
pub open spec fn header_requirement<Hash, Number, Batch, E>(
    id: HeaderId<Hash, Number>,
    answer: Result<Option<Batch>, E>,
) -> Result<HeaderRequirement<Batch, Number>, Error<E>> {
    match answer {
        Err(e) => Err(Error::Client(e)),
        Ok(Some(batch_tx)) => Ok(HeaderRequirement::Batched(batch_tx)),
        Ok(None) => Ok(HeaderRequirement::RequireMoreHeaders(id.0)),
    }
}

/// A connection that `reconnect` restores.
#[derive(Clone, Copy, PartialEq, Eq, Debug, Structural)]
pub enum Connection {
    /// The connection to the target chain.
    Target,
    /// The connection to the source chain.
    Source,
    /// The connections of the on-demand headers relay.
    HeadersRelay,
}

/// How an operation that talks to the chains goes on: with a next request, or to its
/// end.
#[derive(Clone, PartialEq, Eq, Debug)]
pub enum Step<Request, Output> {
    /// Perform this request and hand its outcome back.
    Perform(Request),
    /// The operation has ended with this result.
    Finish(Output),
}

/// A check that `state` makes before it reports anything.
#[derive(Clone, Copy, PartialEq, Eq, Debug, Structural)]
pub enum StateCheck {
    /// The source chain connection is synced with its network.
    SourceSynced,
    /// The target chain connection is synced with its network.
    TargetSynced,
    /// The messages pallet at the target chain is not halted.
    PalletActive,
}

/// What `state` does after a check.
#[derive(Clone, PartialEq, Eq, Debug)]
pub enum StateStep<E> {
    /// Make this check next.
    Check(StateCheck),
    /// All checks have passed: read the heads of both chains.
    ReadHeads,
    /// A check has failed: report this error and read nothing.
    Failed(Error<E>),
}

/// The heads of both chains as the target chain connection sees them.
#[derive(Clone, Copy, PartialEq, Eq, Debug)]
pub struct ClientState<SelfHeaderId, PeerHeaderId> {
    /// The best block of the target chain.
    pub best_self: SelfHeaderId,
    /// The best finalized block of the target chain.
    pub best_finalized_self: SelfHeaderId,
    /// The best finalized source block that the target chain knows at its best block.
    pub best_finalized_peer_at_best_self: Option<PeerHeaderId>,
    /// The same, as the target chain itself identifies it.
    pub actual_best_finalized_peer_at_best_self: Option<PeerHeaderId>,
}

/// What `state` does after `done` has ended with `outcome`: a failure ends the query,
/// a passed check leads to the next one, and the last one to reading the heads.
pub open spec fn after_state_check<E>(done: StateCheck, outcome: Result<(), E>) -> StateStep<E> {
    match outcome {
        Err(e) => StateStep::Failed(Error::Client(e)),
        Ok(_) => match done {
            StateCheck::SourceSynced => StateStep::Check(StateCheck::TargetSynced),
            StateCheck::TargetSynced => StateStep::Check(StateCheck::PalletActive),
            StateCheck::PalletActive => StateStep::ReadHeads,
        },
    }
}

/// The checks that a `state` query makes, in order, when they end with the given
/// outcomes, and the error that it reports, if any.
pub open spec fn state_query_run<E>(
    source_synced: Result<(), E>,
    target_synced: Result<(), E>,
    pallet_active: Result<(), E>,
) -> (Seq<StateCheck>, Option<Error<E>>) {
    match after_state_check(StateCheck::SourceSynced, source_synced) {
        StateStep::Failed(e) => (seq![StateCheck::SourceSynced], Some(e)),
        _ => match after_state_check(StateCheck::TargetSynced, target_synced) {
            StateStep::Failed(e) => (
                seq![StateCheck::SourceSynced, StateCheck::TargetSynced],
                Some(e),
            ),
            _ => match after_state_check(StateCheck::PalletActive, pallet_active) {
                StateStep::Failed(e) => (
                    seq![
                        StateCheck::SourceSynced,
                        StateCheck::TargetSynced,
                        StateCheck::PalletActive,
                    ],
                    Some(e),
                ),
                _ => (
                    seq![
                        StateCheck::SourceSynced,
                        StateCheck::TargetSynced,
                        StateCheck::PalletActive,
                    ],
                    None,
                ),
            },
        },
    }
}

impl<SourceClnt, TargetClnt, Signer, Relay> SubstrateMessagesTarget<
    SourceClnt,
    TargetClnt,
    Signer,
    Relay,
> {
    /// First half of proving the lane's receiving state at block `id`: interprets the
    /// record read at that block and asks for the storage proof of the same record at
    /// the same block.
    pub fn receiving_proof_request<Hash: Copy, Number: Copy, E>(
        &self,
        id: HeaderId<Hash, Number>,
        raw: Result<Option<Vec<u8>>, E>,
    ) -> (r: Result<ReceivingProofRequest<Hash, Number>, Error<E>>)
        ensures
            match self.stored_lane_or_empty(raw) {
                Ok(lane) => r is Ok && r->Ok_0.id == id && r->Ok_0.relayers_state
                    == lane.relayers_state() && r->Ok_0.storage_keys@.len() == 1
                    && r->Ok_0.storage_keys@[0]@ == self.lane_key(),
                Err(e) => r == Err::<ReceivingProofRequest<Hash, Number>, Error<E>>(e),
            },
    {
        match self.unrewarded_relayers_state(id, raw) {
            Err(e) => Err(e),
            Ok((id, relayers_state)) => {
                let mut storage_keys: Vec<Vec<u8>> = Vec::new();
                storage_keys.push(
                    inbound_lane_data_key(
                        self.lane.messages_pallet_name.as_str(),
                        &self.lane_id,
                    ),
                );
                Ok(ReceivingProofRequest { id, relayers_state, storage_keys })
            },
        }
    }

    /// Second half of proving the lane's receiving state: packs the storage proof that
    /// was taken for `request` with the block and the summary of that request.
    pub fn prove_messages_receiving<Hash: Copy, Number: Copy, E>(
        &self,
        request: ReceivingProofRequest<Hash, Number>,
        storage_proof: Result<Vec<Vec<u8>>, E>,
    ) -> (r: Result<(HeaderId<Hash, Number>, SubstrateMessagesDeliveryProof<Hash>), Error<E>>)
        ensures
            match storage_proof {
                Ok(nodes) => r == Ok::<
                    (HeaderId<Hash, Number>, SubstrateMessagesDeliveryProof<Hash>),
                    Error<E>,
                >(
                    (
                        request.id,
                        (
                            request.relayers_state,
                            FromBridgedChainMessagesDeliveryProof {
                                bridged_header_hash: request.id.1,
                                storage_proof: nodes,
                                lane: self.lane_id,
                            },
                        ),
                    ),
                ),
                Err(e) => r == Err::<
                    (HeaderId<Hash, Number>, SubstrateMessagesDeliveryProof<Hash>),
                    Error<E>,
                >(Error::Client(e)),
            },
    {
        match storage_proof {
            Err(e) => Err(Error::Client(e)),
            Ok(nodes) => {
                let proof = FromBridgedChainMessagesDeliveryProof {
                    bridged_header_hash: request.id.1,
                    storage_proof: nodes,
                    lane: self.lane_id,
                };
                Ok((request.id, (request.relayers_state, proof)))
            },
        }
    }

    /// Prepares the submission of `proof` to the target chain. The delivery call
    /// declares as many messages as the proof's own bounds span and carries the
    /// proof's dispatch weight. With a batch, the header calls go first in the same
    /// transaction. Without a signing key nothing is prepared.
    pub fn submit_messages_proof<Hash, BatchHash, BatchNumber, Call, SourceHash, SourceNumber, E>(
        &self,
        maybe_batch_tx: Option<BatchProofTransaction<BatchHash, BatchNumber, Call>>,
        _generated_at_header: HeaderId<SourceHash, SourceNumber>,
        nonces: RangeInclusive<MessageNonce>,
        proof: SubstrateMessagesProof<Hash>,
    ) -> (r: Result<MessagesProofSubmission<'_, Signer, Hash, Call>, Error<E>>)
        requires
            proof.1.nonces_start <= proof.1.nonces_end,
            proof.1.nonces_end - proof.1.nonces_start < u32::MAX,
        ensures
            match self.transaction_params {
                None => r matches Err(Error::Custom(message)) && message@ == cannot_sign_message(
                    self.lane.target_chain_name@,
                ),
                Some(params) => r matches Ok(submission) && {
                    &&& *submission.signer == params.signer
                    &&& submission.mortality == params.mortality
                    &&& submission.nonces == nonces
                    &&& submission.final_call.delivery().relayer_id_at_bridged_chain@
                        == self.relayer_id_at_source@
                    &&& submission.final_call.delivery().proof == proof.1
                    &&& submission.final_call.delivery().messages_count == proof.1.nonces_end
                        - proof.1.nonces_start + 1
                    &&& submission.final_call.delivery().dispatch_weight == proof.0
                    &&& submission.final_call.delivery().trace_call == (maybe_batch_tx is None)
                    &&& match maybe_batch_tx {
                        Some(batch_tx) => submission.final_call is Batch
                            && submission.final_call.header_calls() == batch_tx.prove_calls@,
                        None => submission.final_call is Delivery,
                    }
                },
            },
    {
        let trace_call = maybe_batch_tx.is_none();
        let messages_proof_call = make_messages_delivery_call(
            copy_of(&self.relayer_id_at_source),
            RangeInclusive::new(proof.1.nonces_start, proof.1.nonces_end),
            proof,
            trace_call,
        );
        let final_call = match maybe_batch_tx {
            Some(batch_tx) => FinalCall::Batch {
                header_calls: batch_tx.prove_calls,
                delivery: messages_proof_call,
            },
            None => FinalCall::Delivery(messages_proof_call),
        };
        match &self.transaction_params {
            None => {
                let mut message = String::from_str("Cannot sign transaction of ");
                message.append(self.lane.target_chain_name.as_str());
                message.append(" chain");
                Err(Error::Custom(message))
            },
            Some(transaction_params) => Ok(
                MessagesProofSubmission {
                    signer: &transaction_params.signer,
                    mortality: transaction_params.mortality,
                    final_call,
                    nonces,
                },
            ),
        }
    }

    /// Whether `proof` covers exactly the messages `nonces`. A delivery declares the
    /// messages of its proof, whatever was asked for; a caller that wants the two to
    /// agree tests it with this.
    pub fn nonces_match_proof<Hash>(
        &self,
        nonces: &RangeInclusive<MessageNonce>,
        proof: &SubstrateMessagesProof<Hash>,
    ) -> (matches: bool)
        requires
            !nonces@.exhausted,
        ensures
            matches == (nonces@.start == proof.1.nonces_start && nonces@.end
                == proof.1.nonces_end),
    {
        *nonces.start() == proof.1.nonces_start && *nonces.end() == proof.1.nonces_end
    }

    /// What a submission leaves behind: the nonces it was made for, with the tracker
    /// of the transaction, or the error of the connection that refused it.
    pub fn nonces_submit_artifacts<T, E>(
        &self,
        nonces: RangeInclusive<MessageNonce>,
        submitted: Result<T, E>,
    ) -> (r: Result<NoncesSubmitArtifacts<T>, Error<E>>)
        ensures
            match submitted {
                Ok(tx_tracker) => r matches Ok(artifacts) && artifacts.nonces == nonces
                    && artifacts.tx_tracker == tx_tracker,
                Err(e) => r matches Err(error) && error == Error::Client(e),
            },
    {
        match submitted {
            Ok(tx_tracker) => Ok(NoncesSubmitArtifacts { nonces, tx_tracker }),
            Err(e) => Err(Error::Client(e)),
        }
    }

    /// The number of the source header to ask the on-demand relay for before a
    /// delivery that needs the header `id`, or `None` where no relay runs: then the
    /// caller sees to the header itself.
    pub fn require_source_header_on_target<Hash, Number: Copy>(
        &self,
        id: HeaderId<Hash, Number>,
    ) -> (ask: Option<Number>)
        ensures
            ask == if self.source_to_target_headers_relay is Some {
                Some(id.0)
            } else {
                None::<Number>
            },
    {
        match &self.source_to_target_headers_relay {
            Some(_) => Some(id.0),
            None => None,
        }
    }

    /// What follows from the relay's answer to the request for header `id`: its batch
    /// is submitted with the delivery; without a batch the relay is told that the
    /// header is needed.
    pub fn source_header_requirement<Hash, Number: Copy, Batch, E>(
        &self,
        id: HeaderId<Hash, Number>,
        answer: Result<Option<Batch>, E>,
    ) -> (r: Result<HeaderRequirement<Batch, Number>, Error<E>>)
        ensures
            r == header_requirement(id, answer),
    {
        match answer {
            Err(e) => Err(Error::Client(e)),
            Ok(Some(batch_tx)) => Ok(HeaderRequirement::Batched(batch_tx)),
            Ok(None) => Ok(HeaderRequirement::RequireMoreHeaders(id.0)),
        }
    }

    /// What `reconnect` does after the connection `done` has ended with `outcome`:
    /// target first, then source, then the headers relay where one runs. The first
    /// failure ends it.
    pub open spec fn after_reconnect<E>(&self, done: Connection, outcome: Result<(), E>) -> Step<
        Connection,
        Result<(), Error<E>>,
    > {
        match outcome {
            Err(e) => Step::Finish(Err(Error::Client(e))),
            Ok(_) => match done {
                Connection::Target => Step::Perform(Connection::Source),
                Connection::Source => if self.source_to_target_headers_relay is Some {
                    Step::Perform(Connection::HeadersRelay)
                } else {
                    Step::Finish(Ok(()))
                },
                Connection::HeadersRelay => Step::Finish(Ok(())),
            },
        }
    }

    /// The connections that `reconnect` restores, in order, when they end with the
    /// given outcomes, and its result.
    pub open spec fn reconnect_run<E>(
        &self,
        target: Result<(), E>,
        source: Result<(), E>,
        headers_relay: Result<(), E>,
    ) -> (Seq<Connection>, Result<(), Error<E>>) {
        match self.after_reconnect(Connection::Target, target) {
            Step::Finish(r) => (seq![Connection::Target], r),
            Step::Perform(_) => match self.after_reconnect(Connection::Source, source) {
                Step::Finish(r) => (seq![Connection::Target, Connection::Source], r),
                Step::Perform(_) => match self.after_reconnect(
                    Connection::HeadersRelay,
                    headers_relay,
                ) {
                    Step::Finish(r) => (
                        seq![Connection::Target, Connection::Source, Connection::HeadersRelay],
                        r,
                    ),
                    Step::Perform(_) => (
                        seq![Connection::Target, Connection::Source, Connection::HeadersRelay],
                        Ok(()),
                    ),
                },
            },
        }
    }

    /// The connection that `reconnect` restores first.
    pub fn reconnect(&self) -> (first: Connection)
        ensures
            first == Connection::Target,
    {
        Connection::Target
    }

    /// How `reconnect` goes on after the connection `done` has ended with `outcome`.
    pub fn reconnect_next<E>(&self, done: Connection, outcome: Result<(), E>) -> (step: Step<
        Connection,
        Result<(), Error<E>>,
    >)
        ensures
            step == self.after_reconnect(done, outcome),
    {
        match outcome {
            Err(e) => Step::Finish(Err(Error::Client(e))),
            Ok(_) => match done {
                Connection::Target => Step::Perform(Connection::Source),
                Connection::Source => match &self.source_to_target_headers_relay {
                    Some(_) => Step::Perform(Connection::HeadersRelay),
                    None => Step::Finish(Ok(())),
                },
                Connection::HeadersRelay => Step::Finish(Ok(())),
            },
        }
    }

    /// The check that `state` makes first.
    pub fn state_first_check(&self) -> (first: StateCheck)
        ensures
            first == StateCheck::SourceSynced,
    {
        StateCheck::SourceSynced
    }

    /// How `state` goes on after the check `done` has ended with `outcome`.
    pub fn state_next<E>(&self, done: StateCheck, outcome: Result<(), E>) -> (step: StateStep<E>)
        ensures
            step == after_state_check(done, outcome),
    {
        match outcome {
            Err(e) => StateStep::Failed(Error::Client(e)),
            Ok(_) => match done {
                StateCheck::SourceSynced => StateStep::Check(StateCheck::TargetSynced),
                StateCheck::TargetSynced => StateStep::Check(StateCheck::PalletActive),
                StateCheck::PalletActive => StateStep::ReadHeads,
            },
        }
    }

    /// The state that is reported once all checks have passed: the heads as they were
    /// read, or the error of the connection that could not read them.
    pub fn state<SelfHeaderId, PeerHeaderId, E>(
        &self,
        heads: Result<ClientState<SelfHeaderId, PeerHeaderId>, E>,
    ) -> (r: Result<ClientState<SelfHeaderId, PeerHeaderId>, Error<E>>)
        ensures
            r == match heads {
                Ok(state) => Ok::<ClientState<SelfHeaderId, PeerHeaderId>, Error<E>>(state),
                Err(e) => Err(Error::Client(e)),
            },
    {
        match heads {
            Ok(state) => Ok(state),
            Err(e) => Err(Error::Client(e)),
        }
    }
}

} // verus!
