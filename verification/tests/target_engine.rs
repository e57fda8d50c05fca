use bp_messages::LaneIdType;
use bridge_target::lane::{DecodeError, UnrewardedRelayersState};
use bridge_target::target::{
    delivery_transaction, make_messages_delivery_call, BatchProofTransaction, ClientState,
    Connection, Error, FinalCall, FromBridgedChainMessagesDeliveryProof,
    FromBridgedChainMessagesProof, HeaderId, HeaderRequirement, LaneId, MessageLane, StateCheck,
    StateStep, Step, SubstrateMessagesTarget, TransactionEra, TransactionParams,
    UnsignedTransaction,
};
use bridge_target::weights::Weight;

type TestTarget = SubstrateMessagesTarget<&'static str, &'static str, u8, &'static str>;
type TestId = HeaderId<[u8; 2], u32>;

fn lane() -> MessageLane {
    MessageLane {
        messages_pallet_name: "BridgeMessages".to_string(),
        target_chain_name: "Rococo".to_string(),
        relayer_id_len: 1,
    }
}

fn target_with(signer: Option<u8>, relay: Option<&'static str>) -> TestTarget {
    SubstrateMessagesTarget::new(
        lane(),
        "target",
        "source",
        LaneId::Legacy(*b"test"),
        vec![7, 7],
        signer.map(|signer| TransactionParams { signer, mortality: Some(64) }),
        relay,
    )
}

fn target() -> TestTarget {
    target_with(Some(1), None)
}

fn record() -> Vec<u8> {
    vec![4, 0, 2, 0, 0, 0, 0, 0, 0, 0, 5, 0, 0, 0, 0, 0, 0, 0, 6, 0, 0, 0, 0, 0, 0, 0, 0]
}

fn unhex(text: &str) -> Vec<u8> {
    (0..text.len()).step_by(2).map(|i| u8::from_str_radix(&text[i..i + 2], 16).unwrap()).collect()
}

fn messages_proof(start: u64, end: u64) -> (Weight, FromBridgedChainMessagesProof<[u8; 2]>) {
    (
        Weight::from_parts(1000, 20),
        FromBridgedChainMessagesProof {
            bridged_header_hash: [9, 9],
            storage_proof: vec![vec![1, 2, 3]],
            lane: LaneId::Legacy(*b"test"),
            nonces_start: start,
            nonces_end: end,
        },
    )
}

#[test]
fn new_keeps_what_it_is_given() {
    let target = target_with(Some(3), Some("relay"));
    assert_eq!(target.lane, lane());
    assert_eq!(target.target_client, "target");
    assert_eq!(target.source_client, "source");
    assert_eq!(target.lane_id, LaneId::Legacy(*b"test"));
    assert_eq!(target.relayer_id_at_source, vec![7, 7]);
    assert_eq!(
        target.transaction_params,
        Some(TransactionParams { signer: 3, mortality: Some(64) })
    );
    assert_eq!(target.source_to_target_headers_relay, Some("relay"));
    let copy = target.clone();
    assert_eq!(copy.lane_id, target.lane_id);
    assert_eq!(copy.relayer_id_at_source, target.relayer_id_at_source);
}

#[test]
fn lane_record_is_read_at_the_key_of_the_lane() {
    let id: TestId = HeaderId(10, [1, 2]);
    assert_eq!(id.number(), 10);
    assert_eq!(id.hash(), [1, 2]);
    let read = target().inbound_lane_data_read(id);
    assert_eq!(read.at, [1, 2]);
    assert_eq!(
        read.key,
        unhex("dd16c784ebd3390a9bc0357c7511ed01e5f83cf83f2127eb47afdc35d6e43fab44a8995dd50b6657a037a7839304535b74657374"),
    );
    assert_eq!(
        read.key,
        bp_messages::storage_keys::inbound_lane_data_key(
            "BridgeMessages",
            &bp_messages::LegacyLaneId(*b"test")
        )
        .0,
    );
}

#[test]
fn hashed_lane_has_its_own_key() {
    let lane_id = bp_messages::HashedLaneId::try_new(1, 2).unwrap();
    let mut target = target();
    target.lane_id = LaneId::Hashed(lane_id.inner().0);
    let id: TestId = HeaderId(10, [1, 2]);
    assert_eq!(
        target.inbound_lane_data_read(id).key,
        unhex("dd16c784ebd3390a9bc0357c7511ed01e5f83cf83f2127eb47afdc35d6e43fabd3bef8b00df8ca7b01813b5e2741950db1d3dccd8b3c3a012afe265f3e3c4432129b8aee50c9dcf87f9793be208e5ea0"),
    );
}

#[test]
fn missing_lane_record_means_nothing_received() {
    let id: TestId = HeaderId(10, [1, 2]);
    let target = target();
    assert_eq!(target.latest_received_nonce(id, Ok::<_, ()>(None)), Ok((id, 0)));
    assert_eq!(target.latest_received_nonce(id, Ok::<_, ()>(Some(vec![]))), Ok((id, 0)));
    assert_eq!(target.latest_confirmed_received_nonce(id, Ok::<_, ()>(None)), Ok((id, 0)));
    assert_eq!(target.latest_confirmed_received_nonce(id, Ok::<_, ()>(Some(vec![]))), Ok((id, 0)));
    let empty = UnrewardedRelayersState {
        unrewarded_relayer_entries: 0,
        messages_in_oldest_entry: 0,
        total_messages: 0,
        last_delivered_nonce: 0,
    };
    assert_eq!(target.unrewarded_relayers_state(id, Ok::<_, ()>(None)), Ok((id, empty)));
    assert_eq!(target.unrewarded_relayers_state(id, Ok::<_, ()>(Some(vec![]))), Ok((id, empty)));
    assert_eq!(target.inbound_lane_data(Ok::<_, ()>(None)), Ok(None));
}

#[test]
fn stored_lane_record_gives_the_nonces() {
    let id: TestId = HeaderId(10, [1, 2]);
    let target = target();
    assert_eq!(target.latest_received_nonce(id, Ok::<_, ()>(Some(record()))), Ok((id, 5)));
    assert_eq!(
        target.latest_confirmed_received_nonce(id, Ok::<_, ()>(Some(record()))),
        Ok((id, 6))
    );
    assert_eq!(
        target.unrewarded_relayers_state(id, Ok::<_, ()>(Some(record()))),
        Ok((
            id,
            UnrewardedRelayersState {
                unrewarded_relayer_entries: 1,
                messages_in_oldest_entry: 4,
                total_messages: 4,
                last_delivered_nonce: 5,
            }
        ))
    );
}

#[test]
fn failures_of_reading_the_lane_record_are_passed_on() {
    let id: TestId = HeaderId(10, [1, 2]);
    let target = target();
    assert_eq!(target.latest_received_nonce(id, Err("offline")), Err(Error::Client("offline")));
    assert_eq!(
        target.latest_confirmed_received_nonce(id, Err("offline")),
        Err(Error::Client("offline"))
    );
    assert_eq!(target.unrewarded_relayers_state(id, Err("offline")), Err(Error::Client("offline")));
    assert_eq!(
        target.latest_received_nonce(id, Ok::<_, ()>(Some(vec![4, 0, 2]))),
        Err(Error::ResponseParseFailed(DecodeError::UnexpectedEnd))
    );
    assert_eq!(
        target.unrewarded_relayers_state(id, Ok::<_, ()>(Some(vec![7, 0, 0, 0, 0, 1]))),
        Err(Error::ResponseParseFailed(DecodeError::LengthOutOfRange))
    );
    assert_eq!(target.receiving_proof_request(id, Err("offline")), Err(Error::Client("offline")));
}

#[test]
fn receiving_proof_is_taken_at_the_block_of_the_state() {
    let id: TestId = HeaderId(10, [1, 2]);
    let target = target();
    let (state_id, state) =
        target.unrewarded_relayers_state(id, Ok::<_, ()>(Some(record()))).unwrap();
    let request = target.receiving_proof_request(id, Ok::<_, ()>(Some(record()))).unwrap();
    assert_eq!(request.id, state_id);
    assert_eq!(request.relayers_state, state);
    assert_eq!(request.storage_keys, vec![target.inbound_lane_data_read(id).key]);

    let nodes = vec![vec![1u8, 2], vec![3u8]];
    let (proved_at, (proved_state, proof)) =
        target.prove_messages_receiving(request.clone(), Ok::<_, ()>(nodes.clone())).unwrap();
    assert_eq!(proved_at, id);
    assert_eq!(proved_state, state);
    assert_eq!(
        proof,
        FromBridgedChainMessagesDeliveryProof {
            bridged_header_hash: [1, 2],
            storage_proof: nodes,
            lane: LaneId::Legacy(*b"test"),
        }
    );
    assert_eq!(
        target.prove_messages_receiving(request, Err("no proof")),
        Err(Error::Client("no proof"))
    );
}

#[test]
fn delivery_call_counts_the_messages_of_the_range() {
    let call = make_messages_delivery_call(vec![1], 5..=9, messages_proof(5, 9), true);
    assert_eq!(call.messages_count, 5);
    assert_eq!(call.relayer_id_at_bridged_chain, vec![1]);
    assert_eq!(call.dispatch_weight, Weight::from_parts(1000, 20));
    assert_eq!(call.proof, messages_proof(5, 9).1);
    assert!(call.trace_call);
    let call = make_messages_delivery_call(vec![1], 7..=7, messages_proof(7, 7), false);
    assert_eq!(call.messages_count, 1);
    assert!(!call.trace_call);
}

#[test]
fn submission_without_batch_is_the_delivery_alone() {
    let target = target();
    let generated_at: HeaderId<[u8; 2], u32> = HeaderId(3, [0, 3]);
    let submission: Result<_, Error<()>> = target.submit_messages_proof(
        None::<BatchProofTransaction<[u8; 2], u32, Vec<u8>>>,
        generated_at,
        11..=14,
        messages_proof(11, 14),
    );
    let submission = submission.unwrap();
    assert_eq!(*submission.signer, 1);
    assert_eq!(submission.mortality, Some(64));
    assert_eq!(submission.nonces, 11..=14);
    match submission.final_call {
        FinalCall::Delivery(call) => {
            assert_eq!(call.relayer_id_at_bridged_chain, vec![7, 7]);
            assert_eq!(call.messages_count, 4);
            assert_eq!(call.dispatch_weight, Weight::from_parts(1000, 20));
            assert_eq!(call.proof, messages_proof(11, 14).1);
            assert!(call.trace_call);
        },
        other => panic!("unexpected call {:?}", other),
    }
}

#[test]
fn submission_counts_the_messages_of_the_proof_not_of_the_request() {
    let target = target();
    let generated_at: HeaderId<[u8; 2], u32> = HeaderId(3, [0, 3]);
    let submission: Result<_, Error<()>> = target.submit_messages_proof(
        None::<BatchProofTransaction<[u8; 2], u32, Vec<u8>>>,
        generated_at,
        11..=20,
        messages_proof(11, 14),
    );
    let submission = submission.unwrap();
    assert_eq!(submission.nonces, 11..=20);
    match submission.final_call {
        FinalCall::Delivery(call) => assert_eq!(call.messages_count, 4),
        other => panic!("unexpected call {:?}", other),
    }
}

#[test]
fn submission_with_batch_puts_the_header_calls_first() {
    let target = target();
    let generated_at: HeaderId<[u8; 2], u32> = HeaderId(3, [0, 3]);
    let batch = BatchProofTransaction {
        proved_header: HeaderId(3u32, [0u8, 3]),
        prove_calls: vec![vec![0xaau8], vec![0xbbu8]],
    };
    assert_eq!(batch.required_header_id(), HeaderId(3u32, [0u8, 3]));
    let submission: Result<_, Error<()>> =
        target.submit_messages_proof(
            Some(batch.clone()),
            generated_at,
            1..=2,
            messages_proof(1, 2),
        );
    match submission.unwrap().final_call {
        FinalCall::Batch { header_calls, delivery } => {
            assert_eq!(header_calls, vec![vec![0xaau8], vec![0xbbu8]]);
            assert_eq!(delivery.messages_count, 2);
            assert!(!delivery.trace_call);
        },
        other => panic!("unexpected call {:?}", other),
    }
    let delivery = make_messages_delivery_call(vec![1], 1..=2, messages_proof(1, 2), false);
    assert_eq!(
        batch.clone().append_call_and_build(delivery.clone()),
        FinalCall::Batch { header_calls: batch.prove_calls, delivery }
    );
}

#[test]
fn submission_without_signer_is_a_configuration_error() {
    let target = target_with(None, None);
    let generated_at: HeaderId<[u8; 2], u32> = HeaderId(3, [0, 3]);
    let submission: Result<_, Error<()>> = target.submit_messages_proof(
        None::<BatchProofTransaction<[u8; 2], u32, Vec<u8>>>,
        generated_at,
        1..=2,
        messages_proof(1, 2),
    );
    match submission {
        Err(Error::Custom(message)) => {
            assert_eq!(message, "Cannot sign transaction of Rococo chain")
        },
        other => panic!("unexpected outcome {:?}", other.map(|s| s.nonces)),
    }
}

#[test]
fn transaction_is_mortal_from_the_best_block() {
    let best: TestId = HeaderId(100, [1, 0]);
    assert_eq!(TransactionEra::new(best, Some(64)), TransactionEra::Mortal(best, 64));
    assert_eq!(TransactionEra::new(best, None), TransactionEra::Immortal);
    let tx: UnsignedTransaction<&str, u32, [u8; 2], u32> = UnsignedTransaction::new("call", 5);
    assert_eq!(tx.era, TransactionEra::Immortal);
    let tx = tx.era(TransactionEra::new(best, Some(64)));
    assert_eq!(tx.call, "call");
    assert_eq!(tx.nonce, 5);
    assert_eq!(tx.era, TransactionEra::Mortal(best, 64));
    assert_eq!(delivery_transaction("call", Some(64), best, 5u32), tx);
    assert_eq!(
        delivery_transaction("call", None, best, 6u32),
        UnsignedTransaction { call: "call", nonce: 6, era: TransactionEra::Immortal }
    );
}

#[test]
fn artifacts_cover_the_requested_nonces() {
    let target = target();
    let artifacts = target.nonces_submit_artifacts(3..=8, Ok::<_, ()>("tracker")).unwrap();
    assert_eq!(artifacts.nonces, 3..=8);
    assert_eq!(artifacts.tx_tracker, "tracker");
    match target.nonces_submit_artifacts::<&str, _>(3..=8, Err("refused")) {
        Err(error) => assert_eq!(error, Error::Client("refused")),
        Ok(_) => panic!("a refused submission leaves nothing behind"),
    }
}

#[test]
fn source_header_is_asked_from_the_relay_only_where_one_runs() {
    let id: HeaderId<[u8; 2], u32> = HeaderId(42, [4, 2]);
    assert_eq!(target_with(Some(1), None).require_source_header_on_target(id), None);
    let target = target_with(Some(1), Some("relay"));
    assert_eq!(target.require_source_header_on_target(id), Some(42));
    assert_eq!(
        target.source_header_requirement(id, Ok::<_, ()>(Some("batch"))),
        Ok(HeaderRequirement::Batched("batch"))
    );
    assert_eq!(
        target.source_header_requirement(id, Ok::<Option<&str>, ()>(None)),
        Ok(HeaderRequirement::RequireMoreHeaders(42))
    );
    assert_eq!(
        target.source_header_requirement(id, Err::<Option<&str>, _>("relay down")),
        Err(Error::Client("relay down"))
    );
}

/// Runs `reconnect` with the given outcome of each connection.
fn run_reconnect(
    target: &TestTarget,
    outcome_of: fn(Connection) -> Result<(), &'static str>,
) -> (Vec<Connection>, Result<(), Error<&'static str>>) {
    let mut tried = Vec::new();
    let mut next = target.reconnect();
    loop {
        tried.push(next);
        match target.reconnect_next(next, outcome_of(next)) {
            Step::Perform(connection) => next = connection,
            Step::Finish(result) => return (tried, result),
        }
    }
}

#[test]
fn reconnect_restores_target_then_source_then_relay() {
    let with_relay = target_with(Some(1), Some("relay"));
    let without_relay = target_with(Some(1), None);
    assert_eq!(
        run_reconnect(&with_relay, |_| Ok(())),
        (vec![Connection::Target, Connection::Source, Connection::HeadersRelay], Ok(()))
    );
    assert_eq!(
        run_reconnect(&without_relay, |_| Ok(())),
        (vec![Connection::Target, Connection::Source], Ok(()))
    );
    assert_eq!(
        run_reconnect(&with_relay, |_| Err("down")),
        (vec![Connection::Target], Err(Error::Client("down")))
    );
    assert_eq!(
        run_reconnect(&with_relay, |c| if c == Connection::Source { Err("down") } else { Ok(()) }),
        (vec![Connection::Target, Connection::Source], Err(Error::Client("down")))
    );
    assert_eq!(
        run_reconnect(
            &with_relay,
            |c| if c == Connection::HeadersRelay { Err("down") } else { Ok(()) }
        ),
        (
            vec![Connection::Target, Connection::Source, Connection::HeadersRelay],
            Err(Error::Client("down"))
        )
    );
}

/// Runs the checks of `state` with the given outcome of each check.
fn run_state_checks(
    target: &TestTarget,
    outcome_of: fn(StateCheck) -> Result<(), &'static str>,
) -> (Vec<StateCheck>, StateStep<&'static str>) {
    let mut made = Vec::new();
    let mut next = target.state_first_check();
    loop {
        made.push(next);
        match target.state_next(next, outcome_of(next)) {
            StateStep::Check(check) => next = check,
            end => return (made, end),
        }
    }
}

#[test]
fn state_is_read_only_after_all_checks_have_passed() {
    let target = target();
    assert_eq!(
        run_state_checks(&target, |_| Ok(())),
        (
            vec![StateCheck::SourceSynced, StateCheck::TargetSynced, StateCheck::PalletActive],
            StateStep::ReadHeads
        )
    );
    assert_eq!(
        run_state_checks(&target, |_| Err("not synced")),
        (vec![StateCheck::SourceSynced], StateStep::Failed(Error::Client("not synced")))
    );
    assert_eq!(
        run_state_checks(
            &target,
            |c| if c == StateCheck::TargetSynced { Err("not synced") } else { Ok(()) }
        ),
        (
            vec![StateCheck::SourceSynced, StateCheck::TargetSynced],
            StateStep::Failed(Error::Client("not synced"))
        )
    );
    assert_eq!(
        run_state_checks(
            &target,
            |c| if c == StateCheck::PalletActive { Err("halted") } else { Ok(()) }
        ),
        (
            vec![StateCheck::SourceSynced, StateCheck::TargetSynced, StateCheck::PalletActive],
            StateStep::Failed(Error::Client("halted"))
        )
    );
    let heads = ClientState {
        best_self: HeaderId(10u32, [1u8, 0]),
        best_finalized_self: HeaderId(8u32, [0u8, 8]),
        best_finalized_peer_at_best_self: Some(HeaderId(5u32, [0u8, 5])),
        actual_best_finalized_peer_at_best_self: None,
    };
    assert_eq!(target.state(Ok::<_, ()>(heads)), Ok(heads));
    assert_eq!(
        target.state(Err::<ClientState<TestId, TestId>, _>("offline")),
        Err(Error::Client("offline"))
    );
}

#[test]
fn successive_deliveries_cover_increasing_ranges() {
    let target = target();
    let id: TestId = HeaderId(10, [1, 2]);
    let generated_at: HeaderId<[u8; 2], u32> = HeaderId(3, [0, 3]);
    // the record of the lane after nothing, after 1..=4 and after 5..=9 were delivered
    let record_after = |delivered: u64| {
        let mut bytes = vec![4, 0];
        bytes.extend_from_slice(&1u64.to_le_bytes());
        bytes.extend_from_slice(&delivered.to_le_bytes());
        bytes.extend_from_slice(&0u64.to_le_bytes());
        Some(bytes)
    };
    let mut submitted = Vec::new();
    for (raw, last) in [(None, 4u64), (record_after(4), 9), (record_after(9), 9 + 3)] {
        let (_, received) = target.latest_received_nonce(id, Ok::<_, ()>(raw)).unwrap();
        let nonces = received + 1..=last;
        let submission: Result<_, Error<()>> = target.submit_messages_proof(
            None::<BatchProofTransaction<[u8; 2], u32, Vec<u8>>>,
            generated_at,
            nonces,
            messages_proof(received + 1, last),
        );
        let artifacts =
            target.nonces_submit_artifacts(submission.unwrap().nonces, Ok::<_, ()>(())).unwrap();
        submitted.push(artifacts.nonces);
    }
    assert_eq!(submitted, vec![1..=4, 5..=9, 10..=12]);
    for pair in submitted.windows(2) {
        assert!(pair[0].end() < pair[1].start());
    }
}

#[test]
fn proof_is_compared_with_the_requested_nonces() {
    let target = target();
    assert!(target.nonces_match_proof(&(5..=9), &messages_proof(5, 9)));
    assert!(!target.nonces_match_proof(&(5..=9), &messages_proof(5, 8)));
    assert!(!target.nonces_match_proof(&(4..=9), &messages_proof(5, 9)));
}
