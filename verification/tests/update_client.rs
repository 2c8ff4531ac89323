use ibc_core::client::{
    mock_client_type, tm_client_type, AnyClientState, AnyConsensusState, ClientMessage,
    MockClientState, MockHeader, MockMisbehaviour, TmMisbehaviour,
};
use ibc_core::context::{block_timestamp, HostBlock, HostType, MockContext};
use ibc_core::errors::{ClientError, ContextError};
use ibc_core::events::{IbcEvent, IbcEventType};
use ibc_core::height::Height;
use ibc_core::identifier::{ChainId, ClientId};
use ibc_core::signer::Signer;
use ibc_core::timestamp::Timestamp;
use ibc_core::update_client::{execute, validate, MsgUpdateClient, UpdateClientKind};

fn dummy_signer() -> Signer {
    Signer::from_string("cosmos1wxeyh7zgn4tctjzs0vtqpc6p5cxq5t2muzl7ng".to_string())
}

#[test]
fn test_update_client_ok() {
    let client_id = ClientId::default();
    let signer = dummy_signer();

    let timestamp = Timestamp::from_nanoseconds(block_timestamp(46));

    let mut ctx = MockContext::default().with_client(&client_id, Height::new(0, 42).unwrap());
    let height = Height::new(0, 46).unwrap();
    let msg = MsgUpdateClient {
        client_id,
        client_message: ClientMessage::MockHeader(MockHeader::new(height).with_timestamp(timestamp)),
        update_kind: UpdateClientKind::UpdateHeader,
        signer,
    };

    let res = validate(&ctx, msg.clone());

    assert!(res.is_ok(), "validation happy path");

    let res = execute(&mut ctx, msg.clone());
    assert!(res.is_ok(), "execution happy path");

    assert_eq!(
        ctx.client_state(&msg.client_id).unwrap(),
        AnyClientState::Mock(MockClientState::new(MockHeader::new(height).with_timestamp(timestamp)))
    );
}

#[test]
fn test_update_nonexisting_client() {
    let client_id = ClientId::from_str("mockclient1").unwrap();
    let signer = dummy_signer();

    let ctx = MockContext::default().with_client(&client_id, Height::new(0, 42).unwrap());

    let msg = MsgUpdateClient {
        client_id: ClientId::from_str("nonexistingclient").unwrap(),
        client_message: ClientMessage::MockHeader(MockHeader::new(Height::new(0, 46).unwrap())),
        update_kind: UpdateClientKind::UpdateHeader,
        signer,
    };

    let res = validate(&ctx, msg);

    assert!(res.is_err());
}

#[test]
fn test_update_synthetic_tendermint_client_adjacent_ok() {
    let client_id = ClientId::new("07-tendermint", 0).unwrap();
    let client_height = Height::new(1, 20).unwrap();
    let update_height = Height::new(1, 21).unwrap();
    let chain_id_b = ChainId::new("mockgaiaB".to_string(), 1);

    let mut ctx = MockContext::new(
        ChainId::new("mockgaiaA".to_string(), 1),
        HostType::Mock,
        5,
        Height::new(1, 1).unwrap(),
    )
    .with_client_parametrized_with_chain_id(
        chain_id_b.clone(),
        &client_id,
        client_height,
        Some(tm_client_type()), // The target host chain (B) is synthetic TM.
        Some(client_height),
    );

    let ctx_b = MockContext::new(chain_id_b, HostType::SyntheticTendermint, 5, update_height);

    let signer = dummy_signer();

    let mut block = ctx_b.host_block(&update_height).unwrap().clone();
    block.set_trusted_height(client_height);

    let latest_header_height = block.height();
    let msg = MsgUpdateClient {
        client_id,
        client_message: block.into_client_message(),
        update_kind: UpdateClientKind::UpdateHeader,
        signer,
    };

    let res = validate(&ctx, msg.clone());
    assert!(res.is_ok());

    let res = execute(&mut ctx, msg.clone());
    assert!(res.is_ok(), "result: {res:?}");

    let client_state = ctx.client_state(&msg.client_id).unwrap();
    assert!(client_state.confirm_not_frozen(&msg.client_id).is_ok());
    assert_eq!(client_state.latest_height(), latest_header_height);
}

#[test]
fn test_update_synthetic_tendermint_client_non_adjacent_ok() {
    let client_id = ClientId::new("07-tendermint", 0).unwrap();
    let client_height = Height::new(1, 20).unwrap();
    let update_height = Height::new(1, 21).unwrap();
    let chain_id_b = ChainId::new("mockgaiaB".to_string(), 1);

    let mut ctx = MockContext::new(
        ChainId::new("mockgaiaA".to_string(), 1),
        HostType::Mock,
        5,
        Height::new(1, 1).unwrap(),
    )
    .with_client_parametrized_history_with_chain_id(
        chain_id_b.clone(),
        &client_id,
        client_height,
        Some(tm_client_type()), // The target host chain (B) is synthetic TM.
        Some(client_height),
    );

    let ctx_b = MockContext::new(chain_id_b, HostType::SyntheticTendermint, 5, update_height);

    let signer = dummy_signer();

    let mut block = ctx_b.host_block(&update_height).unwrap().clone();
    let trusted_height = client_height.sub(1).unwrap();
    block.set_trusted_height(trusted_height);

    let latest_header_height = block.height();
    let msg = MsgUpdateClient {
        client_id,
        client_message: block.into_client_message(),
        update_kind: UpdateClientKind::UpdateHeader,
        signer,
    };

    let res = validate(&ctx, msg.clone());
    assert!(res.is_ok());

    let res = execute(&mut ctx, msg.clone());
    assert!(res.is_ok(), "result: {res:?}");

    let client_state = ctx.client_state(&msg.client_id).unwrap();
    assert!(client_state.confirm_not_frozen(&msg.client_id).is_ok());
    assert_eq!(client_state.latest_height(), latest_header_height);
}

#[test]
fn test_update_synthetic_tendermint_client_duplicate_ok() {
    let client_id = ClientId::new("07-tendermint", 0).unwrap();
    let client_height = Height::new(1, 20).unwrap();

    let chain_start_height = Height::new(1, 11).unwrap();

    let mut ctx = MockContext::new(
        ChainId::new("mockgaiaA".to_string(), 1),
        HostType::Mock,
        5,
        chain_start_height,
    )
    .with_client_parametrized(
        &client_id,
        client_height,
        Some(tm_client_type()), // The target host chain (B) is synthetic TM.
        Some(client_height),
    );

    let ctx_b = MockContext::new(
        ChainId::new("mockgaiaB".to_string(), 1),
        HostType::SyntheticTendermint,
        5,
        client_height,
    );

    let signer = dummy_signer();

    let block = ctx_b.host_block(&client_height).unwrap().clone();
    let block = match block {
        HostBlock::SyntheticTendermint(mut theader) => {
            let cons_state = ctx.latest_consensus_states(&client_id, &client_height).clone();
            if let AnyConsensusState::Tm(tcs) = cons_state {
                theader.timestamp = tcs.timestamp;
                theader.trusted_height = Height::new(1, 11).unwrap();
            }
            HostBlock::SyntheticTendermint(theader)
        }
        _ => block,
    };

    let latest_header_height = block.height();
    let msg = MsgUpdateClient {
        client_id,
        client_message: block.into_client_message(),
        update_kind: UpdateClientKind::UpdateHeader,
        signer,
    };

    let res = validate(&ctx, msg.clone());
    assert!(res.is_ok());

    let res = execute(&mut ctx, msg.clone());
    assert!(res.is_ok(), "result: {res:?}");

    let client_state = ctx.client_state(&msg.client_id).unwrap();
    assert!(client_state.confirm_not_frozen(&msg.client_id).is_ok());
    assert_eq!(client_state.latest_height(), latest_header_height);
    assert_eq!(client_state, ctx.latest_client_states(&msg.client_id));
}

#[test]
fn test_update_synthetic_tendermint_client_lower_height() {
    let client_id = ClientId::new("07-tendermint", 0).unwrap();
    let client_height = Height::new(1, 20).unwrap();

    let client_update_height = Height::new(1, 19).unwrap();

    let chain_start_height = Height::new(1, 11).unwrap();

    let ctx = MockContext::new(
        ChainId::new("mockgaiaA".to_string(), 1),
        HostType::Mock,
        5,
        chain_start_height,
    )
    .with_client_parametrized(
        &client_id,
        client_height,
        Some(tm_client_type()), // The target host chain (B) is synthetic TM.
        Some(client_height),
    );

    let ctx_b = MockContext::new(
        ChainId::new("mockgaiaB".to_string(), 1),
        HostType::SyntheticTendermint,
        5,
        client_height,
    );

    let signer = dummy_signer();

    let block_ref = ctx_b.host_block(&client_update_height).unwrap();

    let msg = MsgUpdateClient {
        client_id,
        client_message: block_ref.clone().into_client_message(),
        update_kind: UpdateClientKind::UpdateHeader,
        signer,
    };

    let res = validate(&ctx, msg);
    assert!(res.is_err());
}

#[test]
fn test_update_client_events() {
    let client_id = ClientId::default();
    let signer = dummy_signer();

    let timestamp = Timestamp::from_nanoseconds(block_timestamp(46));

    let mut ctx = MockContext::default().with_client(&client_id, Height::new(0, 42).unwrap());
    let height = Height::new(0, 46).unwrap();
    let header = ClientMessage::MockHeader(MockHeader::new(height).with_timestamp(timestamp));
    let msg = MsgUpdateClient {
        client_id: client_id.clone(),
        client_message: header.clone(),
        update_kind: UpdateClientKind::UpdateHeader,
        signer,
    };

    let res = execute(&mut ctx, msg);
    assert!(res.is_ok());

    assert!(matches!(
        ctx.events()[0],
        IbcEvent::Message(IbcEventType::UpdateClient)
    ));
    let update_client_event = match &ctx.events()[1] {
        IbcEvent::UpdateClient(e) => e,
        other => panic!("unexpected event {other:?}"),
    };

    assert_eq!(update_client_event.client_id(), &client_id);
    assert_eq!(update_client_event.client_type(), &mock_client_type());
    assert_eq!(update_client_event.consensus_height(), &height);
    assert_eq!(update_client_event.consensus_heights(), &vec![height]);
    assert_eq!(update_client_event.header(), &header);
}

fn ensure_misbehaviour(ctx: &MockContext, client_id: &ClientId, client_type_name: &str) {
    let client_state = ctx.client_state(client_id).unwrap();

    assert!(client_state.confirm_not_frozen(client_id).is_err());

    // check events
    assert_eq!(ctx.events().len(), 2);
    assert!(matches!(
        ctx.events()[0],
        IbcEvent::Message(IbcEventType::ClientMisbehaviour),
    ));
    let misbehaviour_client_event = match &ctx.events()[1] {
        IbcEvent::ClientMisbehaviour(e) => e,
        other => panic!("unexpected event {other:?}"),
    };
    assert_eq!(misbehaviour_client_event.client_id(), client_id);
    assert_eq!(misbehaviour_client_event.client_type().name, client_type_name);
}

/// Tests misbehaviour handling for the mock client.
/// Misbehaviour evidence consists of identical headers - mock misbehaviour handler considers it
/// a valid proof of misbehaviour
#[test]
fn test_misbehaviour_client_ok() {
    let client_id = ClientId::default();
    let timestamp = Timestamp::from_nanoseconds(block_timestamp(46));
    let height = Height::new(0, 46).unwrap();
    let msg = MsgUpdateClient {
        client_id: client_id.clone(),
        client_message: ClientMessage::MockMisbehaviour(MockMisbehaviour {
            header1: MockHeader::new(height).with_timestamp(timestamp),
            header2: MockHeader::new(height).with_timestamp(timestamp),
        }),
        update_kind: UpdateClientKind::UpdateHeader,
        signer: dummy_signer(),
    };

    let mut ctx = MockContext::default().with_client(&client_id, Height::new(0, 42).unwrap());

    let res = validate(&ctx, msg.clone());
    assert!(res.is_ok());
    let res = execute(&mut ctx, msg);
    assert!(res.is_ok());

    ensure_misbehaviour(&ctx, &client_id, "9999-mock");
}

/// Tests misbehaviour handling failure for a non-existent client
#[test]
fn test_misbehaviour_nonexisting_client() {
    let client_id = ClientId::from_str("mockclient1").unwrap();
    let height = Height::new(0, 46).unwrap();
    let msg = MsgUpdateClient {
        client_id: ClientId::from_str("nonexistingclient").unwrap(),
        client_message: ClientMessage::MockMisbehaviour(MockMisbehaviour {
            header1: MockHeader::new(height),
            header2: MockHeader::new(height),
        }),
        update_kind: UpdateClientKind::Misbehaviour,
        signer: dummy_signer(),
    };

    let ctx = MockContext::default().with_client(&client_id, Height::new(0, 42).unwrap());
    let res = validate(&ctx, msg);
    assert!(res.is_err());
}

/// Tests misbehaviour handling for the synthetic Tendermint client.
/// Misbehaviour evidence consists of equivocal headers.
#[test]
fn test_misbehaviour_synthetic_tendermint_equivocation() {
    let client_id = ClientId::new("07-tendermint", 0).unwrap();
    let client_height = Height::new(1, 20).unwrap();
    let misbehaviour_height = Height::new(1, 21).unwrap();
    let chain_id_b = ChainId::new("mockgaiaB".to_string(), 1);

    // Create a mock context for chain-A with a synthetic tendermint light client for chain-B
    let mut ctx_a = MockContext::new(
        ChainId::new("mockgaiaA".to_string(), 1),
        HostType::Mock,
        5,
        Height::new(1, 1).unwrap(),
    )
    .with_client_parametrized_with_chain_id(
        chain_id_b.clone(),
        &client_id,
        client_height,
        Some(tm_client_type()),
        Some(client_height),
    );

    // Create a mock context for chain-B
    let ctx_b = MockContext::new(
        chain_id_b.clone(),
        HostType::SyntheticTendermint,
        5,
        misbehaviour_height,
    );

    // Get chain-B's header at `misbehaviour_height`
    let header1 = {
        let mut block = ctx_b.host_block(&misbehaviour_height).unwrap().clone();
        block.set_trusted_height(client_height);
        block.try_into_tm_header().unwrap()
    };

    // Generate an equivocal header for chain-B at `misbehaviour_height`
    let header2 = {
        let now = Timestamp::from_nanoseconds(block_timestamp(21) + 1_000_000_000);
        let mut tm_block =
            HostBlock::generate_tm_block(&chain_id_b, misbehaviour_height.revision_height(), now);
        tm_block.trusted_height = client_height;
        tm_block
    };

    let msg = MsgUpdateClient {
        client_id: client_id.clone(),
        client_message: ClientMessage::TmMisbehaviour(TmMisbehaviour { header1, header2 }),
        update_kind: UpdateClientKind::Misbehaviour,
        signer: dummy_signer(),
    };

    let res = validate(&ctx_a, msg.clone());
    assert!(res.is_ok());
    let res = execute(&mut ctx_a, msg);
    assert!(res.is_ok());
    ensure_misbehaviour(&ctx_a, &client_id, "07-tendermint");
}

#[test]
fn test_misbehaviour_synthetic_tendermint_bft_time() {
    let client_id = ClientId::new("07-tendermint", 0).unwrap();
    let client_height = Height::new(1, 20).unwrap();
    let misbehaviour_height = Height::new(1, 21).unwrap();
    let chain_id_b = ChainId::new("mockgaiaB".to_string(), 1);

    // Create a mock context for chain-A with a synthetic tendermint light client for chain-B
    let mut ctx_a = MockContext::new(
        ChainId::new("mockgaiaA".to_string(), 1),
        HostType::Mock,
        5,
        Height::new(1, 1).unwrap(),
    )
    .with_client_parametrized_with_chain_id(
        chain_id_b.clone(),
        &client_id,
        client_height,
        Some(tm_client_type()),
        Some(client_height),
    );

    let now = Timestamp::from_nanoseconds(block_timestamp(21));

    // Generate `header1` for chain-B
    let header1 = {
        let mut tm_block =
            HostBlock::generate_tm_block(&chain_id_b, misbehaviour_height.revision_height(), now);
        tm_block.trusted_height = client_height;
        tm_block
    };

    // Generate `header2` for chain-B which is identical to `header1` but with a conflicting
    // timestamp
    let header2 = {
        let timestamp = Timestamp::from_nanoseconds(now.nanoseconds() + 1_000_000_000);
        let mut tm_block = HostBlock::generate_tm_block(
            &chain_id_b,
            misbehaviour_height.revision_height(),
            timestamp,
        );
        tm_block.trusted_height = client_height;
        tm_block
    };

    let msg = MsgUpdateClient {
        client_id: client_id.clone(),
        client_message: ClientMessage::TmMisbehaviour(TmMisbehaviour { header1, header2 }),
        update_kind: UpdateClientKind::Misbehaviour,
        signer: dummy_signer(),
    };

    let res = validate(&ctx_a, msg.clone());
    assert!(res.is_ok());
    let res = execute(&mut ctx_a, msg);
    assert!(res.is_ok());
    ensure_misbehaviour(&ctx_a, &client_id, "07-tendermint");
}

/// A frozen client rejects every later update with `ClientFrozen`, whatever
/// the message's own validity.
#[test]
fn frozen_client_rejects_updates() {
    let client_id = ClientId::default();
    let height = Height::new(0, 46).unwrap();
    let freeze_msg = MsgUpdateClient {
        client_id: client_id.clone(),
        client_message: ClientMessage::MockMisbehaviour(MockMisbehaviour {
            header1: MockHeader::new(height),
            header2: MockHeader::new(height),
        }),
        update_kind: UpdateClientKind::Misbehaviour,
        signer: dummy_signer(),
    };

    let mut ctx = MockContext::default().with_client(&client_id, Height::new(0, 42).unwrap());
    execute(&mut ctx, freeze_msg).unwrap();

    let update_msg = MsgUpdateClient {
        client_id: client_id.clone(),
        client_message: ClientMessage::MockHeader(MockHeader::new(Height::new(0, 50).unwrap())),
        update_kind: UpdateClientKind::UpdateHeader,
        signer: dummy_signer(),
    };
    let res = validate(&ctx, update_msg.clone());
    assert_eq!(
        res,
        Err(ContextError::Client(ClientError::ClientFrozen {
            client_id: client_id.clone()
        }))
    );

    // The execute phase re-derives the frozen check: even a fitting header
    // that would otherwise apply is rejected, and nothing changes.
    let state_before = ctx.client_state(&client_id).unwrap();
    let events_before = ctx.events().len();
    let res = execute(&mut ctx, update_msg);
    assert_eq!(
        res,
        Err(ContextError::Client(ClientError::ClientFrozen {
            client_id: client_id.clone()
        }))
    );
    assert_eq!(ctx.client_state(&client_id).unwrap(), state_before);
    assert_eq!(ctx.events().len(), events_before);
}

/// Submitting the header already applied leaves the stored client state and
/// consensus states exactly as they were.
#[test]
fn duplicate_mock_header_is_no_op() {
    let client_id = ClientId::default();
    let height = Height::new(0, 46).unwrap();
    let timestamp = Timestamp::from_nanoseconds(block_timestamp(46));
    let msg = MsgUpdateClient {
        client_id: client_id.clone(),
        client_message: ClientMessage::MockHeader(MockHeader::new(height).with_timestamp(timestamp)),
        update_kind: UpdateClientKind::UpdateHeader,
        signer: dummy_signer(),
    };

    let mut ctx = MockContext::default().with_client(&client_id, Height::new(0, 42).unwrap());
    execute(&mut ctx, msg.clone()).unwrap();
    let state_once = ctx.client_state(&client_id).unwrap();

    assert!(validate(&ctx, msg.clone()).is_ok());
    execute(&mut ctx, msg).unwrap();
    let state_twice = ctx.client_state(&client_id).unwrap();

    assert_eq!(state_once, state_twice);
    assert_eq!(state_twice.latest_height(), height);
}

/// A host-chain header whose trust anchor is missing reports exactly
/// `MissingTrustedHeight`; one that does not progress past its anchor reports
/// `InsufficientHeight`; one whose time does not progress reports
/// `NonMonotonicTime`.
#[test]
fn tm_header_error_cases() {
    let client_id = ClientId::new("07-tendermint", 0).unwrap();
    let client_height = Height::new(1, 20).unwrap();
    let chain_id_b = ChainId::new("mockgaiaB".to_string(), 1);

    let ctx = MockContext::new(
        ChainId::new("mockgaiaA".to_string(), 1),
        HostType::Mock,
        5,
        Height::new(1, 1).unwrap(),
    )
    .with_client_parametrized(&client_id, client_height, Some(tm_client_type()), Some(client_height));

    let msg_with = |header: ibc_core::client::TmHeader| MsgUpdateClient {
        client_id: client_id.clone(),
        client_message: ClientMessage::TmHeader(header),
        update_kind: UpdateClientKind::UpdateHeader,
        signer: dummy_signer(),
    };

    // Anchor at height 19 was never stored.
    let mut header = HostBlock::generate_tm_block(
        &chain_id_b,
        21,
        Timestamp::from_nanoseconds(block_timestamp(21)),
    );
    header.trusted_height = Height::new(1, 19).unwrap();
    assert_eq!(
        validate(&ctx, msg_with(header)),
        Err(ContextError::Client(ClientError::MissingTrustedHeight {
            trusted_height: Height::new(1, 19).unwrap()
        }))
    );

    // The header does not progress past its own trust anchor.
    let mut header = HostBlock::generate_tm_block(
        &chain_id_b,
        20,
        Timestamp::from_nanoseconds(block_timestamp(21)),
    );
    header.trusted_height = client_height;
    header.commitment_root = vec![0xAA];
    assert_eq!(
        validate(&ctx, msg_with(header)),
        Err(ContextError::Client(ClientError::InsufficientHeight {
            trusted_height: client_height,
            header_height: Height::new(1, 20).unwrap()
        }))
    );

    // The header's time does not progress past the anchor's.
    let mut header = HostBlock::generate_tm_block(
        &chain_id_b,
        21,
        Timestamp::from_nanoseconds(block_timestamp(20)),
    );
    header.trusted_height = client_height;
    assert_eq!(
        validate(&ctx, msg_with(header)),
        Err(ContextError::Client(ClientError::NonMonotonicTime))
    );

    // A mock message does not fit the host-chain client.
    let mock_msg = MsgUpdateClient {
        client_id: client_id.clone(),
        client_message: ClientMessage::MockHeader(MockHeader::new(Height::new(1, 21).unwrap())),
        update_kind: UpdateClientKind::UpdateHeader,
        signer: dummy_signer(),
    };
    assert_eq!(
        validate(&ctx, mock_msg),
        Err(ContextError::Client(ClientError::ClientMessageMismatch))
    );
}
