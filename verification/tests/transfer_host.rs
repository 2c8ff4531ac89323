use ibc_core::client::{MockConsensusState, MockHeader};
use ibc_core::context::{MockContext, BLOCK_TIME_NANOS, GENESIS_TIMESTAMP_NANOS};
use ibc_core::height::Height;
use ibc_core::host::{HostParams, MockHost, TestBlock, TestHeader, TestHost};
use ibc_core::identifier::{ChainId, ChannelId, PortId};
use ibc_core::signer::Signer;
use ibc_core::timestamp::Timestamp;
use ibc_core::transfer::{
    process_timeout_packet, refund_packet_token, Coin, DummyTransferModule, Packet, PacketData,
    TokenTransferError,
};

fn sample_packet() -> Packet {
    Packet {
        sequence: 7,
        source_port: PortId::from_str("transfer").unwrap(),
        source_channel: ChannelId::from_str("channel-0").unwrap(),
        destination_port: PortId::from_str("transfer").unwrap(),
        destination_channel: ChannelId::from_str("channel-34").unwrap(),
        data: b"packet payload".to_vec(),
        timeout_height: Some(Height::new(0, 100).unwrap()),
        timeout_timestamp: Timestamp::from_nanoseconds(0),
    }
}

fn sample_data(amount: u64) -> PacketData {
    PacketData {
        token: Coin {
            denom: "uatom".to_string(),
            amount,
        },
        sender: Signer::from_string("sender-account".to_string()),
        receiver: Signer::from_string("receiver-account".to_string()),
    }
}

#[test]
fn timeout_refunds_escrow_to_sender() {
    let packet = sample_packet();
    let data = sample_data(30);
    let mut ctx = DummyTransferModule::new().with_escrow(
        &packet.source_port,
        &packet.source_channel,
        "uatom",
        100,
    );

    let res = process_timeout_packet(&mut ctx, &packet, &data);
    assert!(res.is_ok());
    assert_eq!(ctx.balance(&data.sender, "uatom"), 30);
    assert_eq!(
        ctx.escrowed(&packet.source_port, &packet.source_channel, "uatom"),
        70
    );

    // A second refund of the remainder drains the escrow completely.
    let rest = sample_data(70);
    process_timeout_packet(&mut ctx, &packet, &rest).unwrap();
    assert_eq!(ctx.balance(&rest.sender, "uatom"), 100);
    assert_eq!(
        ctx.escrowed(&packet.source_port, &packet.source_channel, "uatom"),
        0
    );
}

#[test]
fn timeout_with_insufficient_escrow_changes_nothing() {
    let packet = sample_packet();
    let data = sample_data(101);
    let mut ctx = DummyTransferModule::new().with_escrow(
        &packet.source_port,
        &packet.source_channel,
        "uatom",
        100,
    );

    let res = refund_packet_token(&mut ctx, &packet, &data);
    assert_eq!(res, Err(TokenTransferError::InsufficientEscrow));
    assert_eq!(ctx.balance(&data.sender, "uatom"), 0);
    assert_eq!(
        ctx.escrowed(&packet.source_port, &packet.source_channel, "uatom"),
        100
    );
}

#[test]
fn refund_does_not_touch_other_denominations() {
    let packet = sample_packet();
    let data = sample_data(10);
    let mut ctx = DummyTransferModule::new()
        .with_escrow(&packet.source_port, &packet.source_channel, "uatom", 50)
        .with_escrow(&packet.source_port, &packet.source_channel, "stake", 80);

    refund_packet_token(&mut ctx, &packet, &data).unwrap();
    assert_eq!(
        ctx.escrowed(&packet.source_port, &packet.source_channel, "uatom"),
        40
    );
    assert_eq!(
        ctx.escrowed(&packet.source_port, &packet.source_channel, "stake"),
        80
    );
    assert_eq!(ctx.balance(&data.sender, "stake"), 0);
}

#[test]
fn mock_host_advances_blocks_sequentially() {
    let params = HostParams::new(
        ChainId::new("mockgaia".to_string(), 0),
        BLOCK_TIME_NANOS,
        Timestamp::from_nanoseconds(GENESIS_TIMESTAMP_NANOS),
    );
    let mut host = MockHost::build(params);
    assert!(host.is_empty());

    host.advance_block(vec![1], &());
    host.advance_block(vec![2], &());
    host.advance_block(vec![3], &());

    assert!(!host.is_empty());
    assert_eq!(host.latest_height(), Height::new(0, 3).unwrap());
    assert_eq!(
        TestBlock::height(host.latest_block()),
        Height::new(0, 3).unwrap()
    );
    assert_eq!(
        TestBlock::timestamp(host.latest_block()).nanoseconds(),
        GENESIS_TIMESTAMP_NANOS + 2 * BLOCK_TIME_NANOS
    );
    assert!(host.validate().is_ok());

    let second = host.get_block(&Height::new(0, 2).unwrap()).unwrap();
    assert_eq!(TestBlock::height(second), Height::new(0, 2).unwrap());
    assert!(host.get_block(&Height::new(0, 4).unwrap()).is_none());
}

#[test]
fn mock_host_header_and_consensus_state() {
    let mut host = MockHost::build(HostParams::default());
    host.advance_block(vec![], &());
    let block = host.latest_block().clone();
    let header = block.into_header();
    assert_eq!(TestHeader::height(&header), Height::new(0, 1).unwrap());
    let consensus: MockConsensusState = header.into_consensus_state();
    assert_eq!(consensus.header, host.history()[0]);
}

#[test]
fn mock_host_validate_detects_gap() {
    let mut host = MockHost::build(HostParams::default());
    host.advance_block(vec![], &());
    // Push a block that skips a height.
    host.push_block(MockHeader::new(Height::new(0, 5).unwrap()));
    assert_eq!(host.validate(), Err("block height does not match".to_string()));
}

#[test]
fn packet_commitment_store_and_delete() {
    let port = PortId::from_str("transfer").unwrap();
    let channel = ChannelId::from_str("channel-0").unwrap();
    let mut ctx = MockContext::default();

    assert!(ctx.packet_commitment(&port, &channel, 1).is_none());

    ctx.store_packet_commitment(port.clone(), channel.clone(), 1, vec![0xAB, 0xCD]);
    ctx.store_packet_commitment(port.clone(), channel.clone(), 2, vec![0x01]);
    assert_eq!(ctx.packet_commitment(&port, &channel, 1).unwrap(), &vec![0xAB, 0xCD]);
    assert_eq!(ctx.packet_commitment(&port, &channel, 2).unwrap(), &vec![0x01]);

    // Overwriting a key replaces its commitment without touching the other.
    ctx.store_packet_commitment(port.clone(), channel.clone(), 1, vec![0xEE]);
    assert_eq!(ctx.packet_commitment(&port, &channel, 1).unwrap(), &vec![0xEE]);
    assert_eq!(ctx.packet_commitment(&port, &channel, 2).unwrap(), &vec![0x01]);

    // Deleting a key removes exactly that key: the terminal ack/timeout path.
    ctx.delete_packet_commitment(&port, &channel, 1);
    assert!(ctx.packet_commitment(&port, &channel, 1).is_none());
    assert_eq!(ctx.packet_commitment(&port, &channel, 2).unwrap(), &vec![0x01]);
}
