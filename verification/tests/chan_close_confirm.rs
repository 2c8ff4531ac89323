use ibc_core::chan_close_confirm::{
    CommitmentProofBytes, MsgChannelCloseConfirm, RawHeight, RawMsgChannelCloseConfirm,
};
use ibc_core::errors::ChannelError;
use ibc_core::height::Height;
use ibc_core::identifier::{ChannelId, IdentifierError, PortId};
use ibc_core::signer::Signer;

/// Returns a dummy wire record, for testing only!
fn get_dummy_raw_msg_chan_close_confirm(proof_height: u64) -> RawMsgChannelCloseConfirm {
    RawMsgChannelCloseConfirm {
        port_id: "defaultPort".to_string(),
        channel_id: "channel-0".to_string(),
        proof_init: b"commitment proof bytes".to_vec(),
        proof_height: Some(RawHeight {
            revision_number: 0,
            revision_height: proof_height,
        }),
        signer: "cosmos1wxeyh7zgn4tctjzs0vtqpc6p5cxq5t2muzl7ng".to_string(),
        counterparty_upgrade_sequence: 0,
    }
}

#[test]
fn parse_channel_close_confirm_msg() {
    struct Test {
        name: String,
        raw: RawMsgChannelCloseConfirm,
        want_pass: bool,
    }

    let proof_height = 10;
    let default_raw_msg = get_dummy_raw_msg_chan_close_confirm(proof_height);

    let tests: Vec<Test> = vec![
        Test {
            name: "Good parameters".to_string(),
            raw: default_raw_msg.clone(),
            want_pass: true,
        },
        Test {
            name: "Correct port".to_string(),
            raw: RawMsgChannelCloseConfirm {
                port_id: "p34".to_string(),
                ..default_raw_msg.clone()
            },
            want_pass: true,
        },
        Test {
            name: "Bad port, name too short".to_string(),
            raw: RawMsgChannelCloseConfirm {
                port_id: "p".to_string(),
                ..default_raw_msg.clone()
            },
            want_pass: false,
        },
        Test {
            name: "Bad port, name too long".to_string(),
            raw: RawMsgChannelCloseConfirm {
                port_id:
                    "abcdefghijklmnsdfasdfasdfasdfasdgafgadsfasdfasdfasdasfdasdfsadfopqrstuabcdefghijklmnsdfasdfasdfasdfasdgafgadsfasdfasdfasdasfdasdfsadfopqrstu"
                        .to_string(),
                ..default_raw_msg.clone()
            },
            want_pass: false,
        },
        Test {
            name: "Correct channel identifier".to_string(),
            raw: RawMsgChannelCloseConfirm {
                channel_id: "channel-34".to_string(),
                ..default_raw_msg.clone()
            },
            want_pass: true,
        },
        Test {
            name: "Bad channel, name too short".to_string(),
            raw: RawMsgChannelCloseConfirm {
                channel_id: "chshort".to_string(),
                ..default_raw_msg.clone()
            },
            want_pass: false,
        },
        Test {
            name: "Bad channel, name too long".to_string(),
            raw: RawMsgChannelCloseConfirm {
                channel_id:
                    "channel-128391283791827398127398791283912837918273981273987912839"
                        .to_string(),
                ..default_raw_msg.clone()
            },
            want_pass: false,
        },
        Test {
            name: "Bad proof height, height = 0".to_string(),
            raw: RawMsgChannelCloseConfirm {
                proof_height: Some(RawHeight {
                    revision_number: 0,
                    revision_height: 0,
                }),
                ..default_raw_msg
            },
            want_pass: false,
        },
    ]
    .into_iter()
    .collect();

    for test in tests {
        let msg = MsgChannelCloseConfirm::try_from(test.raw.clone());

        assert_eq!(
            test.want_pass,
            msg.is_ok(),
            "MsgChanCloseConfirm::try_from raw failed for test {}, \nraw msg {:?} with error {:?}",
            test.name,
            test.raw,
            msg.err(),
        );
    }
}

#[test]
fn to_and_from() {
    let raw = get_dummy_raw_msg_chan_close_confirm(19);
    let msg = MsgChannelCloseConfirm::try_from(raw.clone()).unwrap();
    let raw_back = msg.to_raw();
    let msg_back = MsgChannelCloseConfirm::try_from(raw_back.clone()).unwrap();
    assert_eq!(raw, raw_back);
    assert_eq!(msg, msg_back);
}

/// A zero proof height reports exactly `MissingHeight`, independent of the
/// other fields.
#[test]
fn zero_proof_height_reports_missing_height() {
    let raw = RawMsgChannelCloseConfirm {
        proof_height: Some(RawHeight {
            revision_number: 0,
            revision_height: 0,
        }),
        ..get_dummy_raw_msg_chan_close_confirm(10)
    };
    assert_eq!(
        MsgChannelCloseConfirm::try_from(raw),
        Err(ChannelError::MissingHeight)
    );

    let raw = RawMsgChannelCloseConfirm {
        proof_height: None,
        ..get_dummy_raw_msg_chan_close_confirm(10)
    };
    assert_eq!(
        MsgChannelCloseConfirm::try_from(raw),
        Err(ChannelError::MissingHeight)
    );
}

/// The parse errors come in a fixed order with exact variants.
#[test]
fn parse_error_variants() {
    let raw = RawMsgChannelCloseConfirm {
        port_id: "p".to_string(),
        ..get_dummy_raw_msg_chan_close_confirm(10)
    };
    assert_eq!(
        MsgChannelCloseConfirm::try_from(raw),
        Err(ChannelError::Identifier(IdentifierError::InvalidLength))
    );

    let raw = RawMsgChannelCloseConfirm {
        port_id: "has/slash".to_string(),
        ..get_dummy_raw_msg_chan_close_confirm(10)
    };
    assert_eq!(
        MsgChannelCloseConfirm::try_from(raw),
        Err(ChannelError::Identifier(IdentifierError::InvalidCharacter))
    );

    let raw = RawMsgChannelCloseConfirm {
        proof_init: vec![],
        ..get_dummy_raw_msg_chan_close_confirm(10)
    };
    assert_eq!(
        MsgChannelCloseConfirm::try_from(raw),
        Err(ChannelError::InvalidProof)
    );
}

/// A wire record carrying a non-zero upgrade sequence is rejected: the
/// domain message has no field for it, so accepting one would make the wire
/// round trip lossy.
#[test]
fn nonzero_upgrade_sequence_rejected() {
    let raw = RawMsgChannelCloseConfirm {
        counterparty_upgrade_sequence: 7,
        ..get_dummy_raw_msg_chan_close_confirm(10)
    };
    assert_eq!(
        MsgChannelCloseConfirm::try_from(raw),
        Err(ChannelError::NonZeroUpgradeSequence)
    );
}

/// Encoding to protobuf bytes and decoding them reproduces the message: the
/// bytes really are an encoding, not the input handed back.
#[test]
fn wire_bytes_round_trip() {
    let msg = MsgChannelCloseConfirm {
        port_id_on_b: PortId::from_str("transfer").unwrap(),
        chan_id_on_b: ChannelId::from_str("channel-34").unwrap(),
        proof_chan_end_on_a: CommitmentProofBytes::try_from_bytes(b"proof".to_vec()).unwrap(),
        proof_height_on_a: Height::new(0, 19).unwrap(),
        signer: Signer::from_string("cosmos1wxeyh7zgn4tctjzs0vtqpc6p5cxq5t2muzl7ng".to_string()),
    };
    let bytes = msg.encode_to_wire();
    assert!(!bytes.is_empty());
    let back = MsgChannelCloseConfirm::decode_from_wire(&bytes).unwrap();
    assert_eq!(back, msg);

    // Bytes that are no protobuf encoding of the message are rejected.
    let garbage: Vec<u8> = vec![0xFF, 0xFF, 0xFF, 0xFF];
    assert!(MsgChannelCloseConfirm::decode_from_wire(&garbage).is_err());
}
