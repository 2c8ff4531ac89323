//! The second step of the channel close handshake: the message a relayer
//! sends to chain B to confirm that the channel end on chain A is already
//! closed.
//!
//! The wire record is modelled as a plain-value struct mirroring the protobuf
//! message field for field; parsing it into the domain message validates
//! every identifier, the proof and the proof height, so a malformed value
//! never reaches a state machine. Encoding to and decoding from raw protobuf
//! bytes is delegated to the protobuf library behind two trusted wrappers.

use vstd::prelude::*;
use crate::errors::ChannelError;
use crate::height::Height;
use crate::identifier::{spec_identifier_error, ChannelId, PortId};
use crate::signer::Signer;

verus! {

/// A wire-form height: both parts may be zero there; zero stands for "no
/// height".
#[derive(Clone, Copy, Debug, PartialEq, Eq, Structural)]
pub struct RawHeight {
    pub revision_number: u64,
    pub revision_height: u64,
}

/// The wire record of the close-confirm message, field for field as the
/// protobuf message carries it, with plain values only.
#[derive(Clone, Debug, PartialEq, Eq)]
pub struct RawMsgChannelCloseConfirm {
    pub port_id: String,
    pub channel_id: String,
    pub proof_init: Vec<u8>,
    pub proof_height: Option<RawHeight>,
    pub signer: String,
    pub counterparty_upgrade_sequence: u64,
}

/// The mathematical content of a wire record.
pub struct RawCloseConfirmView {
    pub port_id: Seq<char>,
    pub channel_id: Seq<char>,
    pub proof_init: Seq<u8>,
    pub proof_height: Option<(u64, u64)>,
    pub signer: Seq<char>,
    pub counterparty_upgrade_sequence: u64,
}

impl View for RawMsgChannelCloseConfirm {
    type V = RawCloseConfirmView;

    open spec fn view(&self) -> RawCloseConfirmView {
        RawCloseConfirmView {
            port_id: self.port_id@,
            channel_id: self.channel_id@,
            proof_init: self.proof_init@,
            proof_height: match self.proof_height {
                Some(h) => Some((h.revision_number, h.revision_height)),
                None => None,
            },
            signer: self.signer@,
            counterparty_upgrade_sequence: self.counterparty_upgrade_sequence,
        }
    }
}

/// A non-empty opaque commitment proof.
#[derive(Clone, Debug, PartialEq, Eq)]
pub struct CommitmentProofBytes {
    pub bytes: Vec<u8>,
}

impl View for CommitmentProofBytes {
    type V = Seq<u8>;

    open spec fn view(&self) -> Seq<u8> {
        self.bytes@
    }
}

impl CommitmentProofBytes {
    /// Accepts any non-empty byte string; an absent proof is invalid.
    pub fn try_from_bytes(bytes: Vec<u8>) -> (r: Result<CommitmentProofBytes, ChannelError>)
        ensures
            r is Ok <==> bytes@.len() > 0,
            r matches Ok(p) ==> p@ == bytes@,
            r is Err ==> r == Err::<CommitmentProofBytes, ChannelError>(ChannelError::InvalidProof),
    {
        if bytes.len() == 0 {
            Err(ChannelError::InvalidProof)
        } else {
            Ok(CommitmentProofBytes { bytes })
        }
    }
}

/// The domain form of the close-confirm message, sent to chain B.
#[derive(Clone, Debug, PartialEq, Eq)]
pub struct MsgChannelCloseConfirm {
    pub port_id_on_b: PortId,
    pub chan_id_on_b: ChannelId,
    pub proof_chan_end_on_a: CommitmentProofBytes,
    pub proof_height_on_a: Height,
    pub signer: Signer,
}

/// A wire record parses into a domain message: valid identifiers, a
/// non-empty proof, a present, non-zero proof height, and no upgrade
/// sequence. Parsing accepts exactly the records that serialization can
/// reproduce, so the wire round trip is lossless.
pub open spec fn raw_view_parses(v: RawCloseConfirmView) -> bool {
    &&& PortId::spec_valid(v.port_id)
    &&& ChannelId::spec_valid(v.channel_id)
    &&& v.proof_init.len() > 0
    &&& v.proof_height matches Some(h) && h.1 >= 1
    &&& v.counterparty_upgrade_sequence == 0
}

/// The domain message a parse of this wire record yields.
pub open spec fn parsed_relates(v: RawCloseConfirmView, m: MsgChannelCloseConfirm) -> bool {
    &&& m.port_id_on_b@ == v.port_id
    &&& m.chan_id_on_b@ == v.channel_id
    &&& m.proof_chan_end_on_a@ == v.proof_init
    &&& v.proof_height matches Some(h) && m.proof_height_on_a == (Height {
        revision_number: h.0,
        revision_height: h.1,
    })
    &&& m.signer.account@ == v.signer
}

/// The wire record a domain message serializes to: the same fields, with the
/// upgrade sequence — which the domain message does not carry — at zero.
pub open spec fn serialized_relates(m: MsgChannelCloseConfirm, v: RawCloseConfirmView) -> bool {
    &&& v.port_id == m.port_id_on_b@
    &&& v.channel_id == m.chan_id_on_b@
    &&& v.proof_init == m.proof_chan_end_on_a@
    &&& v.proof_height == Some(
        (m.proof_height_on_a.revision_number, m.proof_height_on_a.revision_height),
    )
    &&& v.signer == m.signer.account@
    &&& v.counterparty_upgrade_sequence == 0
}

/// A domain message is well-formed: its parts satisfy their own invariants.
pub open spec fn msg_well_formed(m: MsgChannelCloseConfirm) -> bool {
    &&& PortId::spec_valid(m.port_id_on_b@)
    &&& ChannelId::spec_valid(m.chan_id_on_b@)
    &&& m.proof_chan_end_on_a@.len() > 0
    &&& m.proof_height_on_a.well_formed()
}

impl MsgChannelCloseConfirm {
    /// The protobuf type url of this message.
    pub fn type_url(&self) -> (r: String)
        ensures
            r@ == "/ibc.core.channel.v1.MsgChannelCloseConfirm"@,
    {
        "/ibc.core.channel.v1.MsgChannelCloseConfirm".to_owned()
    }

    /// Parses a wire record, validating identifiers (port first, then
    /// channel), the proof, the proof height, and the absence of an upgrade
    /// sequence, in that order.
    pub fn try_from(raw: RawMsgChannelCloseConfirm) -> (r: Result<
        MsgChannelCloseConfirm,
        ChannelError,
    >)
        ensures
            r is Ok <==> raw_view_parses(raw@),
            r matches Ok(m) ==> parsed_relates(raw@, m) && msg_well_formed(m),
            !PortId::spec_valid(raw.port_id@) ==> r == Err::<MsgChannelCloseConfirm, ChannelError>(
                ChannelError::Identifier(spec_identifier_error(raw.port_id@, 2, 128)),
            ),
            PortId::spec_valid(raw.port_id@) && !ChannelId::spec_valid(raw.channel_id@) ==> r
                == Err::<MsgChannelCloseConfirm, ChannelError>(
                ChannelError::Identifier(spec_identifier_error(raw.channel_id@, 8, 64)),
            ),
            PortId::spec_valid(raw.port_id@) && ChannelId::spec_valid(raw.channel_id@)
                && raw.proof_init@.len() == 0 ==> r == Err::<MsgChannelCloseConfirm, ChannelError>(
                ChannelError::InvalidProof,
            ),
            PortId::spec_valid(raw.port_id@) && ChannelId::spec_valid(raw.channel_id@)
                && raw.proof_init@.len() > 0 && !(raw@.proof_height matches Some(h) && h.1 >= 1)
                ==> r == Err::<MsgChannelCloseConfirm, ChannelError>(ChannelError::MissingHeight),
            PortId::spec_valid(raw.port_id@) && ChannelId::spec_valid(raw.channel_id@)
                && raw.proof_init@.len() > 0 && (raw@.proof_height matches Some(h) && h.1 >= 1)
                && raw.counterparty_upgrade_sequence != 0 ==> r == Err::<
                MsgChannelCloseConfirm,
                ChannelError,
            >(ChannelError::NonZeroUpgradeSequence),
    {
        let port_id_on_b = match PortId::from_str(raw.port_id.as_str()) {
            Ok(p) => p,
            Err(e) => {
                return Err(ChannelError::Identifier(e));
            },
        };
        let chan_id_on_b = match ChannelId::from_str(raw.channel_id.as_str()) {
            Ok(c) => c,
            Err(e) => {
                return Err(ChannelError::Identifier(e));
            },
        };
        let proof_chan_end_on_a = match CommitmentProofBytes::try_from_bytes(raw.proof_init) {
            Ok(p) => p,
            Err(e) => {
                return Err(e);
            },
        };
        let proof_height_on_a = match raw.proof_height {
            Some(h) => match Height::new(h.revision_number, h.revision_height) {
                Ok(height) => height,
                Err(_) => {
                    return Err(ChannelError::MissingHeight);
                },
            },
            None => {
                return Err(ChannelError::MissingHeight);
            },
        };
        if raw.counterparty_upgrade_sequence != 0 {
            return Err(ChannelError::NonZeroUpgradeSequence);
        }
        Ok(
            MsgChannelCloseConfirm {
                port_id_on_b,
                chan_id_on_b,
                proof_chan_end_on_a,
                proof_height_on_a,
                signer: Signer { account: raw.signer },
            },
        )
    }

    /// Serializes the domain message back to its wire record.
    pub fn to_raw(&self) -> (r: RawMsgChannelCloseConfirm)
        ensures
            serialized_relates(*self, r@),
    {
        RawMsgChannelCloseConfirm {
            port_id: self.port_id_on_b.id.clone(),
            channel_id: self.chan_id_on_b.id.clone(),
            proof_init: self.proof_chan_end_on_a.bytes.clone(),
            proof_height: Some(
                RawHeight {
                    revision_number: self.proof_height_on_a.revision_number,
                    revision_height: self.proof_height_on_a.revision_height,
                },
            ),
            signer: self.signer.account.clone(),
            counterparty_upgrade_sequence: 0,
        }
    }
}

/// Law: serializing a domain message and parsing the result reproduces the
/// message, field for field.
pub proof fn lemma_round_trip_domain(
    m: MsgChannelCloseConfirm,
    v: RawCloseConfirmView,
    back: MsgChannelCloseConfirm,
)
    requires
        msg_well_formed(m),
        serialized_relates(m, v),
        parsed_relates(v, back),
    ensures
        raw_view_parses(v),
        back.port_id_on_b@ == m.port_id_on_b@,
        back.chan_id_on_b@ == m.chan_id_on_b@,
        back.proof_chan_end_on_a@ == m.proof_chan_end_on_a@,
        back.proof_height_on_a == m.proof_height_on_a,
        back.signer.account@ == m.signer.account@,
{
}

/// Law: parsing a wire record and serializing the result reproduces the
/// record, field for field — the wire round trip is exact for every record
/// that parses.
pub proof fn lemma_round_trip_raw(
    v: RawCloseConfirmView,
    m: MsgChannelCloseConfirm,
    v2: RawCloseConfirmView,
)
    requires
        raw_view_parses(v),
        parsed_relates(v, m),
        serialized_relates(m, v2),
    ensures
        v2.port_id == v.port_id,
        v2.channel_id == v.channel_id,
        v2.proof_init == v.proof_init,
        v2.proof_height == v.proof_height,
        v2.signer == v.signer,
        v2.counterparty_upgrade_sequence == v.counterparty_upgrade_sequence,
{
}

/// The protobuf encoding of a wire record's content.
pub uninterp spec fn wire_bytes_of(v: RawCloseConfirmView) -> Seq<u8>;

/// The wire record protobuf decoding recovers from a byte string, if any.
pub uninterp spec fn wire_parse_of(bytes: Seq<u8>) -> Option<RawCloseConfirmView>;

/// Relies on `prost::Message::encode_to_vec` on ibc-proto's
/// `MsgChannelCloseConfirm`: the encoding is a pure function of the message's
/// fields, and `prost::Message::decode` recovers an encoded message exactly.
#[verifier::external_body]
fn proto_encode_raw(raw: &RawMsgChannelCloseConfirm) -> (r: Vec<u8>)
    ensures
        r@ == wire_bytes_of(raw@),
        wire_parse_of(r@) == Some(raw@),
{
    let wire = ibc_proto::ibc::core::channel::v1::MsgChannelCloseConfirm {
        port_id: raw.port_id.clone(),
        channel_id: raw.channel_id.clone(),
        proof_init: raw.proof_init.clone(),
        proof_height: raw.proof_height.as_ref().map(|h| ibc_proto::ibc::core::client::v1::Height { revision_number: h.revision_number, revision_height: h.revision_height }),
        signer: raw.signer.clone(),
        counterparty_upgrade_sequence: raw.counterparty_upgrade_sequence,
    };
    prost::Message::encode_to_vec(&wire)
}

/// Relies on `prost::Message::decode` on ibc-proto's
/// `MsgChannelCloseConfirm`: decoding is a pure function of the bytes.
#[verifier::external_body]
fn proto_decode_raw(bytes: &[u8]) -> (r: Option<RawMsgChannelCloseConfirm>)
    ensures
        r matches Some(raw) ==> wire_parse_of(bytes@) == Some(raw@),
        r is None ==> wire_parse_of(bytes@) is None,
{
    match <ibc_proto::ibc::core::channel::v1::MsgChannelCloseConfirm as prost::Message>::decode(bytes) {
        Ok(w) => Some(RawMsgChannelCloseConfirm {
            port_id: w.port_id,
            channel_id: w.channel_id,
            proof_init: w.proof_init,
            proof_height: w.proof_height.map(|h| RawHeight { revision_number: h.revision_number, revision_height: h.revision_height }),
            signer: w.signer,
            counterparty_upgrade_sequence: w.counterparty_upgrade_sequence,
        }),
        Err(_) => None,
    }
}

impl MsgChannelCloseConfirm {
    /// Encodes the message to protobuf bytes; decoding them recovers the
    /// serialized wire record exactly.
    pub fn encode_to_wire(&self) -> (r: Vec<u8>)
        ensures
            exists|v: RawCloseConfirmView|
                serialized_relates(*self, v) && r@ == wire_bytes_of(v) && #[trigger] wire_parse_of(
                    r@,
                ) == Some(v),
    {
        let raw = self.to_raw();
        proto_encode_raw(&raw)
    }

    /// Decodes a domain message from protobuf bytes: the bytes must decode to
    /// a wire record, and that record must parse.
    pub fn decode_from_wire(bytes: &[u8]) -> (r: Result<MsgChannelCloseConfirm, ChannelError>)
        ensures
            r is Ok <==> (wire_parse_of(bytes@) matches Some(v) && raw_view_parses(v)),
            r matches Ok(m) ==> parsed_relates(wire_parse_of(bytes@)->Some_0, m)
                && msg_well_formed(m),
            wire_parse_of(bytes@) is None ==> r == Err::<MsgChannelCloseConfirm, ChannelError>(
                ChannelError::MalformedWireBytes,
            ),
    {
        match proto_decode_raw(bytes) {
            Some(raw) => MsgChannelCloseConfirm::try_from(raw),
            None => Err(ChannelError::MalformedWireBytes),
        }
    }
}

} // verus!
