//! The error taxonomy of the core. Every error is recoverable at the message
//! level: a failed message is rejected and nothing else happens. The variants
//! let a relayer tell transient failures (a proof for a height not yet
//! trusted) from permanent ones (a frozen client).

use vstd::prelude::*;
use crate::height::Height;
use crate::identifier::{ClientId, IdentifierError};

verus! {

/// Errors of the client update / misbehaviour state machine.
#[derive(Clone, Debug, PartialEq, Eq)]
pub enum ClientError {
    /// No client state is stored under this identifier.
    ClientNotFound { client_id: ClientId },
    /// The client is frozen: it accepts no further updates.
    ClientFrozen { client_id: ClientId },
    /// The header's declared trusted height has no stored consensus state.
    MissingTrustedHeight { trusted_height: Height },
    /// The header does not progress past its own trusted height.
    InsufficientHeight { trusted_height: Height, header_height: Height },
    /// The header's timestamp does not progress past the trusted consensus
    /// state's timestamp.
    NonMonotonicTime,
    /// The header or evidence is not well-formed.
    MalformedClientMessage,
    /// The message kind does not fit the client's type.
    ClientMessageMismatch,
    /// A stored record contradicts the client's own type: a defect in the
    /// store, surfaced rather than ignored.
    InternalInvariantViolation,
}

/// Errors of the channel state machines and their message parsing.
#[derive(Clone, Debug, PartialEq, Eq)]
pub enum ChannelError {
    /// An identifier on the wire failed validation.
    Identifier(IdentifierError),
    /// A commitment proof was absent or malformed.
    InvalidProof,
    /// A wire height was absent or zero.
    MissingHeight,
    /// The bytes are no protobuf encoding of the message.
    MalformedWireBytes,
    /// The wire record carries a non-zero upgrade sequence, which this
    /// message does not support; accepting one would make the wire round
    /// trip lossy.
    NonZeroUpgradeSequence,
}

/// The error either phase of a handler returns to the host.
#[derive(Clone, Debug, PartialEq, Eq)]
pub enum ContextError {
    Client(ClientError),
    Channel(ChannelError),
}

} // verus!
