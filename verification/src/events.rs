//! Events emitted by the execute phase, modelled as an explicit output list
//! appended to the context — never an implicit global log — so every effect is
//! observable as a (new state, emitted events) pair. Each effect emits a
//! generic `Message` event carrying the detail event's discriminant, followed
//! by the detail event itself.

use vstd::prelude::*;
use crate::client::{ClientMessage, ClientType};
use crate::height::Height;
use crate::identifier::ClientId;

verus! {

/// The discriminant of a detail event, carried by the generic `Message`
/// event for indexing.
#[derive(Clone, Copy, Debug, PartialEq, Eq, Structural)]
pub enum IbcEventType {
    UpdateClient,
    ClientMisbehaviour,
}

/// Detail event of a successful client update.
#[derive(Clone, Debug, PartialEq, Eq)]
pub struct UpdateClient {
    pub client_id: ClientId,
    pub client_type: ClientType,
    pub consensus_height: Height,
    pub consensus_heights: Vec<Height>,
    pub header: ClientMessage,
}

impl UpdateClient {
    pub fn client_id(&self) -> (r: &ClientId)
        ensures
            r == &self.client_id,
    {
        &self.client_id
    }

    pub fn client_type(&self) -> (r: &ClientType)
        ensures
            r == &self.client_type,
    {
        &self.client_type
    }

    pub fn consensus_height(&self) -> (r: &Height)
        ensures
            r == &self.consensus_height,
    {
        &self.consensus_height
    }

    pub fn consensus_heights(&self) -> (r: &Vec<Height>)
        ensures
            r == &self.consensus_heights,
    {
        &self.consensus_heights
    }

    pub fn header(&self) -> (r: &ClientMessage)
        ensures
            r == &self.header,
    {
        &self.header
    }
}

/// Detail event of a client frozen for misbehaviour.
#[derive(Clone, Debug, PartialEq, Eq)]
pub struct ClientMisbehaviour {
    pub client_id: ClientId,
    pub client_type: ClientType,
}

impl ClientMisbehaviour {
    pub fn new(client_id: ClientId, client_type: ClientType) -> (r: ClientMisbehaviour)
        ensures
            r.client_id == client_id,
            r.client_type == client_type,
    {
        ClientMisbehaviour { client_id, client_type }
    }

    pub fn client_id(&self) -> (r: &ClientId)
        ensures
            r == &self.client_id,
    {
        &self.client_id
    }

    pub fn client_type(&self) -> (r: &ClientType)
        ensures
            r == &self.client_type,
    {
        &self.client_type
    }
}

/// An event of the core, either a generic `Message` wrapper or a detail
/// event.
#[derive(Clone, Debug, PartialEq, Eq)]
pub enum IbcEvent {
    Message(IbcEventType),
    UpdateClient(UpdateClient),
    ClientMisbehaviour(ClientMisbehaviour),
}

impl IbcEvent {
    /// The discriminant of this event.
    pub open spec fn spec_event_type(self) -> IbcEventType {
        match self {
            IbcEvent::Message(t) => t,
            IbcEvent::UpdateClient(_) => IbcEventType::UpdateClient,
            IbcEvent::ClientMisbehaviour(_) => IbcEventType::ClientMisbehaviour,
        }
    }

    pub fn event_type(&self) -> (r: IbcEventType)
        ensures
            r == self.spec_event_type(),
    {
        match self {
            IbcEvent::Message(t) => *t,
            IbcEvent::UpdateClient(_) => IbcEventType::UpdateClient,
            IbcEvent::ClientMisbehaviour(_) => IbcEventType::ClientMisbehaviour,
        }
    }
}

/// The event pair a misbehaviour finding appends: the `Message` wrapper, then
/// the detail event naming the frozen client and its type.
pub open spec fn is_misbehaviour_event_pair(
    wrapper: IbcEvent,
    detail: IbcEvent,
    client_id: Seq<char>,
    client_type: Seq<char>,
) -> bool {
    &&& wrapper == IbcEvent::Message(IbcEventType::ClientMisbehaviour)
    &&& detail matches IbcEvent::ClientMisbehaviour(e) && e.client_id@ == client_id
        && e.client_type@ == client_type
}

/// The event pair a successful update appends: the `Message` wrapper, then
/// the detail event carrying the client, its type, the new consensus height,
/// the consensus heights touched, and the header as supplied.
pub open spec fn is_update_event_pair(
    wrapper: IbcEvent,
    detail: IbcEvent,
    client_id: Seq<char>,
    client_type: Seq<char>,
    consensus_height: Height,
    header: ClientMessage,
) -> bool {
    &&& wrapper == IbcEvent::Message(IbcEventType::UpdateClient)
    &&& detail matches IbcEvent::UpdateClient(e) && e.client_id@ == client_id
        && e.client_type@ == client_type && e.consensus_height == consensus_height
        && e.consensus_heights@ =~= seq![consensus_height] && e.header == header
}

} // verus!
