//! The host context: the single mutable resource the state machines touch.
//! It owns the client records (client state plus per-height consensus
//! states), the host chain's own block history, and the list of events
//! emitted so far. Handlers reach it through an explicit parameter, never
//! ambient state, and every mutation is described in their contracts.

use vstd::prelude::*;
use crate::client::{
    cs_has, cs_unique, AnyClientState, AnyConsensusState, ClientMessage, ClientType,
    ConsensusEntry, MockClientState, MockConsensusState, MockHeader, TmClientState,
    TmConsensusState, TmHeader, cs_get, find_consensus_index, tm_client_type,
};
use crate::errors::{ClientError, ContextError};
use crate::events::IbcEvent;
use crate::height::Height;
use crate::identifier::{ChainId, ChannelId, ClientId, PortId};
use crate::timestamp::Timestamp;

verus! {

/// Nanoseconds between two consecutive host blocks.
pub const BLOCK_TIME_NANOS: u64 = 3_000_000_000;

/// The timestamp of the (notional) block before the first one.
pub const GENESIS_TIMESTAMP_NANOS: u64 = 1_577_836_800_000_000_000;

/// The deterministic timestamp of the host block at a revision height:
/// genesis plus one block interval per block, saturating at the
/// representable maximum.
pub open spec fn spec_block_timestamp(h: u64) -> u64 {
    if GENESIS_TIMESTAMP_NANOS + h * BLOCK_TIME_NANOS <= u64::MAX {
        (GENESIS_TIMESTAMP_NANOS + h * BLOCK_TIME_NANOS) as u64
    } else {
        u64::MAX
    }
}

/// Computes the deterministic timestamp of the block at a revision height.
pub fn block_timestamp(h: u64) -> (r: u64)
    ensures
        r == spec_block_timestamp(h),
{
    match h.checked_mul(BLOCK_TIME_NANOS) {
        Some(m) => match GENESIS_TIMESTAMP_NANOS.checked_add(m) {
            Some(t) => t,
            None => u64::MAX,
        },
        None => u64::MAX,
    }
}

/// The deterministic commitment root the host chain reports for the block at
/// a revision height.
pub open spec fn spec_block_root(h: u64) -> Seq<u8> {
    seq![(h % 256) as u8]
}

/// Computes the deterministic commitment root of the block at a revision
/// height.
pub fn block_root(h: u64) -> (r: Vec<u8>)
    ensures
        r@ == spec_block_root(h),
{
    let mut r: Vec<u8> = Vec::new();
    r.push((h % 256) as u8);
    proof {
        assert(r@ =~= spec_block_root(h));
    }
    r
}

/// The kind of chain a context simulates.
#[derive(Clone, Copy, Debug, PartialEq, Eq, Structural)]
pub enum HostType {
    /// A chain whose light client is the mock client.
    Mock,
    /// A chain whose light client is the host-chain light client.
    SyntheticTendermint,
}

/// One block of the simulated host chain.
#[derive(Clone, Debug, PartialEq, Eq)]
pub enum HostBlock {
    Mock(MockHeader),
    SyntheticTendermint(TmHeader),
}

/// The block the host of the given kind produces at the given height.
pub open spec fn is_host_block(b: HostBlock, host_type: HostType, height: Height) -> bool {
    match (host_type, b) {
        (HostType::Mock, HostBlock::Mock(mh)) => mh == (MockHeader {
            height,
            timestamp: Timestamp { nanoseconds: spec_block_timestamp(height.revision_height) },
        }),
        (HostType::SyntheticTendermint, HostBlock::SyntheticTendermint(th)) => {
            &&& th.height == height
            &&& th.timestamp.nanoseconds == spec_block_timestamp(height.revision_height)
            &&& th.trusted_height == (Height {
                revision_number: height.revision_number,
                revision_height: 1,
            })
            &&& th.commitment_root@ == spec_block_root(height.revision_height)
        },
        _ => false,
    }
}

impl HostBlock {
    pub open spec fn spec_height(self) -> Height {
        match self {
            HostBlock::Mock(h) => h.height,
            HostBlock::SyntheticTendermint(h) => h.height,
        }
    }

    pub fn height(&self) -> (r: Height)
        ensures
            r == self.spec_height(),
    {
        match self {
            HostBlock::Mock(h) => h.height,
            HostBlock::SyntheticTendermint(h) => h.height,
        }
    }

    /// Declares which stored consensus state a verifier should trust when
    /// checking this block's header. Meaningful for the host-chain light
    /// client only; a mock block carries no trust anchor.
    pub fn set_trusted_height(&mut self, trusted_height: Height)
        ensures
            match (*old(self), *final(self)) {
                (HostBlock::Mock(o), HostBlock::Mock(n)) => n == o,
                (HostBlock::SyntheticTendermint(o), HostBlock::SyntheticTendermint(n)) => {
                    &&& n.height == o.height
                    &&& n.timestamp == o.timestamp
                    &&& n.commitment_root == o.commitment_root
                    &&& n.trusted_height == trusted_height
                },
                _ => false,
            },
    {
        match self {
            HostBlock::Mock(_) => {},
            HostBlock::SyntheticTendermint(h) => {
                h.set_trusted_height(trusted_height);
            },
        }
    }

    /// Generates a host-chain block directly, for building test evidence.
    pub fn generate_tm_block(chain_id: &ChainId, revision_height: u64, timestamp: Timestamp) -> (r:
        TmHeader)
        ensures
            r.height == (Height {
                revision_number: chain_id.revision_number,
                revision_height,
            }),
            r.timestamp == timestamp,
            r.trusted_height == (Height {
                revision_number: chain_id.revision_number,
                revision_height: 1,
            }),
            r.commitment_root@ == spec_block_root(revision_height),
    {
        TmHeader {
            height: Height {
                revision_number: chain_id.revision_number,
                revision_height,
            },
            timestamp,
            trusted_height: Height {
                revision_number: chain_id.revision_number,
                revision_height: 1,
            },
            commitment_root: block_root(revision_height),
        }
    }

    /// The client message carrying this block's header.
    pub fn into_client_message(self) -> (r: ClientMessage)
        ensures
            match self {
                HostBlock::Mock(h) => r == ClientMessage::MockHeader(h),
                HostBlock::SyntheticTendermint(h) => r == ClientMessage::TmHeader(h),
            },
    {
        match self {
            HostBlock::Mock(h) => ClientMessage::MockHeader(h),
            HostBlock::SyntheticTendermint(h) => ClientMessage::TmHeader(h),
        }
    }

    /// The host-chain header inside this block, if it is one.
    pub fn try_into_tm_header(self) -> (r: Option<TmHeader>)
        ensures
            match self {
                HostBlock::Mock(_) => r is None,
                HostBlock::SyntheticTendermint(h) => r == Some(h),
            },
    {
        match self {
            HostBlock::Mock(_) => None,
            HostBlock::SyntheticTendermint(h) => Some(h),
        }
    }
}

/// One client tracked by the host: its state and its stored consensus
/// states, keyed by height.
#[derive(Clone, Debug, PartialEq, Eq)]
pub struct ClientRecord {
    pub client_id: ClientId,
    pub client_state: AnyClientState,
    pub consensus_states: Vec<ConsensusEntry>,
}

/// Client identifiers are pairwise distinct.
pub open spec fn clients_unique(s: Seq<ClientRecord>) -> bool {
    forall|i: int, j: int|
        0 <= i < j < s.len() ==> (#[trigger] s[i]).client_id@ != (#[trigger] s[j]).client_id@
}

/// A client record is stored under this identifier.
pub open spec fn has_client(s: Seq<ClientRecord>, id: Seq<char>) -> bool {
    exists|i: int| 0 <= i < s.len() && (#[trigger] s[i]).client_id@ == id
}

/// The index of the record under this identifier (meaningful under
/// `clients_unique` and `has_client`).
pub open spec fn client_index(s: Seq<ClientRecord>, id: Seq<char>) -> int {
    choose|i: int| 0 <= i < s.len() && (#[trigger] s[i]).client_id@ == id
}

/// The record stored under this identifier.
pub open spec fn client_rec(s: Seq<ClientRecord>, id: Seq<char>) -> ClientRecord {
    s[client_index(s, id)]
}

/// Under uniqueness, a record with the sought identifier pins the lookup
/// index.
pub proof fn lemma_client_index_pinned(s: Seq<ClientRecord>, id: Seq<char>, i: int)
    requires
        clients_unique(s),
        0 <= i < s.len(),
        s[i].client_id@ == id,
    ensures
        has_client(s, id),
        client_index(s, id) == i,
        client_rec(s, id) == s[i],
{
    assert(has_client(s, id));
    let j = client_index(s, id);
    assert(0 <= j < s.len() && s[j].client_id@ == id);
    if i < j {
        assert(s[i].client_id@ != s[j].client_id@);
    } else if j < i {
        assert(s[j].client_id@ != s[i].client_id@);
    }
}

/// Finds the index of the record under `client_id`, if any.
pub fn find_client_index(list: &Vec<ClientRecord>, client_id: &ClientId) -> (r: Option<usize>)
    requires
        clients_unique(list@),
    ensures
        r matches Some(i) ==> i < list@.len() && list@[i as int].client_id@ == client_id@
            && has_client(list@, client_id@) && client_index(list@, client_id@) == i as int,
        r is None ==> !has_client(list@, client_id@),
{
    let mut i: usize = 0;
    while i < list.len()
        invariant
            clients_unique(list@),
            i <= list@.len(),
            forall|j: int| 0 <= j < i ==> (#[trigger] list@[j]).client_id@ != client_id@,
        decreases list@.len() - i,
    {
        if list[i].client_id.eq_id(client_id) {
            proof {
                lemma_client_index_pinned(list@, client_id@, i as int);
            }
            return Some(i);
        }
        i += 1;
    }
    None
}

/// One packet commitment, keyed by (port, channel, sequence). Written on
/// send, deleted on acknowledgement or timeout refund.
#[derive(Clone, Debug, PartialEq, Eq)]
pub struct PacketCommitmentEntry {
    pub port_id: PortId,
    pub channel_id: ChannelId,
    pub sequence: u64,
    pub commitment: Vec<u8>,
}

/// The entry carries this (port, channel, sequence) key.
pub open spec fn pc_key_matches(
    e: PacketCommitmentEntry,
    port: Seq<char>,
    channel: Seq<char>,
    sequence: u64,
) -> bool {
    e.port_id@ == port && e.channel_id@ == channel && e.sequence == sequence
}

/// Packet commitment keys are pairwise distinct.
pub open spec fn pc_unique(s: Seq<PacketCommitmentEntry>) -> bool {
    forall|i: int, j: int|
        0 <= i < j < s.len() ==> !((#[trigger] s[i]).port_id@ == (#[trigger] s[j]).port_id@
            && s[i].channel_id@ == s[j].channel_id@ && s[i].sequence == s[j].sequence)
}

/// A commitment is stored under this key.
pub open spec fn pc_has(
    s: Seq<PacketCommitmentEntry>,
    port: Seq<char>,
    channel: Seq<char>,
    sequence: u64,
) -> bool {
    exists|i: int| 0 <= i < s.len() && pc_key_matches(#[trigger] s[i], port, channel, sequence)
}

/// The index of the entry under this key (meaningful under `pc_unique` and
/// `pc_has`).
pub open spec fn pc_index(
    s: Seq<PacketCommitmentEntry>,
    port: Seq<char>,
    channel: Seq<char>,
    sequence: u64,
) -> int {
    choose|i: int| 0 <= i < s.len() && pc_key_matches(#[trigger] s[i], port, channel, sequence)
}

/// The commitment stored under this key.
pub open spec fn pc_get(
    s: Seq<PacketCommitmentEntry>,
    port: Seq<char>,
    channel: Seq<char>,
    sequence: u64,
) -> Seq<u8> {
    s[pc_index(s, port, channel, sequence)].commitment@
}

/// Under uniqueness, an entry with the sought key pins the lookup index.
pub proof fn lemma_pc_index_pinned(
    s: Seq<PacketCommitmentEntry>,
    port: Seq<char>,
    channel: Seq<char>,
    sequence: u64,
    i: int,
)
    requires
        pc_unique(s),
        0 <= i < s.len(),
        pc_key_matches(s[i], port, channel, sequence),
    ensures
        pc_has(s, port, channel, sequence),
        pc_index(s, port, channel, sequence) == i,
        pc_get(s, port, channel, sequence) == s[i].commitment@,
{
    assert(pc_has(s, port, channel, sequence));
    let j = pc_index(s, port, channel, sequence);
    assert(0 <= j < s.len() && pc_key_matches(s[j], port, channel, sequence));
    if i < j {
        assert(!(s[i].port_id@ == s[j].port_id@ && s[i].channel_id@ == s[j].channel_id@ && s[i].sequence
            == s[j].sequence));
    } else if j < i {
        assert(!(s[j].port_id@ == s[i].port_id@ && s[j].channel_id@ == s[i].channel_id@ && s[j].sequence
            == s[i].sequence));
    }
}

/// Finds the index of the commitment stored under the key, if any.
fn find_packet_commitment_index(
    list: &Vec<PacketCommitmentEntry>,
    port_id: &PortId,
    channel_id: &ChannelId,
    sequence: u64,
) -> (r: Option<usize>)
    requires
        pc_unique(list@),
    ensures
        r matches Some(i) ==> i < list@.len() && pc_key_matches(
            list@[i as int],
            port_id@,
            channel_id@,
            sequence,
        ) && pc_has(list@, port_id@, channel_id@, sequence) && pc_index(
            list@,
            port_id@,
            channel_id@,
            sequence,
        ) == i as int,
        r is None ==> !pc_has(list@, port_id@, channel_id@, sequence),
{
    let mut i: usize = 0;
    while i < list.len()
        invariant
            pc_unique(list@),
            i <= list@.len(),
            forall|j: int|
                0 <= j < i ==> !pc_key_matches(#[trigger] list@[j], port_id@, channel_id@, sequence),
        decreases list@.len() - i,
    {
        let e = &list[i];
        if e.port_id.eq_id(port_id) && e.channel_id.eq_id(channel_id) && e.sequence == sequence {
            proof {
                lemma_pc_index_pinned(list@, port_id@, channel_id@, sequence, i as int);
            }
            return Some(i);
        }
        i += 1;
    }
    None
}

/// The stored consensus states fit the client's own algorithm.
pub open spec fn record_coherent(r: ClientRecord) -> bool {
    match r.client_state {
        AnyClientState::Mock(_) => forall|k: int|
            0 <= k < r.consensus_states@.len() ==> (#[trigger] r.consensus_states@[k]).state
                is Mock,
        AnyClientState::Tm(_) => forall|k: int|
            0 <= k < r.consensus_states@.len() ==> (#[trigger] r.consensus_states@[k]).state is Tm,
    }
}

/// The deterministic mock consensus state entry for a height.
pub open spec fn is_mock_consensus_entry(e: ConsensusEntry, h: Height) -> bool {
    e.height == h && e.state == AnyConsensusState::Mock(
        MockConsensusState {
            header: MockHeader {
                height: h,
                timestamp: Timestamp { nanoseconds: spec_block_timestamp(h.revision_height) },
            },
        },
    )
}

/// The deterministic host-chain consensus state entry for a height.
pub open spec fn is_tm_consensus_entry(e: ConsensusEntry, h: Height) -> bool {
    e.height == h && match e.state {
        AnyConsensusState::Tm(c) => c.commitment_root@ == spec_block_root(h.revision_height)
            && c.timestamp.nanoseconds == spec_block_timestamp(h.revision_height),
        AnyConsensusState::Mock(_) => false,
    }
}

/// A freshly created mock-client record with one consensus state.
pub open spec fn is_mock_client_record(
    rec: ClientRecord,
    id: Seq<char>,
    latest: Height,
    cs_h: Height,
) -> bool {
    &&& rec.client_id@ == id
    &&& rec.client_state == AnyClientState::Mock(
        MockClientState {
            header: MockHeader {
                height: latest,
                timestamp: Timestamp { nanoseconds: spec_block_timestamp(latest.revision_height) },
            },
            frozen_height: None,
        },
    )
    &&& rec.consensus_states@.len() == 1
    &&& is_mock_consensus_entry(rec.consensus_states@[0], cs_h)
}

/// A freshly created host-chain-client record with one consensus state.
pub open spec fn is_tm_client_record(
    rec: ClientRecord,
    id: Seq<char>,
    latest: Height,
    cs_h: Height,
) -> bool {
    &&& rec.client_id@ == id
    &&& rec.client_state == AnyClientState::Tm(
        TmClientState { latest_height: latest, frozen_height: None },
    )
    &&& rec.consensus_states@.len() == 1
    &&& is_tm_consensus_entry(rec.consensus_states@[0], cs_h)
}

/// A freshly created mock-client record with consensus states at `cs_h - 1`
/// and `cs_h`.
pub open spec fn is_mock_client_record_with_history(
    rec: ClientRecord,
    id: Seq<char>,
    latest: Height,
    cs_h: Height,
) -> bool {
    &&& rec.client_id@ == id
    &&& rec.client_state == AnyClientState::Mock(
        MockClientState {
            header: MockHeader {
                height: latest,
                timestamp: Timestamp { nanoseconds: spec_block_timestamp(latest.revision_height) },
            },
            frozen_height: None,
        },
    )
    &&& rec.consensus_states@.len() == 2
    &&& is_mock_consensus_entry(
        rec.consensus_states@[0],
        Height {
            revision_number: cs_h.revision_number,
            revision_height: (cs_h.revision_height - 1) as u64,
        },
    )
    &&& is_mock_consensus_entry(rec.consensus_states@[1], cs_h)
}

/// A freshly created host-chain-client record with consensus states at
/// `cs_h - 1` and `cs_h`.
pub open spec fn is_tm_client_record_with_history(
    rec: ClientRecord,
    id: Seq<char>,
    latest: Height,
    cs_h: Height,
) -> bool {
    &&& rec.client_id@ == id
    &&& rec.client_state == AnyClientState::Tm(
        TmClientState { latest_height: latest, frozen_height: None },
    )
    &&& rec.consensus_states@.len() == 2
    &&& is_tm_consensus_entry(
        rec.consensus_states@[0],
        Height {
            revision_number: cs_h.revision_number,
            revision_height: (cs_h.revision_height - 1) as u64,
        },
    )
    &&& is_tm_consensus_entry(rec.consensus_states@[1], cs_h)
}

/// Builds the deterministic mock consensus entry for a height.
fn mock_consensus_entry(h: Height) -> (r: ConsensusEntry)
    ensures
        is_mock_consensus_entry(r, h),
        r.state is Mock,
{
    ConsensusEntry {
        height: h,
        state: AnyConsensusState::Mock(
            MockConsensusState {
                header: MockHeader {
                    height: h,
                    timestamp: Timestamp { nanoseconds: block_timestamp(h.revision_height) },
                },
            },
        ),
    }
}

/// Builds the deterministic host-chain consensus entry for a height.
fn tm_consensus_entry(h: Height) -> (r: ConsensusEntry)
    ensures
        is_tm_consensus_entry(r, h),
        r.state is Tm,
{
    ConsensusEntry {
        height: h,
        state: AnyConsensusState::Tm(
            TmConsensusState {
                commitment_root: block_root(h.revision_height),
                timestamp: Timestamp { nanoseconds: block_timestamp(h.revision_height) },
            },
        ),
    }
}

/// A host chain simulated in memory, together with the client records and
/// emitted events the state machines operate on.
#[derive(Debug)]
pub struct MockContext {
    pub host_chain_id: ChainId,
    pub host_type: HostType,
    pub history: Vec<HostBlock>,
    pub clients: Vec<ClientRecord>,
    pub packet_commitments: Vec<PacketCommitmentEntry>,
    pub events: Vec<IbcEvent>,
}

impl MockContext {
    /// The store's invariant: unique client identifiers, unique consensus
    /// heights per client, and consensus states that fit their client's
    /// algorithm.
    pub open spec fn well_formed(self) -> bool {
        &&& clients_unique(self.clients@)
        &&& pc_unique(self.packet_commitments@)
        &&& forall|i: int|
            0 <= i < self.clients@.len() ==> cs_unique(
                (#[trigger] self.clients@[i]).consensus_states@,
            )
        &&& forall|i: int|
            0 <= i < self.clients@.len() ==> record_coherent(#[trigger] self.clients@[i])
    }

    /// The two contexts hold the same observable state.
    pub open spec fn same_state(self, other: MockContext) -> bool {
        &&& self.host_chain_id == other.host_chain_id
        &&& self.host_type == other.host_type
        &&& self.history@ == other.history@
        &&& self.clients@ == other.clients@
        &&& self.packet_commitments@ == other.packet_commitments@
        &&& self.events@ == other.events@
    }

    /// Builds a context for a host chain of the given kind whose history
    /// holds the most recent `max_history_size` blocks up to `latest_height`.
    pub fn new(
        host_chain_id: ChainId,
        host_type: HostType,
        max_history_size: usize,
        latest_height: Height,
    ) -> (r: MockContext)
        requires
            max_history_size >= 1,
            latest_height.well_formed(),
            host_chain_id.revision_number == latest_height.revision_number,
        ensures
            r.host_chain_id == host_chain_id,
            r.host_type == host_type,
            r.clients@ =~= Seq::<ClientRecord>::empty(),
            r.packet_commitments@ =~= Seq::<PacketCommitmentEntry>::empty(),
            r.events@ =~= Seq::<IbcEvent>::empty(),
            r.history@.len() == vstd::math::min(
                max_history_size as int,
                latest_height.revision_height as int,
            ),
            forall|i: int|
                0 <= i < r.history@.len() ==> is_host_block(
                    #[trigger] r.history@[i],
                    host_type,
                    Height {
                        revision_number: latest_height.revision_number,
                        revision_height: (latest_height.revision_height - (r.history@.len() - 1
                            - i)) as u64,
                    },
                ),
            r.well_formed(),
    {
        let n: u64 = if (max_history_size as u64) <= latest_height.revision_height {
            max_history_size as u64
        } else {
            latest_height.revision_height
        };
        let first: u64 = latest_height.revision_height - n + 1;
        let revision_number = latest_height.revision_number;
        let mut history: Vec<HostBlock> = Vec::new();
        let mut i: u64 = 0;
        while i < n
            invariant
                n >= 1,
                first == latest_height.revision_height - n + 1,
                first >= 1,
                i <= n,
                n <= latest_height.revision_height,
                history@.len() == i,
                forall|j: int|
                    0 <= j < i ==> is_host_block(
                        #[trigger] history@[j],
                        host_type,
                        Height {
                            revision_number,
                            revision_height: (first + j) as u64,
                        },
                    ),
            decreases n - i,
        {
            let h: u64 = first + i;
            let height = Height { revision_number, revision_height: h };
            let ts = Timestamp { nanoseconds: block_timestamp(h) };
            let block = match host_type {
                HostType::Mock => HostBlock::Mock(MockHeader { height, timestamp: ts }),
                HostType::SyntheticTendermint => HostBlock::SyntheticTendermint(
                    TmHeader {
                        height,
                        timestamp: ts,
                        trusted_height: Height { revision_number, revision_height: 1 },
                        commitment_root: block_root(h),
                    },
                ),
            };
            history.push(block);
            i += 1;
        }
        MockContext {
            host_chain_id,
            host_type,
            history,
            clients: Vec::new(),
            packet_commitments: Vec::new(),
            events: Vec::new(),
        }
    }

    /// The conventional default context: a mock host named `mockgaia` on
    /// revision zero, five blocks deep, at height five.
    pub fn default() -> (r: MockContext)
        ensures
            r.well_formed(),
            r.clients@ =~= Seq::<ClientRecord>::empty(),
            r.packet_commitments@ =~= Seq::<PacketCommitmentEntry>::empty(),
            r.events@ =~= Seq::<IbcEvent>::empty(),
            r.host_type == HostType::Mock,
    {
        MockContext::new(
            ChainId { name: "mockgaia".to_owned(), revision_number: 0 },
            HostType::Mock,
            5,
            Height { revision_number: 0, revision_height: 5 },
        )
    }

    /// Adds a mock-client record for `client_id`, created at `height`, with
    /// one consensus state at that height.
    pub fn with_client(self, client_id: &ClientId, height: Height) -> (r: MockContext)
        requires
            self.well_formed(),
            !has_client(self.clients@, client_id@),
            height.well_formed(),
        ensures
            r.well_formed(),
            r.host_chain_id == self.host_chain_id,
            r.host_type == self.host_type,
            r.history@ == self.history@,
            r.packet_commitments@ == self.packet_commitments@,
            r.events@ == self.events@,
            r.clients@.len() == self.clients@.len() + 1,
            r.clients@.drop_last() == self.clients@,
            is_mock_client_record(r.clients@.last(), client_id@, height, height),
    {
        self.with_client_parametrized(client_id, height, None, None)
    }

    /// Adds a client record for `client_id` whose latest height is
    /// `client_state_height`, of the given client type (mock when absent),
    /// with one consensus state at `consensus_state_height` (the latest
    /// height when absent).
    pub fn with_client_parametrized(
        self,
        client_id: &ClientId,
        client_state_height: Height,
        client_type: Option<ClientType>,
        consensus_state_height: Option<Height>,
    ) -> (r: MockContext)
        requires
            self.well_formed(),
            !has_client(self.clients@, client_id@),
            client_state_height.well_formed(),
            consensus_state_height matches Some(h) ==> h.well_formed(),
            client_type matches Some(ct) ==> ct@ == "9999-mock"@ || ct@ == "07-tendermint"@,
        ensures
            r.well_formed(),
            r.host_chain_id == self.host_chain_id,
            r.host_type == self.host_type,
            r.history@ == self.history@,
            r.packet_commitments@ == self.packet_commitments@,
            r.events@ == self.events@,
            r.clients@.len() == self.clients@.len() + 1,
            r.clients@.drop_last() == self.clients@,
            ({
                let cs_h = if consensus_state_height is Some {
                    consensus_state_height->Some_0
                } else {
                    client_state_height
                };
                if client_type matches Some(ct) && ct@ == "07-tendermint"@ {
                    is_tm_client_record(r.clients@.last(), client_id@, client_state_height, cs_h)
                } else {
                    is_mock_client_record(r.clients@.last(), client_id@, client_state_height, cs_h)
                }
            }),
    {
        let cs_height = match consensus_state_height {
            Some(h) => h,
            None => client_state_height,
        };
        let is_tm = match &client_type {
            Some(ct) => ct.name == tm_client_type().name,
            None => false,
        };
        let record = if is_tm {
            ClientRecord {
                client_id: client_id.clone_id(),
                client_state: AnyClientState::Tm(
                    TmClientState { latest_height: client_state_height, frozen_height: None },
                ),
                consensus_states: vec![tm_consensus_entry(cs_height)],
            }
        } else {
            proof {
                if client_type matches Some(ct) {
                    reveal_strlit("9999-mock");
                    reveal_strlit("07-tendermint");
                }
            }
            ClientRecord {
                client_id: client_id.clone_id(),
                client_state: AnyClientState::Mock(
                    MockClientState {
                        header: MockHeader {
                            height: client_state_height,
                            timestamp: Timestamp {
                                nanoseconds: block_timestamp(client_state_height.revision_height),
                            },
                        },
                        frozen_height: None,
                    },
                ),
                consensus_states: vec![mock_consensus_entry(cs_height)],
            }
        };
        self.push_client_record(record)
    }

    /// As `with_client_parametrized`, for a light client tracking the named
    /// counterparty chain. Block contents are deterministic in height here,
    /// so the chain's name adds nothing observable.
    pub fn with_client_parametrized_with_chain_id(
        self,
        _chain_id: ChainId,
        client_id: &ClientId,
        client_state_height: Height,
        client_type: Option<ClientType>,
        consensus_state_height: Option<Height>,
    ) -> (r: MockContext)
        requires
            self.well_formed(),
            !has_client(self.clients@, client_id@),
            client_state_height.well_formed(),
            consensus_state_height matches Some(h) ==> h.well_formed(),
            client_type matches Some(ct) ==> ct@ == "9999-mock"@ || ct@ == "07-tendermint"@,
        ensures
            r.well_formed(),
            r.host_chain_id == self.host_chain_id,
            r.host_type == self.host_type,
            r.history@ == self.history@,
            r.packet_commitments@ == self.packet_commitments@,
            r.events@ == self.events@,
            r.clients@.len() == self.clients@.len() + 1,
            r.clients@.drop_last() == self.clients@,
            ({
                let cs_h = if consensus_state_height is Some {
                    consensus_state_height->Some_0
                } else {
                    client_state_height
                };
                if client_type matches Some(ct) && ct@ == "07-tendermint"@ {
                    is_tm_client_record(r.clients@.last(), client_id@, client_state_height, cs_h)
                } else {
                    is_mock_client_record(r.clients@.last(), client_id@, client_state_height, cs_h)
                }
            }),
    {
        self.with_client_parametrized(
            client_id,
            client_state_height,
            client_type,
            consensus_state_height,
        )
    }

    /// As `with_client_parametrized`, but retaining a two-deep consensus
    /// history: consensus states at the height below `consensus_state_height`
    /// and at `consensus_state_height` itself.
    pub fn with_client_parametrized_history_with_chain_id(
        self,
        _chain_id: ChainId,
        client_id: &ClientId,
        client_state_height: Height,
        client_type: Option<ClientType>,
        consensus_state_height: Option<Height>,
    ) -> (r: MockContext)
        requires
            self.well_formed(),
            !has_client(self.clients@, client_id@),
            client_state_height.well_formed(),
            client_state_height.revision_height >= 2,
            consensus_state_height matches Some(h) ==> h.well_formed()
                && h.revision_height >= 2,
            client_type matches Some(ct) ==> ct@ == "9999-mock"@ || ct@ == "07-tendermint"@,
        ensures
            r.well_formed(),
            r.host_chain_id == self.host_chain_id,
            r.host_type == self.host_type,
            r.history@ == self.history@,
            r.packet_commitments@ == self.packet_commitments@,
            r.events@ == self.events@,
            r.clients@.len() == self.clients@.len() + 1,
            r.clients@.drop_last() == self.clients@,
            ({
                let cs_h = if consensus_state_height is Some {
                    consensus_state_height->Some_0
                } else {
                    client_state_height
                };
                if client_type matches Some(ct) && ct@ == "07-tendermint"@ {
                    is_tm_client_record_with_history(
                        r.clients@.last(),
                        client_id@,
                        client_state_height,
                        cs_h,
                    )
                } else {
                    is_mock_client_record_with_history(
                        r.clients@.last(),
                        client_id@,
                        client_state_height,
                        cs_h,
                    )
                }
            }),
    {
        let cs_height = match consensus_state_height {
            Some(h) => h,
            None => client_state_height,
        };
        let prev_height = Height {
            revision_number: cs_height.revision_number,
            revision_height: cs_height.revision_height - 1,
        };
        let is_tm = match &client_type {
            Some(ct) => ct.name == tm_client_type().name,
            None => false,
        };
        let record = if is_tm {
            ClientRecord {
                client_id: client_id.clone_id(),
                client_state: AnyClientState::Tm(
                    TmClientState { latest_height: client_state_height, frozen_height: None },
                ),
                consensus_states: vec![
                    tm_consensus_entry(prev_height),
                    tm_consensus_entry(cs_height),
                ],
            }
        } else {
            proof {
                if client_type matches Some(ct) {
                    reveal_strlit("9999-mock");
                    reveal_strlit("07-tendermint");
                }
            }
            ClientRecord {
                client_id: client_id.clone_id(),
                client_state: AnyClientState::Mock(
                    MockClientState {
                        header: MockHeader {
                            height: client_state_height,
                            timestamp: Timestamp {
                                nanoseconds: block_timestamp(client_state_height.revision_height),
                            },
                        },
                        frozen_height: None,
                    },
                ),
                consensus_states: vec![
                    mock_consensus_entry(prev_height),
                    mock_consensus_entry(cs_height),
                ],
            }
        };
        self.push_client_record(record)
    }

    /// As `with_client_parametrized_history_with_chain_id`, without naming
    /// the counterparty chain.
    pub fn with_client_parametrized_history(
        self,
        client_id: &ClientId,
        client_state_height: Height,
        client_type: Option<ClientType>,
        consensus_state_height: Option<Height>,
    ) -> (r: MockContext)
        requires
            self.well_formed(),
            !has_client(self.clients@, client_id@),
            client_state_height.well_formed(),
            client_state_height.revision_height >= 2,
            consensus_state_height matches Some(h) ==> h.well_formed()
                && h.revision_height >= 2,
            client_type matches Some(ct) ==> ct@ == "9999-mock"@ || ct@ == "07-tendermint"@,
        ensures
            r.well_formed(),
            r.host_chain_id == self.host_chain_id,
            r.host_type == self.host_type,
            r.history@ == self.history@,
            r.packet_commitments@ == self.packet_commitments@,
            r.events@ == self.events@,
            r.clients@.len() == self.clients@.len() + 1,
            r.clients@.drop_last() == self.clients@,
            ({
                let cs_h = if consensus_state_height is Some {
                    consensus_state_height->Some_0
                } else {
                    client_state_height
                };
                if client_type matches Some(ct) && ct@ == "07-tendermint"@ {
                    is_tm_client_record_with_history(
                        r.clients@.last(),
                        client_id@,
                        client_state_height,
                        cs_h,
                    )
                } else {
                    is_mock_client_record_with_history(
                        r.clients@.last(),
                        client_id@,
                        client_state_height,
                        cs_h,
                    )
                }
            }),
    {
        let host_chain_id = ChainId {
            name: self.host_chain_id.name.clone(),
            revision_number: self.host_chain_id.revision_number,
        };
        self.with_client_parametrized_history_with_chain_id(
            host_chain_id,
            client_id,
            client_state_height,
            client_type,
            consensus_state_height,
        )
    }

    /// Appends a fresh client record, keeping the store's invariant.
    fn push_client_record(self, record: ClientRecord) -> (r: MockContext)
        requires
            self.well_formed(),
            !has_client(self.clients@, record.client_id@),
            cs_unique(record.consensus_states@),
            record_coherent(record),
        ensures
            r.well_formed(),
            r.host_chain_id == self.host_chain_id,
            r.host_type == self.host_type,
            r.history@ == self.history@,
            r.packet_commitments@ == self.packet_commitments@,
            r.events@ == self.events@,
            r.clients@.len() == self.clients@.len() + 1,
            r.clients@.drop_last() == self.clients@,
            r.clients@.last() == record,
    {
        let ghost old_clients = self.clients@;
        let ghost rec = record;
        let mut clients = self.clients;
        clients.push(record);
        proof {
            assert(clients@ =~= old_clients.push(rec));
            assert(clients@.drop_last() =~= old_clients);
            assert forall|a: int, b: int| 0 <= a < b < clients@.len() implies (
            #[trigger] clients@[a]).client_id@ != (#[trigger] clients@[b]).client_id@ by {
                if b < old_clients.len() {
                } else {
                    assert(clients@[b] == rec);
                    assert(!has_client(old_clients, rec.client_id@));
                    assert(clients@[a] == old_clients[a]);
                }
            }
        }
        MockContext {
            host_chain_id: self.host_chain_id,
            host_type: self.host_type,
            history: self.history,
            clients,
            packet_commitments: self.packet_commitments,
            events: self.events,
        }
    }

    /// The block the host chain produced at `target_height`, if it is still
    /// retained.
    pub fn host_block(&self, target_height: &Height) -> (r: Option<&HostBlock>)
        ensures
            r matches Some(b) ==> b.spec_height() == *target_height && (exists|i: int|
                0 <= i < self.history@.len() && self.history@[i] == *b),
            r is None ==> forall|i: int|
                0 <= i < self.history@.len() ==> (#[trigger] self.history@[i]).spec_height()
                    != *target_height,
    {
        let mut i: usize = 0;
        while i < self.history.len()
            invariant
                i <= self.history@.len(),
                forall|j: int|
                    0 <= j < i ==> (#[trigger] self.history@[j]).spec_height() != *target_height,
            decreases self.history@.len() - i,
        {
            if self.history[i].height().eq_height(target_height) {
                return Some(&self.history[i]);
            }
            i += 1;
        }
        None
    }

    /// Reads the client state stored under `client_id`; the client must
    /// already exist.
    pub fn client_state(&self, client_id: &ClientId) -> (r: Result<AnyClientState, ContextError>)
        requires
            self.well_formed(),
        ensures
            r is Ok <==> has_client(self.clients@, client_id@),
            r matches Ok(cs) ==> cs == client_rec(self.clients@, client_id@).client_state,
            r matches Err(e) ==> e matches ContextError::Client(
                ClientError::ClientNotFound { client_id: c },
            ) && c@ == client_id@,
    {
        match find_client_index(&self.clients, client_id) {
            Some(i) => Ok(self.clients[i].client_state),
            None => Err(
                ContextError::Client(
                    ClientError::ClientNotFound { client_id: client_id.clone_id() },
                ),
            ),
        }
    }

    /// Reads the consensus state stored for `client_id` at `height`.
    pub fn consensus_state(&self, client_id: &ClientId, height: &Height) -> (r: Result<
        &AnyConsensusState,
        ContextError,
    >)
        requires
            self.well_formed(),
        ensures
            r is Ok <==> has_client(self.clients@, client_id@) && cs_has(
                client_rec(self.clients@, client_id@).consensus_states@,
                *height,
            ),
            r matches Ok(cs) ==> *cs == cs_get(
                client_rec(self.clients@, client_id@).consensus_states@,
                *height,
            ),
            r matches Err(e) ==> e is Client,
    {
        match find_client_index(&self.clients, client_id) {
            Some(i) => {
                match find_consensus_index(&self.clients[i].consensus_states, height) {
                    Some(k) => Ok(&self.clients[i].consensus_states[k].state),
                    None => Err(
                        ContextError::Client(
                            ClientError::MissingTrustedHeight { trusted_height: *height },
                        ),
                    ),
                }
            },
            None => Err(
                ContextError::Client(
                    ClientError::ClientNotFound { client_id: client_id.clone_id() },
                ),
            ),
        }
    }

    /// The latest client state stored under `client_id`, which must exist.
    pub fn latest_client_states(&self, client_id: &ClientId) -> (r: AnyClientState)
        requires
            self.well_formed(),
            has_client(self.clients@, client_id@),
        ensures
            r == client_rec(self.clients@, client_id@).client_state,
    {
        match find_client_index(&self.clients, client_id) {
            Some(i) => self.clients[i].client_state,
            // Unreachable under the precondition; an arm is still owed.
            None => AnyClientState::Mock(
                MockClientState {
                    header: MockHeader {
                        height: Height { revision_number: 0, revision_height: 1 },
                        timestamp: Timestamp { nanoseconds: 0 },
                    },
                    frozen_height: None,
                },
            ),
        }
    }

    /// The consensus state stored for `client_id` at `height`, which must
    /// exist.
    pub fn latest_consensus_states(&self, client_id: &ClientId, height: &Height) -> (r:
        &AnyConsensusState)
        requires
            self.well_formed(),
            has_client(self.clients@, client_id@),
            cs_has(client_rec(self.clients@, client_id@).consensus_states@, *height),
        ensures
            *r == cs_get(client_rec(self.clients@, client_id@).consensus_states@, *height),
    {
        let i = find_client_index(&self.clients, client_id).unwrap();
        let k = find_consensus_index(&self.clients[i].consensus_states, height).unwrap();
        &self.clients[i].consensus_states[k].state
    }

    /// Appends an event to the context's output list.
    pub fn emit_ibc_event(&mut self, event: IbcEvent)
        ensures
            final(self).events@ == old(self).events@.push(event),
            final(self).clients@ == old(self).clients@,
            final(self).packet_commitments@ == old(self).packet_commitments@,
            final(self).history@ == old(self).history@,
            final(self).host_chain_id == old(self).host_chain_id,
            final(self).host_type == old(self).host_type,
    {
        self.events.push(event);
    }

    /// Reads the packet commitment stored under (port, channel, sequence).
    pub fn packet_commitment(&self, port_id: &PortId, channel_id: &ChannelId, sequence: u64) -> (r:
        Option<&Vec<u8>>)
        requires
            self.well_formed(),
        ensures
            r matches Some(c) ==> pc_has(self.packet_commitments@, port_id@, channel_id@, sequence)
                && c@ == pc_get(self.packet_commitments@, port_id@, channel_id@, sequence),
            r is None ==> !pc_has(self.packet_commitments@, port_id@, channel_id@, sequence),
    {
        match find_packet_commitment_index(&self.packet_commitments, port_id, channel_id, sequence) {
            Some(i) => Some(&self.packet_commitments[i].commitment),
            None => None,
        }
    }

    /// Stores a packet commitment under (port, channel, sequence),
    /// overwriting what the key held. Every other key keeps its commitment.
    pub fn store_packet_commitment(
        &mut self,
        port_id: PortId,
        channel_id: ChannelId,
        sequence: u64,
        commitment: Vec<u8>,
    )
        requires
            old(self).well_formed(),
        ensures
            final(self).well_formed(),
            pc_has(final(self).packet_commitments@, port_id@, channel_id@, sequence),
            pc_get(final(self).packet_commitments@, port_id@, channel_id@, sequence)
                == commitment@,
            forall|k: int|
                0 <= k < old(self).packet_commitments@.len() && !pc_key_matches(
                    #[trigger] old(self).packet_commitments@[k],
                    port_id@,
                    channel_id@,
                    sequence,
                ) ==> final(self).packet_commitments@[k] == old(self).packet_commitments@[k],
            pc_has(old(self).packet_commitments@, port_id@, channel_id@, sequence) ==> final(self).packet_commitments@.len() == old(self).packet_commitments@.len(),
            !pc_has(old(self).packet_commitments@, port_id@, channel_id@, sequence) ==> final(self).packet_commitments@.len() == old(self).packet_commitments@.len() + 1,
            final(self).clients@ == old(self).clients@,
            final(self).events@ == old(self).events@,
            final(self).history@ == old(self).history@,
            final(self).host_chain_id == old(self).host_chain_id,
            final(self).host_type == old(self).host_type,
    {
        let ghost p = port_id@;
        let ghost c = channel_id@;
        let entry = PacketCommitmentEntry { port_id, channel_id, sequence, commitment };
        match find_packet_commitment_index(
            &self.packet_commitments,
            &entry.port_id,
            &entry.channel_id,
            sequence,
        ) {
            Some(i) => {
                self.packet_commitments[i] = entry;
                proof {
                    assert(self.packet_commitments@ =~= old(self).packet_commitments@.update(i as int, self.packet_commitments@[i as int]));
                    lemma_pc_index_pinned(self.packet_commitments@, p, c, sequence, i as int);
                }
            },
            None => {
                let ghost n = self.packet_commitments@.len();
                self.packet_commitments.push(entry);
                proof {
                    assert forall|a: int, b: int|
                        0 <= a < b < self.packet_commitments@.len() implies !((
                    #[trigger] self.packet_commitments@[a]).port_id@ == (
                    #[trigger] self.packet_commitments@[b]).port_id@
                        && self.packet_commitments@[a].channel_id@
                        == self.packet_commitments@[b].channel_id@
                        && self.packet_commitments@[a].sequence
                        == self.packet_commitments@[b].sequence) by {
                        if b < n {
                        } else {
                            assert(!pc_has(old(self).packet_commitments@, p, c, sequence));
                            assert(self.packet_commitments@[a] == old(self).packet_commitments@[a]);
                        }
                    }
                    lemma_pc_index_pinned(self.packet_commitments@, p, c, sequence, n as int);
                }
            },
        }
    }

    /// Deletes the packet commitment under (port, channel, sequence), if one
    /// is stored. Every other key keeps its commitment.
    pub fn delete_packet_commitment(
        &mut self,
        port_id: &PortId,
        channel_id: &ChannelId,
        sequence: u64,
    )
        requires
            old(self).well_formed(),
        ensures
            final(self).well_formed(),
            !pc_has(final(self).packet_commitments@, port_id@, channel_id@, sequence),
            forall|p: Seq<char>, ch: Seq<char>, q: u64|
                #![auto]
                !(p == port_id@ && ch == channel_id@ && q == sequence) ==> (pc_has(
                    final(self).packet_commitments@,
                    p,
                    ch,
                    q,
                ) <==> pc_has(old(self).packet_commitments@, p, ch, q)) && (pc_has(
                    old(self).packet_commitments@,
                    p,
                    ch,
                    q,
                ) ==> pc_get(final(self).packet_commitments@, p, ch, q) == pc_get(
                    old(self).packet_commitments@,
                    p,
                    ch,
                    q,
                )),
            pc_has(old(self).packet_commitments@, port_id@, channel_id@, sequence) ==> final(self).packet_commitments@.len() + 1 == old(self).packet_commitments@.len(),
            !pc_has(old(self).packet_commitments@, port_id@, channel_id@, sequence) ==> final(self).packet_commitments@ == old(self).packet_commitments@,
            final(self).clients@ == old(self).clients@,
            final(self).events@ == old(self).events@,
            final(self).history@ == old(self).history@,
            final(self).host_chain_id == old(self).host_chain_id,
            final(self).host_type == old(self).host_type,
    {
        let ghost p = port_id@;
        let ghost c = channel_id@;
        match find_packet_commitment_index(&self.packet_commitments, port_id, channel_id, sequence) {
            None => {},
            Some(i) => {
                self.packet_commitments.remove(i);
                proof {
                    let olds = old(self).packet_commitments@;
                    let news = self.packet_commitments@;
                    let ix = i as int;
                    assert(news =~= olds.remove(ix));
                    assert forall|a: int, b: int| 0 <= a < b < news.len() implies !((
                    #[trigger] news[a]).port_id@ == (#[trigger] news[b]).port_id@ && news[a].channel_id@
                        == news[b].channel_id@ && news[a].sequence == news[b].sequence) by {
                        let a2 = if a < ix { a } else { a + 1 };
                        let b2 = if b < ix { b } else { b + 1 };
                        assert(news[a] == olds[a2]);
                        assert(news[b] == olds[b2]);
                    }
                    assert forall|j: int| 0 <= j < news.len() implies !pc_key_matches(
                        #[trigger] news[j],
                        p,
                        c,
                        sequence,
                    ) by {
                        let j2 = if j < ix { j } else { j + 1 };
                        assert(news[j] == olds[j2]);
                        if pc_key_matches(olds[j2], p, c, sequence) {
                            assert(pc_key_matches(olds[ix], p, c, sequence));
                        }
                    }
                    assert forall|pp: Seq<char>, ch: Seq<char>, q: u64|
                        !(pp == p && ch == c && q == sequence) && pc_has(
                        olds,
                        pp,
                        ch,
                        q,
                    ) implies pc_has(news, pp, ch, q) && pc_get(news, pp, ch, q) == pc_get(
                        olds,
                        pp,
                        ch,
                        q,
                    ) by {
                        let j = pc_index(olds, pp, ch, q);
                        assert(0 <= j < olds.len() && pc_key_matches(olds[j], pp, ch, q));
                        lemma_pc_index_pinned(olds, pp, ch, q, j);
                        if j < ix {
                            assert(news[j] == olds[j]);
                            lemma_pc_index_pinned(news, pp, ch, q, j);
                        } else {
                            assert(j != ix);
                            assert(news[j - 1] == olds[j]);
                            lemma_pc_index_pinned(news, pp, ch, q, j - 1);
                        }
                    }
                    assert forall|pp: Seq<char>, ch: Seq<char>, q: u64|
                        !(pp == p && ch == c && q == sequence) && pc_has(
                        news,
                        pp,
                        ch,
                        q,
                    ) implies pc_has(olds, pp, ch, q) by {
                        let j = pc_index(news, pp, ch, q);
                        assert(0 <= j < news.len() && pc_key_matches(news[j], pp, ch, q));
                        let j2 = if j < ix { j } else { j + 1 };
                        assert(news[j] == olds[j2]);
                    }
                }
            },
        }
    }

    /// The events emitted so far, in emission order.
    pub fn events(&self) -> (r: &Vec<IbcEvent>)
        ensures
            r == &self.events,
    {
        &self.events
    }
}

} // verus!
