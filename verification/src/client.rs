//! The light-client abstraction: a closed set of client algorithms behind one
//! capability interface (freeze check, message verification, misbehaviour
//! check, state update), dispatched by exhaustive match.
//!
//! Two algorithms are supported: a mock client whose headers are taken at
//! face value, and a host-chain light client that checks a header against the
//! consensus state stored at the header's declared trusted height. The
//! cryptographic internals of a concrete consensus protocol are out of scope;
//! what is modelled is the abstract contract the update state machine relies
//! on: trust-anchor lookup, height and time monotonicity, duplicate no-op
//! acceptance, and conflict detection.

use vstd::prelude::*;
use crate::height::Height;
use crate::timestamp::Timestamp;
use crate::errors::ClientError;

verus! {

/// A client algorithm tag, e.g. `9999-mock` or `07-tendermint`.
#[derive(Clone, Debug, PartialEq, Eq)]
pub struct ClientType {
    pub name: String,
}

impl View for ClientType {
    type V = Seq<char>;

    open spec fn view(&self) -> Seq<char> {
        self.name@
    }
}

/// The tag of the mock client algorithm.
pub fn mock_client_type() -> (r: ClientType)
    ensures
        r@ == "9999-mock"@,
{
    ClientType { name: "9999-mock".to_owned() }
}

/// The tag of the host-chain light client algorithm.
pub fn tm_client_type() -> (r: ClientType)
    ensures
        r@ == "07-tendermint"@,
{
    ClientType { name: "07-tendermint".to_owned() }
}

/// A mock header: nothing but a height and a timestamp.
#[derive(Clone, Copy, Debug, PartialEq, Eq, Structural)]
pub struct MockHeader {
    pub height: Height,
    pub timestamp: Timestamp,
}

impl MockHeader {
    pub fn new(height: Height) -> (r: MockHeader)
        ensures
            r == (MockHeader { height, timestamp: Timestamp { nanoseconds: 0 } }),
    {
        MockHeader { height, timestamp: Timestamp { nanoseconds: 0 } }
    }

    pub fn with_timestamp(self, timestamp: Timestamp) -> (r: MockHeader)
        ensures
            r == (MockHeader { height: self.height, timestamp }),
    {
        MockHeader { height: self.height, timestamp }
    }

    pub fn height(&self) -> (r: Height)
        ensures
            r == self.height,
    {
        self.height
    }
}

/// Mock misbehaviour evidence: two headers claimed for the same height.
#[derive(Clone, Copy, Debug, PartialEq, Eq, Structural)]
pub struct MockMisbehaviour {
    pub header1: MockHeader,
    pub header2: MockHeader,
}

/// A header of the host-chain light client: height, timestamp, the commitment
/// root it attests to, and the height whose stored consensus state the
/// verifier should trust as anchor.
#[derive(Clone, Debug, PartialEq, Eq)]
pub struct TmHeader {
    pub height: Height,
    pub timestamp: Timestamp,
    pub trusted_height: Height,
    pub commitment_root: Vec<u8>,
}

impl TmHeader {
    pub fn height(&self) -> (r: Height)
        ensures
            r == self.height,
    {
        self.height
    }

    pub fn set_trusted_height(&mut self, trusted_height: Height)
        ensures
            final(self).trusted_height == trusted_height,
            final(self).height == old(self).height,
            final(self).timestamp == old(self).timestamp,
            final(self).commitment_root == old(self).commitment_root,
    {
        self.trusted_height = trusted_height;
    }
}

/// Two headers of the host-chain light client offered as evidence of
/// misbehaviour.
#[derive(Clone, Debug, PartialEq, Eq)]
pub struct TmMisbehaviour {
    pub header1: TmHeader,
    pub header2: TmHeader,
}

/// A client message, already decoded from its wire envelope: a header to
/// apply, or misbehaviour evidence, for either client algorithm.
#[derive(Clone, Debug, PartialEq, Eq)]
pub enum ClientMessage {
    MockHeader(MockHeader),
    MockMisbehaviour(MockMisbehaviour),
    TmHeader(TmHeader),
    TmMisbehaviour(TmMisbehaviour),
}

/// The consensus state a mock header attests to.
#[derive(Clone, Copy, Debug, PartialEq, Eq, Structural)]
pub struct MockConsensusState {
    pub header: MockHeader,
}

/// The consensus state a host-chain header attests to: its commitment root
/// and timestamp. Written once per height; never mutated.
#[derive(Clone, Debug, PartialEq, Eq)]
pub struct TmConsensusState {
    pub commitment_root: Vec<u8>,
    pub timestamp: Timestamp,
}

/// A consensus state of either client algorithm.
#[derive(Clone, Debug, PartialEq, Eq)]
pub enum AnyConsensusState {
    Mock(MockConsensusState),
    Tm(TmConsensusState),
}

/// The mock client's state: the latest accepted header, and the frozen
/// height, set once and never cleared.
#[derive(Clone, Copy, Debug, PartialEq, Eq, Structural)]
pub struct MockClientState {
    pub header: MockHeader,
    pub frozen_height: Option<Height>,
}

impl MockClientState {
    pub fn new(header: MockHeader) -> (r: MockClientState)
        ensures
            r == (MockClientState { header, frozen_height: None::<Height> }),
    {
        MockClientState { header, frozen_height: None }
    }
}

/// The host-chain light client's state: the latest verified height and the
/// frozen height, set once and never cleared.
#[derive(Clone, Copy, Debug, PartialEq, Eq, Structural)]
pub struct TmClientState {
    pub latest_height: Height,
    pub frozen_height: Option<Height>,
}

/// A client state of either algorithm. Dispatch is a closed, exhaustive
/// match: the set of supported algorithms is known at build time.
#[derive(Clone, Copy, Debug, PartialEq, Eq, Structural)]
pub enum AnyClientState {
    Mock(MockClientState),
    Tm(TmClientState),
}

/// One stored consensus state, keyed by its height.
#[derive(Clone, Debug, PartialEq, Eq)]
pub struct ConsensusEntry {
    pub height: Height,
    pub state: AnyConsensusState,
}

/// The heights of a consensus store are pairwise distinct: at most one
/// consensus state is recorded per height.
pub open spec fn cs_unique(s: Seq<ConsensusEntry>) -> bool {
    forall|i: int, j: int|
        0 <= i < j < s.len() ==> (#[trigger] s[i]).height != (#[trigger] s[j]).height
}

/// A consensus state is stored at this height.
pub open spec fn cs_has(s: Seq<ConsensusEntry>, h: Height) -> bool {
    exists|i: int| 0 <= i < s.len() && (#[trigger] s[i]).height == h
}

/// The index of the entry at this height (meaningful under `cs_unique` and
/// `cs_has`).
pub open spec fn cs_index(s: Seq<ConsensusEntry>, h: Height) -> int {
    choose|i: int| 0 <= i < s.len() && (#[trigger] s[i]).height == h
}

/// The consensus state stored at this height.
pub open spec fn cs_get(s: Seq<ConsensusEntry>, h: Height) -> AnyConsensusState {
    s[cs_index(s, h)].state
}

/// Under uniqueness, an entry with the sought height pins the lookup index.
pub proof fn lemma_cs_index_pinned(s: Seq<ConsensusEntry>, h: Height, i: int)
    requires
        cs_unique(s),
        0 <= i < s.len(),
        s[i].height == h,
    ensures
        cs_has(s, h),
        cs_index(s, h) == i,
        cs_get(s, h) == s[i].state,
{
    assert(cs_has(s, h));
    let j = cs_index(s, h);
    assert(0 <= j < s.len() && s[j].height == h);
    if i < j {
        assert(s[i].height != s[j].height);
    } else if j < i {
        assert(s[j].height != s[i].height);
    }
}

/// Finds the index of the consensus state stored at `height`, if any.
pub fn find_consensus_index(list: &Vec<ConsensusEntry>, height: &Height) -> (r: Option<usize>)
    requires
        cs_unique(list@),
    ensures
        r matches Some(i) ==> i < list@.len() && list@[i as int].height == *height
            && cs_has(list@, *height) && cs_index(list@, *height) == i as int,
        r is None ==> !cs_has(list@, *height),
{
    let mut i: usize = 0;
    while i < list.len()
        invariant
            cs_unique(list@),
            i <= list@.len(),
            forall|j: int| 0 <= j < i ==> (#[trigger] list@[j]).height != *height,
        decreases list@.len() - i,
    {
        if list[i].height.eq_height(height) {
            proof {
                lemma_cs_index_pinned(list@, *height, i as int);
            }
            return Some(i);
        }
        i += 1;
    }
    None
}

/// Stores a consensus state: overwrites the entry at its height if one
/// exists, appends otherwise. All other entries keep their place and value.
pub fn store_consensus_entry(list: &mut Vec<ConsensusEntry>, entry: ConsensusEntry) -> (stored_at:
    usize)
    requires
        cs_unique(old(list)@),
    ensures
        cs_unique(final(list)@),
        cs_has(final(list)@, entry.height),
        cs_index(final(list)@, entry.height) == stored_at as int,
        cs_get(final(list)@, entry.height) == entry.state,
        final(list)@[stored_at as int] == entry,
        forall|k: int|
            0 <= k < old(list)@.len() && (#[trigger] old(list)@[k]).height != entry.height
                ==> final(list)@[k] == old(list)@[k],
        forall|k: int|
            0 <= k < final(list)@.len() ==> #[trigger] final(list)@[k] == entry || (k < old(
                list,
            )@.len() && final(list)@[k] == old(list)@[k]),
        cs_has(old(list)@, entry.height) ==> final(list)@.len() == old(list)@.len(),
        !cs_has(old(list)@, entry.height) ==> final(list)@.len() == old(list)@.len() + 1,
{
    let ghost h = entry.height;
    match find_consensus_index(list, &entry.height) {
        Some(i) => {
            list[i] = entry;
            proof {
                assert(final(list)@ =~= old(list)@.update(i as int, entry));
                assert(cs_unique(list@));
                lemma_cs_index_pinned(list@, h, i as int);
            }
            i
        },
        None => {
            let i = list.len();
            list.push(entry);
            proof {
                assert(list@ =~= old(list)@.push(entry));
                assert forall|a: int, b: int| 0 <= a < b < list@.len() implies (#[trigger] list@[a]).height
                    != (#[trigger] list@[b]).height by {
                    if b < old(list)@.len() {
                    } else {
                        assert(list@[b] == entry);
                        assert(!cs_has(old(list)@, h));
                        assert(list@[a] == old(list)@[a]);
                    }
                }
                lemma_cs_index_pinned(list@, h, i as int);
            }
            i
        },
    }
}

/// Byte-for-byte equality of two commitment roots.
pub fn bytes_eq(a: &Vec<u8>, b: &Vec<u8>) -> (r: bool)
    ensures
        r == (a@ == b@),
{
    let r = a == b;
    proof {
        if r {
            assert(a@ =~= b@);
        } else {
            if a@ == b@ {
                assert(a@.len() == b@.len());
                assert(forall|i: int| 0 <= i < a@.len() ==> a@[i] == b@[i]);
                assert(false);
            }
        }
    }
    r
}

/// A stored consensus state agrees with what this header attests to.
pub open spec fn tm_cs_matches_header(c: TmConsensusState, h: TmHeader) -> bool {
    c.commitment_root@ == h.commitment_root@ && c.timestamp == h.timestamp
}

/// A consensus state is already stored at the header's own height and agrees
/// with it: the duplicate / already-applied case.
pub open spec fn stored_matches_tm_header(s: Seq<ConsensusEntry>, h: TmHeader) -> bool {
    cs_has(s, h.height) && match cs_get(s, h.height) {
        AnyConsensusState::Tm(c) => tm_cs_matches_header(c, h),
        AnyConsensusState::Mock(_) => false,
    }
}

/// The host-chain light client accepts a header when it is a faithful
/// duplicate of an already-stored height, or when its trust anchor exists and
/// both height and time progress strictly past it.
pub open spec fn tm_header_verifiable(s: Seq<ConsensusEntry>, h: TmHeader) -> bool {
    stored_matches_tm_header(s, h) || (cs_has(s, h.trusted_height) && match cs_get(
        s,
        h.trusted_height,
    ) {
        AnyConsensusState::Tm(anchor) => h.trusted_height.spec_lt(h.height)
            && h.timestamp.nanoseconds > anchor.timestamp.nanoseconds,
        AnyConsensusState::Mock(_) => false,
    })
}

/// Two headers prove misbehaviour when they claim the same height with
/// different contents, or when time runs backwards as height increases.
pub open spec fn tm_headers_conflict(h1: TmHeader, h2: TmHeader) -> bool {
    if h1.height == h2.height {
        h1.commitment_root@ != h2.commitment_root@ || h1.timestamp != h2.timestamp
    } else if h2.height.spec_lt(h1.height) {
        h1.timestamp.nanoseconds <= h2.timestamp.nanoseconds
    } else {
        h2.timestamp.nanoseconds <= h1.timestamp.nanoseconds
    }
}

/// The message's algorithm fits the client's.
pub open spec fn message_fits_client(client: AnyClientState, m: ClientMessage) -> bool {
    match client {
        AnyClientState::Mock(_) => m is MockHeader || m is MockMisbehaviour,
        AnyClientState::Tm(_) => m is TmHeader || m is TmMisbehaviour,
    }
}

/// What it means for a client to accept a message as verified, per algorithm.
pub open spec fn message_verifiable(
    client: AnyClientState,
    s: Seq<ConsensusEntry>,
    m: ClientMessage,
) -> bool {
    match client {
        AnyClientState::Mock(_) => match m {
            ClientMessage::MockHeader(h) => h.height.well_formed(),
            ClientMessage::MockMisbehaviour(mb) => mb.header1.height == mb.header2.height
                && mb.header1.height.well_formed(),
            _ => false,
        },
        AnyClientState::Tm(_) => match m {
            ClientMessage::TmHeader(h) => h.height.well_formed() && tm_header_verifiable(s, h),
            ClientMessage::TmMisbehaviour(mb) => mb.header1.height.well_formed()
                && mb.header2.height.well_formed() && tm_header_verifiable(s, mb.header1)
                && tm_header_verifiable(s, mb.header2),
            _ => false,
        },
    }
}

/// The error a failed single-header verification reports, in the order the
/// checks run: well-formedness, then the trust anchor's existence and kind,
/// then height progress, then time progress.
pub open spec fn spec_tm_header_error(s: Seq<ConsensusEntry>, h: TmHeader) -> ClientError {
    if !h.height.well_formed() {
        ClientError::MalformedClientMessage
    } else if !cs_has(s, h.trusted_height) {
        ClientError::MissingTrustedHeight { trusted_height: h.trusted_height }
    } else {
        match cs_get(s, h.trusted_height) {
            AnyConsensusState::Mock(_) => ClientError::InternalInvariantViolation,
            AnyConsensusState::Tm(anchor) => if !h.trusted_height.spec_lt(h.height) {
                ClientError::InsufficientHeight {
                    trusted_height: h.trusted_height,
                    header_height: h.height,
                }
            } else {
                ClientError::NonMonotonicTime
            },
        }
    }
}

/// The error a failed verification reports.
pub open spec fn spec_verify_error(
    client: AnyClientState,
    s: Seq<ConsensusEntry>,
    m: ClientMessage,
) -> ClientError {
    if !message_fits_client(client, m) {
        ClientError::ClientMessageMismatch
    } else {
        match m {
            ClientMessage::MockHeader(_) => ClientError::MalformedClientMessage,
            ClientMessage::MockMisbehaviour(_) => ClientError::MalformedClientMessage,
            ClientMessage::TmHeader(h) => spec_tm_header_error(s, h),
            ClientMessage::TmMisbehaviour(mb) => if !(mb.header1.height.well_formed()
                && tm_header_verifiable(s, mb.header1)) {
                spec_tm_header_error(s, mb.header1)
            } else {
                spec_tm_header_error(s, mb.header2)
            },
        }
    }
}

/// Whether the evidence in a message — or, for a header, a conflicting
/// previously stored consensus state at the header's own height — proves
/// misbehaviour. Independent of the declared update kind.
pub open spec fn spec_misbehaviour_found(
    client: AnyClientState,
    s: Seq<ConsensusEntry>,
    m: ClientMessage,
) -> bool {
    match client {
        AnyClientState::Mock(_) => m is MockMisbehaviour,
        AnyClientState::Tm(_) => match m {
            ClientMessage::TmHeader(h) => cs_has(s, h.height) && !stored_matches_tm_header(s, h),
            ClientMessage::TmMisbehaviour(mb) => tm_headers_conflict(mb.header1, mb.header2),
            _ => false,
        },
    }
}

/// The message carries a header (not misbehaviour evidence).
pub open spec fn is_header_message(m: ClientMessage) -> bool {
    m is MockHeader || m is TmHeader
}

/// The height the message's header is for.
pub open spec fn message_header_height(m: ClientMessage) -> Height {
    match m {
        ClientMessage::MockHeader(h) => h.height,
        ClientMessage::TmHeader(h) => h.height,
        _ => arbitrary(),
    }
}

/// The stored consensus state agrees with what the message's header attests.
pub open spec fn header_consensus_matches(m: ClientMessage, c: AnyConsensusState) -> bool {
    match m {
        ClientMessage::MockHeader(h) => c == AnyConsensusState::Mock(
            MockConsensusState { header: h },
        ),
        ClientMessage::TmHeader(h) => match c {
            AnyConsensusState::Tm(cs) => tm_cs_matches_header(cs, h),
            AnyConsensusState::Mock(_) => false,
        },
        _ => false,
    }
}

/// The consensus store after applying a header: the consensus state the
/// header attests to stands at the header's height, written once (or
/// overwritten in place on replay), and every other entry keeps its place
/// and value.
pub open spec fn store_updated_with_header(
    old_s: Seq<ConsensusEntry>,
    new_s: Seq<ConsensusEntry>,
    m: ClientMessage,
) -> bool {
    let h = message_header_height(m);
    &&& cs_unique(new_s)
    &&& cs_has(new_s, h)
    &&& header_consensus_matches(m, cs_get(new_s, h))
    &&& forall|k: int|
        0 <= k < old_s.len() && (#[trigger] old_s[k]).height != h ==> new_s[k] == old_s[k]
    &&& forall|k: int|
        0 <= k < new_s.len() ==> ((#[trigger] new_s[k]).height == h && header_consensus_matches(
            m,
            new_s[k].state,
        )) || (k < old_s.len() && new_s[k] == old_s[k])
    &&& (cs_has(old_s, h) ==> new_s.len() == old_s.len())
    &&& (!cs_has(old_s, h) ==> new_s.len() == old_s.len() + 1)
}

/// Two consensus states carry the same observable content.
pub open spec fn state_equiv(a: AnyConsensusState, b: AnyConsensusState) -> bool {
    match (a, b) {
        (AnyConsensusState::Mock(x), AnyConsensusState::Mock(y)) => x == y,
        (AnyConsensusState::Tm(x), AnyConsensusState::Tm(y)) => x.commitment_root@
            == y.commitment_root@ && x.timestamp == y.timestamp,
        _ => false,
    }
}

/// Two consensus stores hold the same entries, height for height, with the
/// same observable content.
pub open spec fn consensus_equiv(a: Seq<ConsensusEntry>, b: Seq<ConsensusEntry>) -> bool {
    &&& a.len() == b.len()
    &&& forall|k: int|
        0 <= k < a.len() ==> (#[trigger] a[k]).height == (#[trigger] b[k]).height && state_equiv(
            a[k].state,
            b[k].state,
        )
}

/// The header is already faithfully applied: the consensus state it attests
/// to is stored at its height, and the client's latest height is not behind
/// it.
pub open spec fn header_already_applied(
    client: AnyClientState,
    s: Seq<ConsensusEntry>,
    m: ClientMessage,
) -> bool {
    let h = message_header_height(m);
    &&& cs_has(s, h)
    &&& header_consensus_matches(m, cs_get(s, h))
    &&& h.spec_le(client.spec_latest_height())
}

/// Verifies a single host-chain header against the consensus store.
fn verify_tm_header(consensus: &Vec<ConsensusEntry>, h: &TmHeader) -> (r: Result<(), ClientError>)
    requires
        cs_unique(consensus@),
    ensures
        r is Ok <==> h.height.well_formed() && tm_header_verifiable(consensus@, *h),
        r matches Err(e) ==> e == spec_tm_header_error(consensus@, *h),
{
    if h.height.revision_height() == 0 {
        return Err(ClientError::MalformedClientMessage);
    }
    // Duplicate of an already-recorded height with the same contents:
    // accepted as a faithful replay, with no further checks.
    match find_consensus_index(consensus, &h.height) {
        Some(i) => {
            match &consensus[i].state {
                AnyConsensusState::Tm(c) => {
                    if bytes_eq(&c.commitment_root, &h.commitment_root)
                        && c.timestamp.nanoseconds() == h.timestamp.nanoseconds {
                        return Ok(());
                    }
                },
                AnyConsensusState::Mock(_) => {},
            }
        },
        None => {},
    }
    // Full verification against the trust anchor.
    match find_consensus_index(consensus, &h.trusted_height) {
        None => Err(ClientError::MissingTrustedHeight { trusted_height: h.trusted_height }),
        Some(i) => {
            match &consensus[i].state {
                AnyConsensusState::Mock(_) => Err(ClientError::InternalInvariantViolation),
                AnyConsensusState::Tm(anchor) => {
                    if !h.trusted_height.lt(&h.height) {
                        Err(ClientError::InsufficientHeight {
                            trusted_height: h.trusted_height,
                            header_height: h.height,
                        })
                    } else if !(h.timestamp.nanoseconds > anchor.timestamp.nanoseconds) {
                        Err(ClientError::NonMonotonicTime)
                    } else {
                        Ok(())
                    }
                },
            }
        },
    }
}

/// Verifies a client message: per algorithm, either the header is well-formed
/// and progresses from a trusted consensus state, or the misbehaviour
/// evidence is internally consistent. Read-only.
pub fn verify_client_message(
    client: &AnyClientState,
    consensus: &Vec<ConsensusEntry>,
    m: &ClientMessage,
) -> (r: Result<(), ClientError>)
    requires
        cs_unique(consensus@),
    ensures
        r is Ok <==> message_verifiable(*client, consensus@, *m),
        r matches Err(e) ==> e == spec_verify_error(*client, consensus@, *m),
{
    match client {
        AnyClientState::Mock(_) => match m {
            ClientMessage::MockHeader(h) => {
                if h.height.revision_height() == 0 {
                    Err(ClientError::MalformedClientMessage)
                } else {
                    Ok(())
                }
            },
            ClientMessage::MockMisbehaviour(mb) => {
                if mb.header1.height.eq_height(&mb.header2.height)
                    && mb.header1.height.revision_height() > 0 {
                    Ok(())
                } else {
                    Err(ClientError::MalformedClientMessage)
                }
            },
            _ => Err(ClientError::ClientMessageMismatch),
        },
        AnyClientState::Tm(_) => match m {
            ClientMessage::TmHeader(h) => verify_tm_header(consensus, h),
            ClientMessage::TmMisbehaviour(mb) => {
                match verify_tm_header(consensus, &mb.header1) {
                    Ok(()) => verify_tm_header(consensus, &mb.header2),
                    Err(e) => Err(e),
                }
            },
            _ => Err(ClientError::ClientMessageMismatch),
        },
    }
}

/// Checks the message for proof of misbehaviour: conflicting evidence, or —
/// for a header — a conflicting consensus state already stored at the
/// header's own height.
pub fn check_for_misbehaviour(
    client: &AnyClientState,
    consensus: &Vec<ConsensusEntry>,
    m: &ClientMessage,
) -> (r: Result<bool, ClientError>)
    requires
        cs_unique(consensus@),
    ensures
        r is Ok <==> message_fits_client(*client, *m),
        r matches Ok(b) ==> b == spec_misbehaviour_found(*client, consensus@, *m),
        r is Err ==> r == Err::<bool, ClientError>(ClientError::ClientMessageMismatch),
{
    match client {
        AnyClientState::Mock(_) => match m {
            ClientMessage::MockHeader(_) => Ok(false),
            ClientMessage::MockMisbehaviour(_) => Ok(true),
            _ => Err(ClientError::ClientMessageMismatch),
        },
        AnyClientState::Tm(_) => match m {
            ClientMessage::TmHeader(h) => {
                match find_consensus_index(consensus, &h.height) {
                    None => Ok(false),
                    Some(i) => {
                        match &consensus[i].state {
                            AnyConsensusState::Tm(c) => Ok(
                                !(bytes_eq(&c.commitment_root, &h.commitment_root)
                                    && c.timestamp.nanoseconds() == h.timestamp.nanoseconds),
                            ),
                            AnyConsensusState::Mock(_) => Ok(true),
                        }
                    },
                }
            },
            ClientMessage::TmMisbehaviour(mb) => {
                if mb.header1.height.eq_height(&mb.header2.height) {
                    Ok(
                        !(bytes_eq(&mb.header1.commitment_root, &mb.header2.commitment_root)
                            && mb.header1.timestamp.nanoseconds
                                == mb.header2.timestamp.nanoseconds),
                    )
                } else if mb.header2.height.lt(&mb.header1.height) {
                    Ok(mb.header1.timestamp.nanoseconds <= mb.header2.timestamp.nanoseconds)
                } else {
                    Ok(mb.header2.timestamp.nanoseconds <= mb.header1.timestamp.nanoseconds)
                }
            },
            _ => Err(ClientError::ClientMessageMismatch),
        },
    }
}

/// Applies a verified header: writes the consensus state it attests to at the
/// header's height and advances the client's latest height if the header is
/// newer. Returns the header's height.
pub fn update_state(
    client: &mut AnyClientState,
    consensus: &mut Vec<ConsensusEntry>,
    m: &ClientMessage,
) -> (r: Result<Height, ClientError>)
    requires
        cs_unique(old(consensus)@),
    ensures
        r is Ok <==> is_header_message(*m) && message_fits_client(*old(client), *m),
        r matches Ok(h) ==> h == message_header_height(*m)
            && *final(client) == old(client).after_header(h, *m)
            && store_updated_with_header(old(consensus)@, final(consensus)@, *m),
        r is Err ==> *final(client) == *old(client) && *final(consensus) == *old(consensus)
            && r == Err::<Height, ClientError>(ClientError::ClientMessageMismatch),
{
    match (&*client, m) {
        (AnyClientState::Mock(c), ClientMessage::MockHeader(h)) => {
            let height = h.height;
            let new_header = if c.header.height.lt(&height) {
                *h
            } else {
                c.header
            };
            let frozen_height = c.frozen_height;
            *client = AnyClientState::Mock(MockClientState { header: new_header, frozen_height });
            store_consensus_entry(
                consensus,
                ConsensusEntry {
                    height,
                    state: AnyConsensusState::Mock(MockConsensusState { header: *h }),
                },
            );
            Ok(height)
        },
        (AnyClientState::Tm(c), ClientMessage::TmHeader(h)) => {
            let height = h.height;
            let latest_height = if c.latest_height.lt(&height) {
                height
            } else {
                c.latest_height
            };
            let frozen_height = c.frozen_height;
            *client = AnyClientState::Tm(TmClientState { latest_height, frozen_height });
            let root = h.commitment_root.clone();
            proof {
                assert(root@ =~= h.commitment_root@);
            }
            store_consensus_entry(
                consensus,
                ConsensusEntry {
                    height,
                    state: AnyConsensusState::Tm(
                        TmConsensusState { commitment_root: root, timestamp: h.timestamp },
                    ),
                },
            );
            Ok(height)
        },
        _ => Err(ClientError::ClientMessageMismatch),
    }
}

/// Records misbehaviour: freezes the client at its latest height. Freezing is
/// terminal; no later update clears it.
pub fn update_state_on_misbehaviour(client: &mut AnyClientState)
    ensures
        *final(client) == old(client).after_freeze(),
        final(client).is_frozen(),
{
    match &*client {
        AnyClientState::Mock(c) => {
            let header = c.header;
            *client = AnyClientState::Mock(
                MockClientState { header, frozen_height: Some(header.height) },
            );
        },
        AnyClientState::Tm(c) => {
            let latest_height = c.latest_height;
            *client = AnyClientState::Tm(
                TmClientState { latest_height, frozen_height: Some(latest_height) },
            );
        },
    }
}

impl AnyClientState {
    /// The client's algorithm tag, as characters.
    pub open spec fn client_type_chars(self) -> Seq<char> {
        match self {
            AnyClientState::Mock(_) => "9999-mock"@,
            AnyClientState::Tm(_) => "07-tendermint"@,
        }
    }

    /// The frozen height, if the client has been frozen.
    pub open spec fn spec_frozen_height(self) -> Option<Height> {
        match self {
            AnyClientState::Mock(c) => c.frozen_height,
            AnyClientState::Tm(c) => c.frozen_height,
        }
    }

    /// Frozen means terminal: no update message is accepted any more.
    pub open spec fn is_frozen(self) -> bool {
        self.spec_frozen_height() is Some
    }

    /// The latest verified height.
    pub open spec fn spec_latest_height(self) -> Height {
        match self {
            AnyClientState::Mock(c) => c.header.height,
            AnyClientState::Tm(c) => c.latest_height,
        }
    }

    /// This client after applying a verified header.
    pub open spec fn after_header(self, header_height: Height, m: ClientMessage) -> AnyClientState {
        match self {
            AnyClientState::Mock(c) => if c.header.height.spec_lt(header_height) {
                match m {
                    ClientMessage::MockHeader(h) => AnyClientState::Mock(MockClientState {
                        header: h,
                        frozen_height: c.frozen_height,
                    }),
                    _ => self,
                }
            } else {
                self
            },
            AnyClientState::Tm(c) => if c.latest_height.spec_lt(header_height) {
                AnyClientState::Tm(TmClientState {
                    latest_height: header_height,
                    frozen_height: c.frozen_height,
                })
            } else {
                self
            },
        }
    }

    /// This client after a misbehaviour finding: frozen at its latest height.
    pub open spec fn after_freeze(self) -> AnyClientState {
        match self {
            AnyClientState::Mock(c) => AnyClientState::Mock(MockClientState {
                header: c.header,
                frozen_height: Some(c.header.height),
            }),
            AnyClientState::Tm(c) => AnyClientState::Tm(TmClientState {
                latest_height: c.latest_height,
                frozen_height: Some(c.latest_height),
            }),
        }
    }

    /// The client's algorithm tag.
    pub fn client_type(&self) -> (r: ClientType)
        ensures
            r@ == self.client_type_chars(),
    {
        match self {
            AnyClientState::Mock(_) => mock_client_type(),
            AnyClientState::Tm(_) => tm_client_type(),
        }
    }

    pub fn latest_height(&self) -> (r: Height)
        ensures
            r == self.spec_latest_height(),
    {
        match self {
            AnyClientState::Mock(c) => c.header.height,
            AnyClientState::Tm(c) => c.latest_height,
        }
    }

    /// Rejects a frozen client: freezing is terminal by design, to stop a
    /// compromised or equivocating client from being used further.
    pub fn confirm_not_frozen(&self, client_id: &crate::identifier::ClientId) -> (r: Result<
        (),
        ClientError,
    >)
        ensures
            r is Ok <==> !self.is_frozen(),
            r matches Err(e) ==> e matches ClientError::ClientFrozen { client_id: c }
                && c@ == client_id@,
    {
        let frozen = match self {
            AnyClientState::Mock(c) => c.frozen_height.is_some(),
            AnyClientState::Tm(c) => c.frozen_height.is_some(),
        };
        if frozen {
            Err(ClientError::ClientFrozen { client_id: client_id.clone_id() })
        } else {
            Ok(())
        }
    }
}

} // verus!
