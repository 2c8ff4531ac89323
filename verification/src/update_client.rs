//! The client update / misbehaviour state machine: the validate and execute
//! phases for an update-client message.
//!
//! The two-phase split is a core protocol rule: `validate` is read-only, so a
//! host can dry-run a message for simulation; `execute` independently
//! re-derives its preconditions — state may have changed between the two
//! calls — and only then mutates the store and emits events. Within
//! `execute`, every check runs before any write: a rejected message leaves
//! the context exactly as it was.

use vstd::prelude::*;
use crate::client::{
    check_for_misbehaviour, cs_unique, is_header_message, message_fits_client,
    message_header_height, message_verifiable, spec_misbehaviour_found, spec_verify_error,
    store_updated_with_header, update_state, update_state_on_misbehaviour, verify_client_message,
    ClientMessage,
};
use crate::context::{client_index, client_rec, has_client, MockContext};
use crate::errors::{ClientError, ContextError};
use crate::events::{
    is_misbehaviour_event_pair, is_update_event_pair, ClientMisbehaviour, IbcEvent, IbcEventType,
    UpdateClient,
};
use crate::identifier::ClientId;
use crate::signer::Signer;

verus! {

/// Whether an update-client message carries a header or misbehaviour
/// evidence. Misbehaviour is checked in either case; the kind records what
/// the submitter claims.
#[derive(Clone, Copy, Debug, PartialEq, Eq, Structural)]
pub enum UpdateClientKind {
    UpdateHeader,
    Misbehaviour,
}

/// An update-client message, already decoded from the wire.
#[derive(Clone, Debug, PartialEq, Eq)]
pub struct MsgUpdateClient {
    pub client_id: ClientId,
    pub client_message: ClientMessage,
    pub update_kind: UpdateClientKind,
    pub signer: Signer,
}

/// When `validate` accepts: the client exists, is not frozen, and the
/// message verifies against the client's stored consensus states.
pub open spec fn validate_accepts(ctx: MockContext, msg: MsgUpdateClient) -> bool {
    &&& has_client(ctx.clients@, msg.client_id@)
    &&& !client_rec(ctx.clients@, msg.client_id@).client_state.is_frozen()
    &&& message_verifiable(
        client_rec(ctx.clients@, msg.client_id@).client_state,
        client_rec(ctx.clients@, msg.client_id@).consensus_states@,
        msg.client_message,
    )
}

/// The read-only phase: checks that the client exists, is not frozen, and
/// that the message verifies. No side effects.
pub fn validate(ctx: &MockContext, msg: MsgUpdateClient) -> (r: Result<(), ContextError>)
    requires
        ctx.well_formed(),
    ensures
        r is Ok <==> validate_accepts(*ctx, msg),
        !has_client(ctx.clients@, msg.client_id@) ==> (r matches Err(ContextError::Client(
            ClientError::ClientNotFound { client_id: c },
        )) && c@ == msg.client_id@),
        has_client(ctx.clients@, msg.client_id@) && client_rec(
            ctx.clients@,
            msg.client_id@,
        ).client_state.is_frozen() ==> (r matches Err(ContextError::Client(
            ClientError::ClientFrozen { client_id: c },
        )) && c@ == msg.client_id@),
        has_client(ctx.clients@, msg.client_id@) && !client_rec(
            ctx.clients@,
            msg.client_id@,
        ).client_state.is_frozen() && !message_verifiable(
            client_rec(ctx.clients@, msg.client_id@).client_state,
            client_rec(ctx.clients@, msg.client_id@).consensus_states@,
            msg.client_message,
        ) ==> r == Err::<(), ContextError>(
            ContextError::Client(
                spec_verify_error(
                    client_rec(ctx.clients@, msg.client_id@).client_state,
                    client_rec(ctx.clients@, msg.client_id@).consensus_states@,
                    msg.client_message,
                ),
            ),
        ),
{
    let i = match crate::context::find_client_index(&ctx.clients, &msg.client_id) {
        None => {
            return Err(
                ContextError::Client(
                    ClientError::ClientNotFound { client_id: msg.client_id.clone_id() },
                ),
            );
        },
        Some(i) => i,
    };
    let rec = &ctx.clients[i];
    proof {
        assert(cs_unique(rec.consensus_states@));
    }
    match rec.client_state.confirm_not_frozen(&msg.client_id) {
        Err(e) => {
            return Err(ContextError::Client(e));
        },
        Ok(()) => {},
    }
    match verify_client_message(&rec.client_state, &rec.consensus_states, &msg.client_message) {
        Err(e) => Err(ContextError::Client(e)),
        Ok(()) => Ok(()),
    }
}

/// When `execute` accepts: the client exists and is not frozen — `execute`
/// re-derives every precondition `validate` checked, since state may have
/// changed between the two calls — the message fits the client's algorithm,
/// and, unless the message proves misbehaviour, it carries a header to apply.
pub open spec fn execute_accepts(ctx: MockContext, msg: MsgUpdateClient) -> bool {
    &&& has_client(ctx.clients@, msg.client_id@)
    &&& !client_rec(ctx.clients@, msg.client_id@).client_state.is_frozen()
    &&& message_fits_client(
        client_rec(ctx.clients@, msg.client_id@).client_state,
        msg.client_message,
    )
    &&& (!execute_finds_misbehaviour(ctx, msg) ==> is_header_message(msg.client_message))
}

/// Whether `execute` will find misbehaviour in this message against the
/// currently stored state.
pub open spec fn execute_finds_misbehaviour(ctx: MockContext, msg: MsgUpdateClient) -> bool {
    spec_misbehaviour_found(
        client_rec(ctx.clients@, msg.client_id@).client_state,
        client_rec(ctx.clients@, msg.client_id@).consensus_states@,
        msg.client_message,
    )
}

/// The effectful phase. Re-resolves the client, re-checks that it is not
/// frozen — freezing is terminal, and the client may have been frozen since
/// `validate` ran — checks the message for misbehaviour, and either freezes
/// the client (on a finding) or applies the header; in both cases it appends
/// a `Message` wrapper event followed by the detail event. A rejected message
/// leaves the context unchanged: every check runs before any write.
pub fn execute(ctx: &mut MockContext, msg: MsgUpdateClient) -> (r: Result<(), ContextError>)
    requires
        old(ctx).well_formed(),
    ensures
        final(ctx).well_formed(),
        r is Ok <==> execute_accepts(*old(ctx), msg),
        r is Err ==> old(ctx).same_state(*final(ctx)),
        !has_client(old(ctx).clients@, msg.client_id@) ==> (r matches Err(ContextError::Client(
            ClientError::ClientNotFound { client_id: c },
        )) && c@ == msg.client_id@),
        has_client(old(ctx).clients@, msg.client_id@) && client_rec(
            old(ctx).clients@,
            msg.client_id@,
        ).client_state.is_frozen() ==> (r matches Err(ContextError::Client(
            ClientError::ClientFrozen { client_id: c },
        )) && c@ == msg.client_id@),
        has_client(old(ctx).clients@, msg.client_id@) && !client_rec(
            old(ctx).clients@,
            msg.client_id@,
        ).client_state.is_frozen() && !execute_accepts(*old(ctx), msg) ==> r == Err::<
            (),
            ContextError,
        >(ContextError::Client(ClientError::ClientMessageMismatch)),
        r is Ok ==> ({
            let recs = old(ctx).clients@;
            let i = client_index(recs, msg.client_id@);
            let rec = recs[i];
            let found = execute_finds_misbehaviour(*old(ctx), msg);
            let n = old(ctx).events@.len() as int;
            &&& final(ctx).host_chain_id == old(ctx).host_chain_id
            &&& final(ctx).host_type == old(ctx).host_type
            &&& final(ctx).history@ == old(ctx).history@
            &&& final(ctx).packet_commitments@ == old(ctx).packet_commitments@
            &&& final(ctx).clients@.len() == recs.len()
            &&& (forall|j: int|
                0 <= j < recs.len() && j != i ==> final(ctx).clients@[j] == recs[j])
            &&& final(ctx).clients@[i].client_id == rec.client_id
            &&& final(ctx).events@.len() == n + 2
            &&& (forall|k: int| 0 <= k < n ==> final(ctx).events@[k] == old(ctx).events@[k])
            &&& (found ==> {
                &&& final(ctx).clients@[i].client_state == rec.client_state.after_freeze()
                &&& final(ctx).clients@[i].consensus_states == rec.consensus_states
                &&& is_misbehaviour_event_pair(
                    final(ctx).events@[n],
                    final(ctx).events@[n + 1],
                    msg.client_id@,
                    rec.client_state.client_type_chars(),
                )
            })
            &&& (!found ==> {
                let h = message_header_height(msg.client_message);
                &&& final(ctx).clients@[i].client_state == rec.client_state.after_header(
                    h,
                    msg.client_message,
                )
                &&& store_updated_with_header(
                    rec.consensus_states@,
                    final(ctx).clients@[i].consensus_states@,
                    msg.client_message,
                )
                &&& is_update_event_pair(
                    final(ctx).events@[n],
                    final(ctx).events@[n + 1],
                    msg.client_id@,
                    rec.client_state.client_type_chars(),
                    h,
                    msg.client_message,
                )
            })
        }),
{
    let i = match crate::context::find_client_index(&ctx.clients, &msg.client_id) {
        None => {
            return Err(
                ContextError::Client(
                    ClientError::ClientNotFound { client_id: msg.client_id.clone_id() },
                ),
            );
        },
        Some(i) => i,
    };
    let found = {
        let rec = &ctx.clients[i];
        proof {
            assert(cs_unique(rec.consensus_states@));
        }
        match rec.client_state.confirm_not_frozen(&msg.client_id) {
            Err(e) => {
                return Err(ContextError::Client(e));
            },
            Ok(()) => {},
        }
        match check_for_misbehaviour(&rec.client_state, &rec.consensus_states, &msg.client_message)
        {
            Err(e) => {
                return Err(ContextError::Client(e));
            },
            Ok(b) => b,
        }
    };
    if found {
        let client_type = {
            let rec = &mut ctx.clients[i];
            update_state_on_misbehaviour(&mut rec.client_state);
            rec.client_state.client_type()
        };
        proof {
            lemma_execute_preserves_well_formed(old(ctx).clients@, ctx.clients@, i as int);
        }
        let event = ClientMisbehaviour::new(msg.client_id, client_type);
        ctx.emit_ibc_event(IbcEvent::Message(IbcEventType::ClientMisbehaviour));
        ctx.emit_ibc_event(IbcEvent::ClientMisbehaviour(event));
        Ok(())
    } else {
        let (consensus_height, client_type) = {
            let rec = &mut ctx.clients[i];
            proof {
                assert(cs_unique(rec.consensus_states@));
            }
            let client_type = rec.client_state.client_type();
            match update_state(&mut rec.client_state, &mut rec.consensus_states, &msg.client_message)
            {
                Err(e) => {
                    proof {
                        assert(ctx.clients@ =~= old(ctx).clients@);
                    }
                    return Err(ContextError::Client(e));
                },
                Ok(h) => (h, client_type),
            }
        };
        proof {
            lemma_execute_preserves_well_formed(old(ctx).clients@, ctx.clients@, i as int);
        }
        let mut consensus_heights: Vec<crate::height::Height> = Vec::new();
        consensus_heights.push(consensus_height);
        proof {
            assert(consensus_heights@ =~= seq![consensus_height]);
        }
        let event = UpdateClient {
            client_id: msg.client_id,
            client_type,
            consensus_height,
            consensus_heights,
            header: msg.client_message,
        };
        ctx.emit_ibc_event(IbcEvent::Message(IbcEventType::UpdateClient));
        ctx.emit_ibc_event(IbcEvent::UpdateClient(event));
        Ok(())
    }
}

/// Law: a message that `validate` accepts as a header update is accepted by
/// `execute` too, and — by `execute`'s own contract — leaves the client's
/// latest height at the header's height whenever the header is newer than
/// the previous latest.
pub proof fn lemma_validated_header_executes(ctx: MockContext, msg: MsgUpdateClient)
    requires
        ctx.well_formed(),
        validate_accepts(ctx, msg),
        is_header_message(msg.client_message),
    ensures
        execute_accepts(ctx, msg),
        !execute_finds_misbehaviour(ctx, msg) ==> ({
            let rec = client_rec(ctx.clients@, msg.client_id@);
            let h = message_header_height(msg.client_message);
            rec.client_state.spec_latest_height().spec_lt(h)
                ==> rec.client_state.after_header(h, msg.client_message).spec_latest_height() == h
        }),
{
}

/// Law: submitting a header that is already faithfully applied succeeds as a
/// no-op — no misbehaviour is found, the client state does not move, and the
/// consensus store keeps exactly the entries it had.
pub proof fn lemma_duplicate_header_is_no_op(
    client: crate::client::AnyClientState,
    s: Seq<crate::client::ConsensusEntry>,
    m: ClientMessage,
    new_s: Seq<crate::client::ConsensusEntry>,
)
    requires
        cs_unique(s),
        message_fits_client(client, m),
        is_header_message(m),
        crate::client::header_already_applied(client, s, m),
        store_updated_with_header(s, new_s, m),
    ensures
        !spec_misbehaviour_found(client, s, m),
        client.after_header(message_header_height(m), m) == client,
        crate::client::consensus_equiv(new_s, s),
{
    let h = message_header_height(m);
    let i = crate::client::cs_index(s, h);
    assert(0 <= i < s.len() && s[i].height == h);
    assert(new_s.len() == s.len());
    assert forall|k: int| 0 <= k < new_s.len() implies (#[trigger] new_s[k]).height == (
    #[trigger] s[k]).height && crate::client::state_equiv(new_s[k].state, s[k].state) by {
        if s[k].height == h {
            crate::client::lemma_cs_index_pinned(s, h, k);
            assert(new_s[k].height == h && crate::client::header_consensus_matches(
                m,
                new_s[k].state,
            ) || new_s[k] == s[k]);
        } else {
            assert(new_s[k] == s[k]);
        }
    }
}

/// Law: once a client is frozen, `validate` rejects every message for it,
/// whatever the message's own validity; `validate`'s contract pins the error
/// to `ClientFrozen`.
pub proof fn lemma_frozen_client_rejects_all(ctx: MockContext, msg: MsgUpdateClient)
    requires
        ctx.well_formed(),
        has_client(ctx.clients@, msg.client_id@),
        client_rec(ctx.clients@, msg.client_id@).client_state.is_frozen(),
    ensures
        !validate_accepts(ctx, msg),
{
}

/// Law: two host-chain headers for the same height that disagree in
/// commitment root or timestamp — or headers whose timestamps do not increase
/// with height — are found as misbehaviour against a client not already
/// frozen, and `execute` then freezes the client and emits exactly the
/// `Message(ClientMisbehaviour)` wrapper followed by the detail event, by
/// `execute`'s contract. (An already-frozen client rejects the evidence too:
/// freezing is terminal.)
pub proof fn lemma_conflicting_evidence_freezes(
    ctx: MockContext,
    msg: MsgUpdateClient,
    mb: crate::client::TmMisbehaviour,
)
    requires
        ctx.well_formed(),
        has_client(ctx.clients@, msg.client_id@),
        client_rec(ctx.clients@, msg.client_id@).client_state is Tm,
        !client_rec(ctx.clients@, msg.client_id@).client_state.is_frozen(),
        msg.client_message == ClientMessage::TmMisbehaviour(mb),
        (mb.header1.height == mb.header2.height && (mb.header1.commitment_root@
            != mb.header2.commitment_root@ || mb.header1.timestamp != mb.header2.timestamp)) || (
        mb.header2.height.spec_lt(mb.header1.height) && mb.header1.timestamp.nanoseconds
            <= mb.header2.timestamp.nanoseconds) || (mb.header1.height.spec_lt(mb.header2.height)
            && mb.header2.timestamp.nanoseconds <= mb.header1.timestamp.nanoseconds),
    ensures
        execute_finds_misbehaviour(ctx, msg),
        execute_accepts(ctx, msg),
        client_rec(ctx.clients@, msg.client_id@).client_state.after_freeze().is_frozen(),
{
}

/// Law: a header at a height below every retained consensus state is
/// rejected by `validate` — before any mutation, since `validate` takes the
/// context immutably. When the header's declared trusted height also lies
/// below every retained state, the error is the missing trust anchor.
pub proof fn lemma_header_below_retained_rejected(
    ctx: MockContext,
    msg: MsgUpdateClient,
    h: crate::client::TmHeader,
)
    requires
        ctx.well_formed(),
        has_client(ctx.clients@, msg.client_id@),
        client_rec(ctx.clients@, msg.client_id@).client_state is Tm,
        msg.client_message == ClientMessage::TmHeader(h),
        h.height.well_formed(),
        forall|k: int|
            0 <= k < client_rec(ctx.clients@, msg.client_id@).consensus_states@.len()
                ==> h.height.spec_lt(
                (#[trigger] client_rec(ctx.clients@, msg.client_id@).consensus_states@[k]).height,
            ),
    ensures
        !validate_accepts(ctx, msg),
        (forall|k: int|
            0 <= k < client_rec(ctx.clients@, msg.client_id@).consensus_states@.len()
                ==> h.trusted_height.spec_lt(
                (#[trigger] client_rec(ctx.clients@, msg.client_id@).consensus_states@[k]).height,
            )) && !client_rec(ctx.clients@, msg.client_id@).client_state.is_frozen()
            ==> spec_verify_error(
            client_rec(ctx.clients@, msg.client_id@).client_state,
            client_rec(ctx.clients@, msg.client_id@).consensus_states@,
            msg.client_message,
        ) == (ClientError::MissingTrustedHeight { trusted_height: h.trusted_height }),
{
    let s = client_rec(ctx.clients@, msg.client_id@).consensus_states@;
    assert(!crate::client::cs_has(s, h.height)) by {
        if crate::client::cs_has(s, h.height) {
            let i = crate::client::cs_index(s, h.height);
            assert(0 <= i < s.len() && s[i].height == h.height);
        }
    }
    // If the trust anchor is retained at all, it sits above the header, so
    // height progress fails; if it is not, the anchor is missing. Either way
    // the header does not verify.
    if crate::client::cs_has(s, h.trusted_height) {
        let i = crate::client::cs_index(s, h.trusted_height);
        assert(0 <= i < s.len() && s[i].height == h.trusted_height);
        assert(h.height.spec_lt(h.trusted_height));
        assert(!h.trusted_height.spec_lt(h.height));
    }
    if forall|k: int|
        0 <= k < s.len() ==> h.trusted_height.spec_lt((#[trigger] s[k]).height) {
        assert(!crate::client::cs_has(s, h.trusted_height)) by {
            if crate::client::cs_has(s, h.trusted_height) {
                let i = crate::client::cs_index(s, h.trusted_height);
                assert(0 <= i < s.len() && s[i].height == h.trusted_height);
            }
        }
    }
}

/// Law: the frozen height, once set, is never cleared — neither applying a
/// header nor a further misbehaviour finding unfreezes a client.
pub proof fn lemma_freezing_is_terminal(
    client: crate::client::AnyClientState,
    h: crate::height::Height,
    m: ClientMessage,
)
    requires
        client.is_frozen(),
    ensures
        client.after_header(h, m).is_frozen(),
        client.after_freeze().is_frozen(),
{
}

/// An update that changes one record but neither its identifier, its
/// algorithm, nor the coherence of its consensus store keeps the context's
/// invariant.
proof fn lemma_execute_preserves_well_formed(
    old_recs: Seq<crate::context::ClientRecord>,
    new_recs: Seq<crate::context::ClientRecord>,
    i: int,
)
    requires
        crate::context::clients_unique(old_recs),
        forall|k: int|
            0 <= k < old_recs.len() ==> cs_unique((#[trigger] old_recs[k]).consensus_states@),
        forall|k: int|
            0 <= k < old_recs.len() ==> crate::context::record_coherent(#[trigger] old_recs[k]),
        0 <= i < old_recs.len(),
        new_recs.len() == old_recs.len(),
        forall|k: int| 0 <= k < old_recs.len() && k != i ==> new_recs[k] == old_recs[k],
        new_recs[i].client_id == old_recs[i].client_id,
        cs_unique(new_recs[i].consensus_states@),
        crate::context::record_coherent(new_recs[i]),
    ensures
        crate::context::clients_unique(new_recs),
        forall|k: int|
            0 <= k < new_recs.len() ==> cs_unique((#[trigger] new_recs[k]).consensus_states@),
        forall|k: int|
            0 <= k < new_recs.len() ==> crate::context::record_coherent(#[trigger] new_recs[k]),
{
    assert forall|a: int, b: int| 0 <= a < b < new_recs.len() implies (
    #[trigger] new_recs[a]).client_id@ != (#[trigger] new_recs[b]).client_id@ by {
        assert(new_recs[a].client_id == if a == i {
            old_recs[a].client_id
        } else {
            old_recs[a].client_id
        });
        assert(old_recs[a].client_id@ != old_recs[b].client_id@);
    }
}

} // verus!
