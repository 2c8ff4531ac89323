//! The token-transfer application's packet types and its timeout path.
//!
//! A timed-out packet is purely a refund trigger: the non-membership proof —
//! that the receiving chain never wrote a receipt past the timeout — is
//! verified upstream, and what remains is to reverse the send's side effect
//! by handing the escrowed tokens back to the sender. The bank the refund
//! acts on is reached through the `TransferContext` capability, whose
//! contracts say exactly how balances and escrows move.

use vstd::prelude::*;
use crate::height::Height;
use crate::identifier::{ChannelId, PortId};
use crate::signer::Signer;
use crate::timestamp::Timestamp;

verus! {

/// An amount of one denomination.
#[derive(Clone, Debug, PartialEq, Eq)]
pub struct Coin {
    pub denom: String,
    pub amount: u64,
}

/// The decoded payload of a transfer packet.
#[derive(Clone, Debug, PartialEq, Eq)]
pub struct PacketData {
    pub token: Coin,
    pub sender: Signer,
    pub receiver: Signer,
}

/// A packet in flight: its sequence, route, payload bytes and timeout. Only
/// its commitment persists in host storage.
#[derive(Clone, Debug, PartialEq, Eq)]
pub struct Packet {
    pub sequence: u64,
    pub source_port: PortId,
    pub source_channel: ChannelId,
    pub destination_port: PortId,
    pub destination_channel: ChannelId,
    pub data: Vec<u8>,
    pub timeout_height: Option<Height>,
    pub timeout_timestamp: Timestamp,
}

/// Errors of the token-transfer application.
#[derive(Clone, Copy, Debug, PartialEq, Eq, Structural)]
pub enum TokenTransferError {
    /// The channel's escrow does not cover the refund.
    InsufficientEscrow,
    /// The credited balance would not fit the balance type.
    BalanceOverflow,
}

/// The bank capability the transfer application requires of its host: read
/// and move funds between a channel's escrow and user balances. Hosts
/// implement it over their own ledger.
pub trait TransferContext {
    /// The balance `account` holds of `denom`.
    spec fn spec_balance(&self, account: Seq<char>, denom: Seq<char>) -> int;

    /// The amount of `denom` escrowed for the channel (`port`, `channel`).
    spec fn spec_escrowed(&self, port: Seq<char>, channel: Seq<char>, denom: Seq<char>) -> int;

    /// Moves `coin.amount` of `coin.denom` from the channel's escrow to
    /// `to`'s balance; on failure nothing moves. Succeeds whenever the escrow
    /// covers the amount and the credited balance still fits.
    fn unescrow_tokens(&mut self, port: &PortId, channel: &ChannelId, to: &Signer, coin: &Coin)
        -> (r: Result<(), TokenTransferError>)
        ensures
            r is Ok <==> old(self).spec_escrowed(port@, channel@, coin.denom@) >= coin.amount
                && old(self).spec_balance(to.account@, coin.denom@) + coin.amount <= u64::MAX,
            r is Ok ==> final(self).spec_balance(to.account@, coin.denom@) == old(self).spec_balance(to.account@, coin.denom@) + coin.amount && final(self).spec_escrowed(
                port@,
                channel@,
                coin.denom@,
            ) == old(self).spec_escrowed(port@, channel@, coin.denom@) - coin.amount,
            r is Err ==> r == Err::<(), TokenTransferError>(
                if old(self).spec_escrowed(port@, channel@, coin.denom@) < coin.amount {
                    TokenTransferError::InsufficientEscrow
                } else {
                    TokenTransferError::BalanceOverflow
                },
            ),
            r is Err ==> final(self).spec_balance(to.account@, coin.denom@) == old(self).spec_balance(to.account@, coin.denom@) && final(self).spec_escrowed(
                port@,
                channel@,
                coin.denom@,
            ) == old(self).spec_escrowed(port@, channel@, coin.denom@),
            forall|a: Seq<char>, d: Seq<char>|
                !(a == to.account@ && d == coin.denom@) ==> final(self).spec_balance(a, d) == old(self).spec_balance(a, d),
            forall|p: Seq<char>, c: Seq<char>, d: Seq<char>|
                !(p == port@ && c == channel@ && d == coin.denom@) ==> final(self).spec_escrowed(
                    p,
                    c,
                    d,
                ) == old(self).spec_escrowed(p, c, d),
    ;
}

/// Reverses a send: returns the packet's escrowed tokens from the source
/// channel's escrow to the sender.
pub fn refund_packet_token<Ctx: TransferContext>(
    ctx: &mut Ctx,
    packet: &Packet,
    data: &PacketData,
) -> (r: Result<(), TokenTransferError>)
    ensures
        r is Ok <==> old(ctx).spec_escrowed(
            packet.source_port@,
            packet.source_channel@,
            data.token.denom@,
        ) >= data.token.amount && old(ctx).spec_balance(data.sender.account@, data.token.denom@)
            + data.token.amount <= u64::MAX,
        r is Ok ==> final(ctx).spec_balance(data.sender.account@, data.token.denom@) == old(ctx).spec_balance(data.sender.account@, data.token.denom@) + data.token.amount && final(ctx).spec_escrowed(packet.source_port@, packet.source_channel@, data.token.denom@) == old(ctx).spec_escrowed(packet.source_port@, packet.source_channel@, data.token.denom@)
            - data.token.amount,
        r is Err ==> (forall|a: Seq<char>, d: Seq<char>|
            final(ctx).spec_balance(a, d) == old(ctx).spec_balance(a, d)) && (forall|
            p: Seq<char>,
            c: Seq<char>,
            d: Seq<char>,
        |
            final(ctx).spec_escrowed(p, c, d) == old(ctx).spec_escrowed(p, c, d)),
        forall|a: Seq<char>, d: Seq<char>|
            !(a == data.sender.account@ && d == data.token.denom@) ==> final(ctx).spec_balance(
                a,
                d,
            ) == old(ctx).spec_balance(a, d),
        forall|p: Seq<char>, c: Seq<char>, d: Seq<char>|
            !(p == packet.source_port@ && c == packet.source_channel@ && d == data.token.denom@)
                ==> final(ctx).spec_escrowed(p, c, d) == old(ctx).spec_escrowed(p, c, d),
{
    ctx.unescrow_tokens(&packet.source_port, &packet.source_channel, &data.sender, &data.token)
}

/// Handles a timed-out packet for the transfer application: the timeout is
/// purely a refund trigger, guarded by proof verification performed upstream.
pub fn process_timeout_packet<Ctx: TransferContext>(
    ctx: &mut Ctx,
    packet: &Packet,
    data: &PacketData,
) -> (r: Result<(), TokenTransferError>)
    ensures
        r is Ok <==> old(ctx).spec_escrowed(
            packet.source_port@,
            packet.source_channel@,
            data.token.denom@,
        ) >= data.token.amount && old(ctx).spec_balance(data.sender.account@, data.token.denom@)
            + data.token.amount <= u64::MAX,
        r is Ok ==> final(ctx).spec_balance(data.sender.account@, data.token.denom@) == old(ctx).spec_balance(data.sender.account@, data.token.denom@) + data.token.amount && final(ctx).spec_escrowed(packet.source_port@, packet.source_channel@, data.token.denom@) == old(ctx).spec_escrowed(packet.source_port@, packet.source_channel@, data.token.denom@)
            - data.token.amount,
        r is Err ==> (forall|a: Seq<char>, d: Seq<char>|
            final(ctx).spec_balance(a, d) == old(ctx).spec_balance(a, d)) && (forall|
            p: Seq<char>,
            c: Seq<char>,
            d: Seq<char>,
        |
            final(ctx).spec_escrowed(p, c, d) == old(ctx).spec_escrowed(p, c, d)),
        forall|a: Seq<char>, d: Seq<char>|
            !(a == data.sender.account@ && d == data.token.denom@) ==> final(ctx).spec_balance(
                a,
                d,
            ) == old(ctx).spec_balance(a, d),
        forall|p: Seq<char>, c: Seq<char>, d: Seq<char>|
            !(p == packet.source_port@ && c == packet.source_channel@ && d == data.token.denom@)
                ==> final(ctx).spec_escrowed(p, c, d) == old(ctx).spec_escrowed(p, c, d),
{
    refund_packet_token(ctx, packet, data)
}

/// One account's holding of one denomination.
#[derive(Clone, Debug, PartialEq, Eq)]
pub struct BalanceEntry {
    pub account: String,
    pub denom: String,
    pub amount: u64,
}

/// One channel escrow's holding of one denomination.
#[derive(Clone, Debug, PartialEq, Eq)]
pub struct EscrowEntry {
    pub port: String,
    pub channel: String,
    pub denom: String,
    pub amount: u64,
}

/// The balance the entry list records for (account, denom): the first
/// matching entry wins, absent means zero.
pub open spec fn spec_balance_of(s: Seq<BalanceEntry>, a: Seq<char>, d: Seq<char>) -> int
    decreases s.len(),
{
    if s.len() == 0 {
        0
    } else if s[0].account@ == a && s[0].denom@ == d {
        s[0].amount as int
    } else {
        spec_balance_of(s.drop_first(), a, d)
    }
}

/// The escrowed amount the entry list records for (port, channel, denom):
/// the first matching entry wins, absent means zero.
pub open spec fn spec_escrow_of(
    s: Seq<EscrowEntry>,
    p: Seq<char>,
    c: Seq<char>,
    d: Seq<char>,
) -> int
    decreases s.len(),
{
    if s.len() == 0 {
        0
    } else if s[0].port@ == p && s[0].channel@ == c && s[0].denom@ == d {
        s[0].amount as int
    } else {
        spec_escrow_of(s.drop_first(), p, c, d)
    }
}

/// An in-memory bank: a ledger of balances and channel escrows, for tests
/// and for hosts without a ledger of their own.
#[derive(Debug)]
pub struct DummyTransferModule {
    pub balances: Vec<BalanceEntry>,
    pub escrows: Vec<EscrowEntry>,
}

impl DummyTransferModule {
    /// An empty bank: every balance and escrow is zero.
    pub fn new() -> (r: DummyTransferModule)
        ensures
            forall|a: Seq<char>, d: Seq<char>| r.spec_balance(a, d) == 0,
            forall|p: Seq<char>, c: Seq<char>, d: Seq<char>| r.spec_escrowed(p, c, d) == 0,
    {
        DummyTransferModule { balances: Vec::new(), escrows: Vec::new() }
    }

    /// Funds a channel's escrow, overriding what it held of the
    /// denomination.
    pub fn with_escrow(self, port: &PortId, channel: &ChannelId, denom: &str, amount: u64) -> (r:
        DummyTransferModule)
        ensures
            r.spec_escrowed(port@, channel@, denom@) == amount,
            forall|p: Seq<char>, c: Seq<char>, d: Seq<char>|
                !(p == port@ && c == channel@ && d == denom@) ==> r.spec_escrowed(p, c, d)
                    == self.spec_escrowed(p, c, d),
            forall|a: Seq<char>, d: Seq<char>| r.spec_balance(a, d) == self.spec_balance(a, d),
    {
        let mut escrows = self.escrows;
        let entry = EscrowEntry {
            port: port.id.clone(),
            channel: channel.id.clone(),
            denom: denom.to_owned(),
            amount,
        };
        escrows.insert(0, entry);
        proof {
            assert(escrows@.drop_first() =~= self.escrows@);
        }
        DummyTransferModule { balances: self.balances, escrows }
    }

    /// Reads the balance ledger.
    pub fn balance(&self, account: &Signer, denom: &str) -> (r: u64)
        ensures
            r == self.spec_balance(account.account@, denom@),
    {
        let mut i: usize = 0;
        proof {
            assert(self.balances@.skip(0) =~= self.balances@);
        }
        while i < self.balances.len()
            invariant
                i <= self.balances@.len(),
                spec_balance_of(self.balances@.skip(i as int), account.account@, denom@)
                    == spec_balance_of(self.balances@, account.account@, denom@),
            decreases self.balances@.len() - i,
        {
            let e = &self.balances[i];
            proof {
                assert(self.balances@.skip(i as int)[0] == self.balances@[i as int]);
                assert(self.balances@.skip(i as int).drop_first() =~= self.balances@.skip(
                    i as int + 1,
                ));
            }
            if e.account == account.account && e.denom == String::from_str(denom) {
                return e.amount;
            }
            i += 1;
        }
        proof {
            assert(self.balances@.skip(i as int) =~= Seq::<BalanceEntry>::empty());
        }
        0
    }

    /// Reads the escrow ledger.
    pub fn escrowed(&self, port: &PortId, channel: &ChannelId, denom: &str) -> (r: u64)
        ensures
            r == self.spec_escrowed(port@, channel@, denom@),
    {
        let mut i: usize = 0;
        proof {
            assert(self.escrows@.skip(0) =~= self.escrows@);
        }
        while i < self.escrows.len()
            invariant
                i <= self.escrows@.len(),
                spec_escrow_of(self.escrows@.skip(i as int), port@, channel@, denom@)
                    == spec_escrow_of(self.escrows@, port@, channel@, denom@),
            decreases self.escrows@.len() - i,
        {
            let e = &self.escrows[i];
            proof {
                assert(self.escrows@.skip(i as int)[0] == self.escrows@[i as int]);
                assert(self.escrows@.skip(i as int).drop_first() =~= self.escrows@.skip(
                    i as int + 1,
                ));
            }
            if e.port == port.id && e.channel == channel.id && e.denom == String::from_str(denom) {
                return e.amount;
            }
            i += 1;
        }
        proof {
            assert(self.escrows@.skip(i as int) =~= Seq::<EscrowEntry>::empty());
        }
        0
    }
}

impl TransferContext for DummyTransferModule {
    open spec fn spec_balance(&self, account: Seq<char>, denom: Seq<char>) -> int {
        spec_balance_of(self.balances@, account, denom)
    }

    open spec fn spec_escrowed(&self, port: Seq<char>, channel: Seq<char>, denom: Seq<char>) -> int {
        spec_escrow_of(self.escrows@, port, channel, denom)
    }

    fn unescrow_tokens(&mut self, port: &PortId, channel: &ChannelId, to: &Signer, coin: &Coin)
        -> (r: Result<(), TokenTransferError>)
    {
        let held = self.escrowed(port, channel, coin.denom.as_str());
        if held < coin.amount {
            return Err(TokenTransferError::InsufficientEscrow);
        }
        let balance = self.balance(to, coin.denom.as_str());
        let credited = match balance.checked_add(coin.amount) {
            Some(c) => c,
            None => {
                return Err(TokenTransferError::BalanceOverflow);
            },
        };
        let bal_entry = BalanceEntry {
            account: to.account.clone(),
            denom: coin.denom.clone(),
            amount: credited,
        };
        self.balances.insert(0, bal_entry);
        let esc_entry = EscrowEntry {
            port: port.id.clone(),
            channel: channel.id.clone(),
            denom: coin.denom.clone(),
            amount: held - coin.amount,
        };
        self.escrows.insert(0, esc_entry);
        proof {
            assert(self.balances@.drop_first() =~= old(self).balances@);
            assert(self.escrows@.drop_first() =~= old(self).escrows@);
        }
        Ok(())
    }
}

} // verus!
