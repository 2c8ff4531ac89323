//! An interface for simulated host blockchains: a host produces blocks, each
//! block yields a header, and each header yields the consensus state it
//! attests to. Hosts drive the contexts the state machines are exercised
//! against.

use vstd::prelude::*;
use crate::client::{MockClientState, MockConsensusState, MockHeader};
use crate::context::{BLOCK_TIME_NANOS, GENESIS_TIMESTAMP_NANOS};
use crate::height::Height;
use crate::identifier::ChainId;
use crate::timestamp::Timestamp;

verus! {

/// What a host is built from: its chain identifier, its block production
/// interval, and the timestamp of its first block.
#[derive(Debug)]
pub struct HostParams {
    pub chain_id: ChainId,
    pub block_time_nanos: u64,
    pub genesis_timestamp: Timestamp,
}

impl HostParams {
    pub fn new(chain_id: ChainId, block_time_nanos: u64, genesis_timestamp: Timestamp) -> (r:
        HostParams)
        ensures
            r.chain_id == chain_id,
            r.block_time_nanos == block_time_nanos,
            r.genesis_timestamp == genesis_timestamp,
    {
        HostParams { chain_id, block_time_nanos, genesis_timestamp }
    }
}

impl Default for HostParams {
    /// The conventional defaults: the `mockgaia` chain on revision zero, the
    /// standard block interval, and the standard genesis timestamp.
    fn default() -> (r: HostParams)
        ensures
            r.chain_id.name@ == "mockgaia"@,
            r.chain_id.revision_number == 0,
            r.block_time_nanos == BLOCK_TIME_NANOS,
            r.genesis_timestamp == (Timestamp { nanoseconds: GENESIS_TIMESTAMP_NANOS }),
    {
        HostParams {
            chain_id: ChainId { name: "mockgaia".to_owned(), revision_number: 0 },
            block_time_nanos: BLOCK_TIME_NANOS,
            genesis_timestamp: Timestamp { nanoseconds: GENESIS_TIMESTAMP_NANOS },
        }
    }
}

/// A header extracted from a host block.
pub trait TestHeader: Sized {
    /// The consensus state this header attests to.
    type ConsensusState;

    spec fn spec_height(&self) -> Height;

    spec fn spec_timestamp(&self) -> Timestamp;

    /// The consensus state this header yields, as a value.
    spec fn spec_consensus_state(self) -> Self::ConsensusState;

    /// The height of the block, as recorded in the header.
    fn height(&self) -> (r: Height)
        ensures
            r == self.spec_height(),
    ;

    /// The timestamp of the block, as recorded in the header.
    fn timestamp(&self) -> (r: Timestamp)
        ensures
            r == self.spec_timestamp(),
    ;

    /// Extracts the consensus state from the header.
    fn into_consensus_state(self) -> (r: Self::ConsensusState)
        ensures
            r == self.spec_consensus_state(),
    ;
}

/// A block produced by a host.
pub trait TestBlock: Sized {
    /// The header this block yields.
    type Header: TestHeader;

    spec fn spec_block_height(&self) -> Height;

    spec fn spec_block_timestamp(&self) -> Timestamp;

    /// The height of the block.
    fn height(&self) -> (r: Height)
        ensures
            r == self.spec_block_height(),
    ;

    /// The timestamp of the block.
    fn timestamp(&self) -> (r: Timestamp)
        ensures
            r == self.spec_block_timestamp(),
    ;

    /// Extracts the header from the block, keeping its height and timestamp.
    fn into_header(self) -> (r: Self::Header)
        ensures
            r.spec_height() == self.spec_block_height(),
            r.spec_timestamp() == self.spec_block_timestamp(),
    ;
}

/// A simulated host blockchain: it extends a history of blocks, one height at
/// a time, and can produce a client state for a light client tracking it.
pub trait TestHost: Sized {
    /// The type of block the host produces.
    type Block: TestBlock;

    /// The type of client state the host's light client uses.
    type ClientState;

    /// Extra inputs to block production.
    type BlockParams;

    /// Extra inputs to client state production.
    type LightClientParams;

    spec fn spec_history(&self) -> Seq<Self::Block>;

    spec fn spec_chain_id(&self) -> ChainId;

    spec fn spec_block_time(&self) -> u64;

    spec fn spec_genesis_timestamp(&self) -> Timestamp;

    /// Builds a host with no blocks yet.
    fn build(params: HostParams) -> (r: Self)
        ensures
            r.spec_history().len() == 0,
            r.spec_chain_id() == params.chain_id,
            r.spec_block_time() == params.block_time_nanos,
            r.spec_genesis_timestamp() == params.genesis_timestamp,
    ;

    /// The history of blocks, oldest first.
    fn history(&self) -> (r: &Vec<Self::Block>)
        ensures
            r@ == self.spec_history(),
    ;

    /// The chain identifier of the host.
    fn chain_id(&self) -> (r: &ChainId)
        ensures
            *r == self.spec_chain_id(),
    ;

    /// The block production interval, in nanoseconds.
    fn block_time(&self) -> (r: u64)
        ensures
            r == self.spec_block_time(),
    ;

    /// The timestamp of the host's first block.
    fn genesis_timestamp(&self) -> (r: Timestamp)
        ensures
            r == self.spec_genesis_timestamp(),
    ;

    /// Appends a block to the history.
    fn push_block(&mut self, block: Self::Block)
        ensures
            final(self).spec_history() == old(self).spec_history().push(block),
            final(self).spec_chain_id() == old(self).spec_chain_id(),
            final(self).spec_block_time() == old(self).spec_block_time(),
            final(self).spec_genesis_timestamp() == old(self).spec_genesis_timestamp(),
    ;

    /// Produces the block for the given height and timestamp.
    fn generate_block(
        &self,
        commitment_root: Vec<u8>,
        height: u64,
        timestamp: Timestamp,
        params: &Self::BlockParams,
    ) -> (r: Self::Block)
        ensures
            <Self::Block as TestBlock>::spec_block_height(&r) == (Height {
                revision_number: self.spec_chain_id().revision_number,
                revision_height: height,
            }),
            <Self::Block as TestBlock>::spec_block_timestamp(&r) == timestamp,
    ;

    /// Produces a client state whose latest height is the given one.
    fn generate_client_state(
        &self,
        latest_height: &Height,
        params: &Self::LightClientParams,
    ) -> Self::ClientState;

    /// True when the host chain has no blocks.
    fn is_empty(&self) -> (r: bool)
        ensures
            r == (self.spec_history().len() == 0),
    {
        self.history().is_empty()
    }

    /// The latest block of the host chain.
    fn latest_block(&self) -> (r: &Self::Block)
        requires
            self.spec_history().len() > 0,
        ensures
            *r == self.spec_history().last(),
    {
        let history = self.history();
        &history[history.len() - 1]
    }

    /// The latest height of the host chain.
    fn latest_height(&self) -> (r: Height)
        requires
            self.spec_history().len() > 0,
        ensures
            r == self.spec_history().last().spec_block_height(),
    {
        self.latest_block().height()
    }

    /// The block at the given height, under the convention that the block at
    /// revision height `h` sits at position `h - 1` of an unpruned history.
    fn get_block(&self, target_height: &Height) -> (r: Option<&Self::Block>)
        ensures
            r matches Some(b) ==> 1 <= target_height.revision_height
                && target_height.revision_height <= self.spec_history().len() && *b
                == self.spec_history()[target_height.revision_height - 1],
            r is None ==> target_height.revision_height == 0
                || target_height.revision_height > self.spec_history().len(),
    {
        let history = self.history();
        let rh = target_height.revision_height();
        if rh >= 1 && rh <= history.len() as u64 {
            let i: usize = (rh - 1) as usize;
            Some(&history[i])
        } else {
            None
        }
    }

    /// Extends the history by one block: the first block sits at height one
    /// with the genesis timestamp; every later block increments the height
    /// and advances the timestamp by one block interval.
    fn advance_block(&mut self, commitment_root: Vec<u8>, params: &Self::BlockParams)
        requires
            old(self).spec_history().len() > 0 ==> old(
                self,
            ).spec_history().last().spec_block_height().revision_height < u64::MAX && old(
                self,
            ).spec_history().last().spec_block_timestamp().nanoseconds + old(self).spec_block_time()
                <= u64::MAX,
        ensures
            final(self).spec_history().len() == old(self).spec_history().len() + 1,
            final(self).spec_history().drop_last() == old(self).spec_history(),
            final(self).spec_history().last().spec_block_height() == (Height {
                revision_number: old(self).spec_chain_id().revision_number,
                revision_height: if old(self).spec_history().len() == 0 {
                    1u64
                } else {
                    (old(self).spec_history().last().spec_block_height().revision_height + 1) as u64
                },
            }),
            final(self).spec_history().last().spec_block_timestamp() == (Timestamp {
                nanoseconds: if old(self).spec_history().len() == 0 {
                    old(self).spec_genesis_timestamp().nanoseconds
                } else {
                    (old(self).spec_history().last().spec_block_timestamp().nanoseconds + old(
                        self,
                    ).spec_block_time()) as u64
                },
            }),
            final(self).spec_chain_id() == old(self).spec_chain_id(),
            final(self).spec_block_time() == old(self).spec_block_time(),
            final(self).spec_genesis_timestamp() == old(self).spec_genesis_timestamp(),
    {
        let (height, timestamp): (u64, Timestamp) = if self.is_empty() {
            (1, self.genesis_timestamp())
        } else {
            let latest_block = self.latest_block();
            let h = latest_block.height().revision_height() + 1;
            let t = latest_block.timestamp().nanoseconds() + self.block_time();
            (h, Timestamp { nanoseconds: t })
        };
        let new_block = self.generate_block(commitment_root, height, timestamp, params);
        let ghost pre = self.spec_history();
        self.push_block(new_block);
        proof {
            assert(final(self).spec_history().drop_last() =~= pre);
        }
    }

    /// Checks that the history's blocks sit at consecutive heights, the
    /// first at revision height one.
    fn validate(&self) -> (r: Result<(), String>)
        requires
            self.spec_history().len() > 0,
        ensures
            r is Ok <==> self.spec_history().last().spec_block_height().revision_height
                <= self.spec_history().len() && (forall|c: int|
                1 <= c <= self.spec_history().last().spec_block_height().revision_height ==> (
                #[trigger] self.spec_history()[c - 1]).spec_block_height() == (Height {
                    revision_number: self.spec_history().last().spec_block_height().revision_number,
                    revision_height: c as u64,
                })),
            r matches Err(e) ==> e@ == "block height does not match"@,
    {
        let latest_height = self.latest_height();
        let revision_number = latest_height.revision_number();
        let mut idx: u64 = 0;
        while idx < latest_height.revision_height()
            invariant
                self.spec_history().len() > 0,
                latest_height == self.spec_history().last().spec_block_height(),
                revision_number == latest_height.revision_number,
                idx <= latest_height.revision_height,
                idx <= self.spec_history().len(),
                forall|c: int|
                    1 <= c <= idx ==> (#[trigger] self.spec_history()[c - 1]).spec_block_height() == (
                    Height { revision_number, revision_height: c as u64 }),
            decreases latest_height.revision_height - idx,
        {
            let current_height = Height {
                revision_number,
                revision_height: idx + 1,
            };
            match self.get_block(&current_height) {
                None => {
                    return Err("block height does not match".to_owned());
                },
                Some(block) => {
                    if !block.height().eq_height(&current_height) {
                        return Err("block height does not match".to_owned());
                    }
                },
            }
            idx += 1;
        }
        Ok(())
    }
}

impl TestHeader for MockHeader {
    type ConsensusState = MockConsensusState;

    open spec fn spec_height(&self) -> Height {
        self.height
    }

    open spec fn spec_timestamp(&self) -> Timestamp {
        self.timestamp
    }

    open spec fn spec_consensus_state(self) -> MockConsensusState {
        MockConsensusState { header: self }
    }

    fn height(&self) -> Height {
        self.height
    }

    fn timestamp(&self) -> Timestamp {
        self.timestamp
    }

    fn into_consensus_state(self) -> MockConsensusState {
        MockConsensusState { header: self }
    }
}

/// A block of the mock host is nothing more than its header.
impl TestBlock for MockHeader {
    type Header = MockHeader;

    open spec fn spec_block_height(&self) -> Height {
        self.height
    }

    open spec fn spec_block_timestamp(&self) -> Timestamp {
        self.timestamp
    }

    fn height(&self) -> Height {
        self.height
    }

    fn timestamp(&self) -> Timestamp {
        self.timestamp
    }

    fn into_header(self) -> (r: MockHeader)
        ensures
            r.spec_height() == self.spec_block_height(),
            r.spec_timestamp() == self.spec_block_timestamp(),
    {
        self
    }
}

/// A host whose blocks are bare mock headers.
#[derive(Debug)]
pub struct MockHost {
    pub chain_id: ChainId,
    pub block_time_nanos: u64,
    pub genesis_timestamp: Timestamp,
    pub history: Vec<MockHeader>,
}

impl TestHost for MockHost {
    type Block = MockHeader;

    type ClientState = MockClientState;

    type BlockParams = ();

    type LightClientParams = ();

    open spec fn spec_history(&self) -> Seq<MockHeader> {
        self.history@
    }

    open spec fn spec_chain_id(&self) -> ChainId {
        self.chain_id
    }

    open spec fn spec_block_time(&self) -> u64 {
        self.block_time_nanos
    }

    open spec fn spec_genesis_timestamp(&self) -> Timestamp {
        self.genesis_timestamp
    }

    fn build(params: HostParams) -> MockHost {
        MockHost {
            chain_id: params.chain_id,
            block_time_nanos: params.block_time_nanos,
            genesis_timestamp: params.genesis_timestamp,
            history: Vec::new(),
        }
    }

    fn history(&self) -> &Vec<MockHeader> {
        &self.history
    }

    fn chain_id(&self) -> &ChainId {
        &self.chain_id
    }

    fn block_time(&self) -> u64 {
        self.block_time_nanos
    }

    fn genesis_timestamp(&self) -> Timestamp {
        self.genesis_timestamp
    }

    fn push_block(&mut self, block: MockHeader) {
        self.history.push(block);
    }

    fn generate_block(
        &self,
        commitment_root: Vec<u8>,
        height: u64,
        timestamp: Timestamp,
        params: &(),
    ) -> (r: MockHeader)
        ensures
            r.spec_block_height() == (Height {
                revision_number: self.spec_chain_id().revision_number,
                revision_height: height,
            }),
            r.spec_block_timestamp() == timestamp,
    {
        let _ = commitment_root;
        let _ = params;
        MockHeader {
            height: Height { revision_number: self.chain_id.revision_number, revision_height: height },
            timestamp,
        }
    }

    fn generate_client_state(&self, latest_height: &Height, _params: &()) -> (r: MockClientState)
        ensures
            r.header.height == *latest_height,
            r.frozen_height is None,
    {
        MockClientState {
            header: MockHeader {
                height: *latest_height,
                timestamp: Timestamp {
                    nanoseconds: crate::context::block_timestamp(latest_height.revision_height()),
                },
            },
            frozen_height: None,
        }
    }
}

} // verus!

