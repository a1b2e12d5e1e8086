//! The block, the unit of the chain, and what is reported of it.

use crate::hasher::block_hash;
use crate::text::{decimal, push_decimal};
use vstd::prelude::*;
use vstd::string::StringExecFns;

verus! {

/// The previous hash of the first block of a chain, which has no predecessor.
pub open spec fn genesis_previous_hash() -> Seq<char> {
    seq!['0']
}

/// One record of the chain. It is made once, by mining, and not changed after.
#[derive(Debug)]
pub struct Block {
    /// Position in the chain, counted from 0.
    pub index: u64,
    /// Seconds since the Unix epoch, read once when mining began.
    pub timestamp: u64,
    /// The payload.
    pub data: String,
    /// The number that mining found.
    pub nonce: u64,
    /// The digest of the block before this one.
    pub previous_hash: String,
    /// The digest of this block.
    pub hash: String,
    /// How long mining took, in milliseconds. Informative only.
    pub mining_duration_ms: u128,
}

/// A block as a mathematical value: its texts as sequences of characters.
pub struct BlockView {
    pub index: u64,
    pub timestamp: u64,
    pub data: Seq<char>,
    pub nonce: u64,
    pub previous_hash: Seq<char>,
    pub hash: Seq<char>,
    pub mining_duration_ms: u128,
}

impl BlockView {
    /// The digest that this block's fields give.
    pub open spec fn digest(self) -> Seq<char> {
        block_hash(self.index, self.timestamp, self.data, self.nonce, self.previous_hash)
    }

    /// The stored hash is the digest of the other fields.
    pub open spec fn is_sealed(self) -> bool {
        self.hash == self.digest()
    }

    /// This block names `previous` as the block before it.
    pub open spec fn follows(self, previous: BlockView) -> bool {
        self.previous_hash == previous.hash
    }
}

impl View for Block {
    type V = BlockView;

    open spec fn view(&self) -> BlockView {
        BlockView {
            index: self.index,
            timestamp: self.timestamp,
            data: self.data@,
            nonce: self.nonce,
            previous_hash: self.previous_hash@,
            hash: self.hash@,
            mining_duration_ms: self.mining_duration_ms,
        }
    }
}

impl Clone for Block {
    fn clone(&self) -> (copy: Self)
        ensures
            copy == *self,
    {
        Block {
            index: self.index,
            timestamp: self.timestamp,
            data: self.data.clone(),
            nonce: self.nonce,
            previous_hash: self.previous_hash.clone(),
            hash: self.hash.clone(),
            mining_duration_ms: self.mining_duration_ms,
        }
    }
}

/// The view of a chain: the views of its blocks, in order.
pub open spec fn chain_view(chain: Seq<Block>) -> Seq<BlockView> {
    Seq::new(chain.len(), |i: int| chain[i]@)
}

/// What a listing shows of one block.
#[derive(Debug)]
pub struct BlockSummary {
    pub index: u64,
    pub nonce: u64,
    pub mining_duration_ms: u128,
    pub hash: String,
}

/// A summary as a mathematical value.
pub struct BlockSummaryView {
    pub index: u64,
    pub nonce: u64,
    pub mining_duration_ms: u128,
    pub hash: Seq<char>,
}

impl View for BlockSummary {
    type V = BlockSummaryView;

    open spec fn view(&self) -> BlockSummaryView {
        BlockSummaryView {
            index: self.index,
            nonce: self.nonce,
            mining_duration_ms: self.mining_duration_ms,
            hash: self.hash@,
        }
    }
}

impl BlockSummaryView {
    /// The line that shows this summary: index, duration in milliseconds,
    /// nonce and hash, each after its label.
    pub open spec fn line(self) -> Seq<char> {
        "Block "@ + decimal(self.index as nat) + " | Time: "@ + decimal(
            self.mining_duration_ms as nat,
        ) + "ms | Nonce: "@ + decimal(self.nonce as nat) + " | Hash: "@ + self.hash
    }
}

impl BlockSummary {
    /// Writes the summary as one line of text.
    pub fn to_line(&self) -> (line: String)
        ensures
            line@ == self@.line(),
    {
        let mut line: String = String::new();
        line.append("Block ");
        push_decimal(&mut line, self.index as u128);
        line.append(" | Time: ");
        push_decimal(&mut line, self.mining_duration_ms);
        line.append("ms | Nonce: ");
        push_decimal(&mut line, self.nonce as u128);
        line.append(" | Hash: ");
        line.append(self.hash.as_str());
        assert(line@ =~= self@.line());
        line
    }
}

impl BlockView {
    /// What a listing shows of this block.
    pub open spec fn summary(self) -> BlockSummaryView {
        BlockSummaryView {
            index: self.index,
            nonce: self.nonce,
            mining_duration_ms: self.mining_duration_ms,
            hash: self.hash,
        }
    }
}

impl Block {
    /// Whether the stored hash is the digest of the other fields.
    pub fn is_sealed(&self) -> (sealed: bool)
        ensures
            sealed == self@.is_sealed(),
    {
        let digest: String = crate::hasher::calculate_hash(
            self.index,
            self.timestamp,
            self.data.as_str(),
            self.nonce,
            self.previous_hash.as_str(),
        );
        digest == self.hash
    }

    /// What a listing shows of this block.
    pub fn summary(&self) -> (summary: BlockSummary)
        ensures
            summary@ == self@.summary(),
    {
        BlockSummary {
            index: self.index,
            nonce: self.nonce,
            mining_duration_ms: self.mining_duration_ms,
            hash: self.hash.clone(),
        }
    }
}

} // verus!
