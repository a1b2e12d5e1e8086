//! The operations on a chain held in memory: bootstrap with a genesis block,
//! extend by one mined block, list, and reset.

use crate::block::{chain_view, genesis_previous_hash, Block, BlockSummary, BlockSummaryView, BlockView};
use crate::clock::unix_time;
use crate::miner::{mine_block_at, mined_from, unsolvable, unsolvable_at_some_time, MineError};
use crate::text::{decimal, push_decimal};
use crate::validator::{is_linked, link_holds};
use vstd::prelude::*;
use vstd::string::StringExecFns;

verus! {

/// The payload of a genesis block.
pub open spec fn genesis_data() -> Seq<char> {
    "Genesis Block"@
}

/// The difficulty at which the block at `index` is mined.
pub open spec fn escalated(base_difficulty: nat, index: nat) -> nat {
    base_difficulty + index / 2
}

/// The payload of the block at `index`: the caller's text, `" #"`, the index.
pub open spec fn labelled(data: Seq<char>, index: nat) -> Seq<char> {
    data + " #"@ + decimal(index)
}

/// Why a chain cannot be extended.
#[derive(Debug, Clone, Copy, PartialEq, Eq, Structural)]
pub enum ExtendError {
    /// The chain has no block to build on.
    EmptyChain,
    /// The last block has the largest index there is.
    IndexOverflow,
    /// The difficulty of the next block is larger than any size.
    DifficultyOverflow,
    /// Mining gave no block.
    Mining(MineError),
}

/// What is to be mined next: the inputs of the search.
#[derive(Debug)]
pub struct WorkOrder {
    pub index: u64,
    pub data: String,
    pub previous_hash: String,
    pub difficulty: usize,
}

/// `order` asks for the block that comes after `last`, for the caller's text
/// `data`, at the difficulty that the base and the new index give.
pub open spec fn is_next_order(
    order: WorkOrder,
    last: BlockView,
    base_difficulty: nat,
    data: Seq<char>,
) -> bool {
    &&& order.index == last.index + 1
    &&& order.data@ == labelled(data, order.index as nat)
    &&& order.previous_hash@ == last.hash
    &&& order.difficulty == escalated(base_difficulty, order.index as nat)
}

/// The difficulty at which the block at `index` is mined, where it is a size.
pub fn effective_difficulty(base_difficulty: usize, index: u64) -> (difficulty: Option<usize>)
    ensures
        match difficulty {
            Some(d) => d == escalated(base_difficulty as nat, index as nat),
            None => escalated(base_difficulty as nat, index as nat) > usize::MAX,
        },
{
    let steps: u64 = index / 2;
    if steps > usize::MAX as u64 {
        return None;
    }
    base_difficulty.checked_add(steps as usize)
}

/// The payload of the block at `index`.
pub fn block_data(data: &str, index: u64) -> (text: String)
    ensures
        text@ == labelled(data@, index as nat),
{
    let mut text: String = data.to_owned();
    text.append(" #");
    push_decimal(&mut text, index as u128);
    text
}

/// Decides what is mined after `last`.
pub fn next_order(last: &Block, base_difficulty: usize, data: &str) -> (order: Result<
    WorkOrder,
    ExtendError,
>)
    ensures
        match order {
            Ok(order) => is_next_order(order, last@, base_difficulty as nat, data@),
            Err(ExtendError::IndexOverflow) => last.index == u64::MAX,
            Err(ExtendError::DifficultyOverflow) => {
                &&& last.index < u64::MAX
                &&& escalated(base_difficulty as nat, (last.index + 1) as nat) > usize::MAX
            },
            Err(_) => false,
        },
{
    if last.index == u64::MAX {
        return Err(ExtendError::IndexOverflow);
    }
    let index: u64 = last.index + 1;
    match effective_difficulty(base_difficulty, index) {
        Some(difficulty) => Ok(
            WorkOrder {
                index,
                data: block_data(data, index),
                previous_hash: last.hash.clone(),
                difficulty,
            },
        ),
        None => Err(ExtendError::DifficultyOverflow),
    }
}

/// `longer` is `shorter` with one more block at its end, which names the last
/// block of `shorter` and has the index after it.
pub open spec fn is_extension(shorter: Seq<BlockView>, longer: Seq<BlockView>) -> bool {
    &&& shorter.len() > 0
    &&& longer.len() == shorter.len() + 1
    &&& longer.drop_last() == shorter
    &&& longer.last().follows(shorter.last())
    &&& longer.last().index == shorter.last().index + 1
}

/// The chain is a genesis block, extended block by block.
pub open spec fn grown_from_genesis(chain: Seq<BlockView>) -> bool
    decreases chain.len(),
{
    if chain.len() <= 1 {
        &&& chain.len() == 1
        &&& chain[0].index == 0
        &&& chain[0].previous_hash == genesis_previous_hash()
    } else {
        &&& grown_from_genesis(chain.drop_last())
        &&& is_extension(chain.drop_last(), chain)
    }
}

/// The index of the block that comes after the last block of `chain`.
pub open spec fn next_index(chain: Seq<BlockView>) -> nat {
    (chain.last().index + 1) as nat
}

/// Why `chain` cannot be extended whatever mining gives, or `None` where
/// nothing stands in the way.
pub open spec fn refusal(chain: Seq<BlockView>, base_difficulty: nat) -> Option<ExtendError> {
    if chain.len() == 0 {
        Some(ExtendError::EmptyChain)
    } else if chain.last().index == u64::MAX {
        Some(ExtendError::IndexOverflow)
    } else if escalated(base_difficulty, next_index(chain)) > usize::MAX {
        Some(ExtendError::DifficultyOverflow)
    } else {
        None
    }
}

/// `longer` is `shorter` extended by the block that mining gives for the
/// caller's text `data` at the base difficulty `base_difficulty`.
pub open spec fn is_mined_extension(
    shorter: Seq<BlockView>,
    longer: Seq<BlockView>,
    base_difficulty: nat,
    data: Seq<char>,
) -> bool {
    &&& is_extension(shorter, longer)
    &&& mined_from(
        longer.last(),
        next_index(shorter) as u64,
        labelled(data, next_index(shorter)),
        shorter.last().hash,
        escalated(base_difficulty, next_index(shorter)),
    )
}

/// `chain` is one genesis block, mined at `difficulty`.
pub open spec fn is_genesis_chain(chain: Seq<BlockView>, difficulty: nat) -> bool {
    &&& chain.len() == 1
    &&& mined_from(chain[0], 0, genesis_data(), genesis_previous_hash(), difficulty)
}

/// Puts a genesis block at the head of an empty chain, with the clock reading
/// `clock` as its timestamp: index 0, the fixed payload and previous hash,
/// mined at `difficulty`. A chain that holds a block is left as it is. Returns
/// whether a genesis block was made.
pub fn bootstrap_at(chain: &mut Vec<Block>, clock: Option<u64>, difficulty: usize) -> (made:
    Result<bool, MineError>)
    ensures
        match made {
            Ok(true) => {
                &&& old(chain)@.len() == 0
                &&& is_genesis_chain(chain_view(final(chain)@), difficulty as nat)
                &&& clock == Some(final(chain)@[0].timestamp)
            },
            Ok(false) => old(chain)@.len() > 0 && final(chain)@ == old(chain)@,
            Err(MineError::ClockBeforeEpoch) => {
                &&& old(chain)@.len() == 0
                &&& final(chain)@ == old(chain)@
                &&& clock is None
            },
            Err(MineError::NonceSpaceExhausted) => {
                &&& old(chain)@.len() == 0
                &&& final(chain)@ == old(chain)@
                &&& clock matches Some(timestamp)
                &&& unsolvable(
                    0,
                    timestamp,
                    genesis_data(),
                    genesis_previous_hash(),
                    difficulty as nat,
                )
            },
        },
{
    if chain.len() > 0 {
        return Ok(false);
    }
    proof {
        reveal_strlit("0");
        assert("0"@ =~= genesis_previous_hash());
    }
    match mine_block_at(clock, 0, "Genesis Block", "0", difficulty, u64::MAX) {
        Ok(genesis) => {
            chain.push(genesis);
            Ok(true)
        },
        Err(e) => Err(e),
    }
}

/// Puts a genesis block at the head of an empty chain, its timestamp read from
/// the system clock. A chain that holds a block is left as it is. Returns
/// whether a genesis block was made.
pub fn bootstrap(chain: &mut Vec<Block>, difficulty: usize) -> (made: Result<bool, MineError>)
    ensures
        match made {
            Ok(true) => {
                &&& old(chain)@.len() == 0
                &&& is_genesis_chain(chain_view(final(chain)@), difficulty as nat)
            },
            Ok(false) => old(chain)@.len() > 0 && final(chain)@ == old(chain)@,
            Err(MineError::ClockBeforeEpoch) => {
                &&& old(chain)@.len() == 0
                &&& final(chain)@ == old(chain)@
            },
            Err(MineError::NonceSpaceExhausted) => {
                &&& old(chain)@.len() == 0
                &&& final(chain)@ == old(chain)@
                &&& unsolvable_at_some_time(
                    0,
                    genesis_data(),
                    genesis_previous_hash(),
                    difficulty as nat,
                )
            },
        },
{
    let clock: Option<u64> = unix_time();
    bootstrap_at(chain, clock, difficulty)
}

/// Extends the chain by one block, with the clock reading `clock` as its
/// timestamp: mines the block that `next_order` asks for after the last block
/// and puts it at the end.
pub fn extend_at(
    chain: &mut Vec<Block>,
    clock: Option<u64>,
    base_difficulty: usize,
    data: &str,
) -> (done: Result<(), ExtendError>)
    ensures
        match done {
            Ok(()) => {
                &&& refusal(chain_view(old(chain)@), base_difficulty as nat) is None
                &&& final(chain)@.len() == old(chain)@.len() + 1
                &&& final(chain)@.drop_last() == old(chain)@
                &&& clock == Some(final(chain)@.last().timestamp)
                &&& is_mined_extension(
                    chain_view(old(chain)@),
                    chain_view(final(chain)@),
                    base_difficulty as nat,
                    data@,
                )
            },
            Err(ExtendError::Mining(MineError::ClockBeforeEpoch)) => {
                &&& final(chain)@ == old(chain)@
                &&& refusal(chain_view(old(chain)@), base_difficulty as nat) is None
                &&& clock is None
            },
            Err(ExtendError::Mining(MineError::NonceSpaceExhausted)) => {
                &&& final(chain)@ == old(chain)@
                &&& refusal(chain_view(old(chain)@), base_difficulty as nat) is None
                &&& clock matches Some(timestamp)
                &&& unsolvable(
                    next_index(chain_view(old(chain)@)) as u64,
                    timestamp,
                    labelled(data@, next_index(chain_view(old(chain)@))),
                    chain_view(old(chain)@).last().hash,
                    escalated(base_difficulty as nat, next_index(chain_view(old(chain)@))),
                )
            },
            Err(e) => {
                &&& final(chain)@ == old(chain)@
                &&& refusal(chain_view(old(chain)@), base_difficulty as nat) == Some(e)
            },
        },
{
    if chain.len() == 0 {
        return Err(ExtendError::EmptyChain);
    }
    let order: WorkOrder = match next_order(&chain[chain.len() - 1], base_difficulty, data) {
        Ok(order) => order,
        Err(e) => {
            return Err(e);
        },
    };
    match mine_block_at(
        clock,
        order.index,
        order.data.as_str(),
        order.previous_hash.as_str(),
        order.difficulty,
        u64::MAX,
    ) {
        Ok(block) => {
            chain.push(block);
            proof {
                assert(chain@.drop_last() =~= old(chain)@);
                assert(chain_view(chain@).drop_last() =~= chain_view(old(chain)@));
            }
            Ok(())
        },
        Err(e) => Err(ExtendError::Mining(e)),
    }
}

/// Extends the chain by one block, its timestamp read from the system clock.
pub fn extend(chain: &mut Vec<Block>, base_difficulty: usize, data: &str) -> (done: Result<
    (),
    ExtendError,
>)
    ensures
        match done {
            Ok(()) => {
                &&& refusal(chain_view(old(chain)@), base_difficulty as nat) is None
                &&& final(chain)@.len() == old(chain)@.len() + 1
                &&& final(chain)@.drop_last() == old(chain)@
                &&& is_mined_extension(
                    chain_view(old(chain)@),
                    chain_view(final(chain)@),
                    base_difficulty as nat,
                    data@,
                )
            },
            Err(ExtendError::Mining(MineError::ClockBeforeEpoch)) => {
                &&& final(chain)@ == old(chain)@
                &&& refusal(chain_view(old(chain)@), base_difficulty as nat) is None
            },
            Err(ExtendError::Mining(MineError::NonceSpaceExhausted)) => {
                &&& final(chain)@ == old(chain)@
                &&& refusal(chain_view(old(chain)@), base_difficulty as nat) is None
                &&& unsolvable_at_some_time(
                    next_index(chain_view(old(chain)@)) as u64,
                    labelled(data@, next_index(chain_view(old(chain)@))),
                    chain_view(old(chain)@).last().hash,
                    escalated(base_difficulty as nat, next_index(chain_view(old(chain)@))),
                )
            },
            Err(e) => {
                &&& final(chain)@ == old(chain)@
                &&& refusal(chain_view(old(chain)@), base_difficulty as nat) == Some(e)
            },
        },
{
    let clock: Option<u64> = unix_time();
    extend_at(chain, clock, base_difficulty, data)
}

/// What a listing shows of a chain: the summary of each block, in chain order.
pub open spec fn listing(chain: Seq<BlockView>) -> Seq<BlockSummaryView> {
    Seq::new(chain.len(), |i: int| chain[i].summary())
}

/// The view of a listing.
pub open spec fn listing_view(summaries: Seq<BlockSummary>) -> Seq<BlockSummaryView> {
    Seq::new(summaries.len(), |i: int| summaries[i]@)
}

/// Lists the chain: index, nonce, duration and hash of each block, in chain
/// order. The chain is not changed.
pub fn list_blocks(chain: &[Block]) -> (summaries: Vec<BlockSummary>)
    ensures
        listing_view(summaries@) == listing(chain_view(chain@)),
{
    let mut summaries: Vec<BlockSummary> = Vec::new();
    let mut i: usize = 0;
    while i < chain.len()
        invariant
            i <= chain.len(),
            summaries@.len() == i,
            forall|j: int| 0 <= j < i ==> (#[trigger] summaries@[j])@ == chain@[j]@.summary(),
        decreases chain.len() - i,
    {
        summaries.push(chain[i].summary());
        i = i + 1;
    }
    assert(listing_view(summaries@) =~= listing(chain_view(chain@)));
    summaries
}

/// Discards every block of the chain.
pub fn reset(chain: &mut Vec<Block>)
    ensures
        final(chain)@.len() == 0,
{
    chain.clear();
}

/// A chain grown from a genesis block is linked, and each block's index is its
/// position.
pub proof fn grown_chain_is_linked(chain: Seq<BlockView>)
    requires
        grown_from_genesis(chain),
    ensures
        is_linked(chain),
        forall|i: int| 0 <= i < chain.len() ==> (#[trigger] chain[i]).index == i,
        chain[0].previous_hash == genesis_previous_hash(),
    decreases chain.len(),
{
    if chain.len() > 1 {
        let shorter = chain.drop_last();
        grown_chain_is_linked(shorter);
        assert forall|i: int| 1 <= i < chain.len() implies #[trigger] link_holds(chain, i) by {
            if i < shorter.len() {
                assert(link_holds(shorter, i));
            }
        }
        assert forall|i: int| 0 <= i < chain.len() implies (#[trigger] chain[i]).index == i by {
            if i < shorter.len() {
                assert(shorter[i].index == i);
            }
        }
    }
}

/// A chain of one genesis block is grown from a genesis block.
pub proof fn genesis_chain_is_grown(chain: Seq<BlockView>, difficulty: nat)
    requires
        is_genesis_chain(chain, difficulty),
    ensures
        grown_from_genesis(chain),
{
}

/// Extending a chain grown from a genesis block gives such a chain again.
pub proof fn extension_of_grown_chain(shorter: Seq<BlockView>, longer: Seq<BlockView>)
    requires
        grown_from_genesis(shorter),
        is_extension(shorter, longer),
    ensures
        grown_from_genesis(longer),
{
}

/// The difficulty grows with the index, never falls, and takes one step for
/// every two blocks.
pub proof fn difficulty_escalates(base_difficulty: nat, index: nat, later: nat)
    requires
        index <= later,
    ensures
        escalated(base_difficulty, index) <= escalated(base_difficulty, later),
        escalated(base_difficulty, 0) == base_difficulty,
        escalated(base_difficulty, 2 * index) == base_difficulty + index,
        escalated(base_difficulty, 2 * index + 1) == base_difficulty + index,
{
}

/// A listing has one summary for each block, in chain order, and is the same
/// whenever it is made of the same chain.
pub proof fn listing_follows_chain(
    chain: Seq<BlockView>,
    first: Seq<BlockSummaryView>,
    second: Seq<BlockSummaryView>,
)
    requires
        first == listing(chain),
        second == listing(chain),
    ensures
        first == second,
        first.len() == chain.len(),
        forall|i: int| 0 <= i < chain.len() ==> #[trigger] first[i] == chain[i].summary(),
{
}

/// A chain that was reset lists no block.
pub proof fn reset_chain_lists_nothing(chain: Seq<BlockView>)
    requires
        chain.len() == 0,
    ensures
        listing(chain).len() == 0,
        is_linked(chain),
{
}

} // verus!
