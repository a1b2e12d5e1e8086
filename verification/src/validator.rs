//! Validation of a chain: that each block names the block before it, and, for
//! the strict check, that each block's hash is the digest of its fields and
//! meets a minimum difficulty.

use crate::block::{chain_view, Block, BlockView};
use crate::miner::{has_leading_zeros, meets_difficulty};
use vstd::prelude::*;

verus! {

/// The block at position `i` names the block at `i - 1` as its predecessor.
pub open spec fn link_holds(chain: Seq<BlockView>, i: int) -> bool {
    chain[i].follows(chain[i - 1])
}

/// Every block but the first names the block before it. An empty chain and a
/// chain of one block are linked.
pub open spec fn is_linked(chain: Seq<BlockView>) -> bool {
    forall|i: int| 1 <= i < chain.len() ==> #[trigger] link_holds(chain, i)
}

/// Position `i` is the first at which the linkage breaks.
pub open spec fn is_first_break(chain: Seq<BlockView>, i: int) -> bool {
    &&& 1 <= i < chain.len()
    &&& !link_holds(chain, i)
    &&& forall|j: int| 1 <= j < i ==> #[trigger] link_holds(chain, j)
}

/// The block at position `i` passes the strict check: its hash is the digest of
/// its fields, the hash meets `min_difficulty`, and it names the block before
/// it, if there is one.
pub open spec fn block_is_valid(chain: Seq<BlockView>, i: int, min_difficulty: nat) -> bool {
    &&& chain[i].is_sealed()
    &&& meets_difficulty(chain[i].hash, min_difficulty)
    &&& i > 0 ==> link_holds(chain, i)
}

/// Every block passes the strict check.
pub open spec fn is_strictly_valid(chain: Seq<BlockView>, min_difficulty: nat) -> bool {
    forall|i: int| 0 <= i < chain.len() ==> #[trigger] block_is_valid(chain, i, min_difficulty)
}

/// Position `i` is the first whose block fails the strict check.
pub open spec fn is_first_invalid(chain: Seq<BlockView>, i: int, min_difficulty: nat) -> bool {
    &&& 0 <= i < chain.len()
    &&& !block_is_valid(chain, i, min_difficulty)
    &&& forall|j: int| 0 <= j < i ==> #[trigger] block_is_valid(chain, j, min_difficulty)
}

/// `report` is what the linkage check says of `chain`: the first position at
/// which the linkage breaks, or `None` for a linked chain.
pub open spec fn is_link_report(chain: Seq<BlockView>, report: Option<usize>) -> bool {
    match report {
        Some(i) => is_first_break(chain, i as int),
        None => is_linked(chain),
    }
}

/// `report` is what the strict check says of `chain`: the first position whose
/// block fails, or `None` where every block passes.
pub open spec fn is_strict_report(
    chain: Seq<BlockView>,
    min_difficulty: nat,
    report: Option<usize>,
) -> bool {
    match report {
        Some(i) => is_first_invalid(chain, i as int, min_difficulty),
        None => is_strictly_valid(chain, min_difficulty),
    }
}

/// Finds the first position at which the linkage breaks, if there is one.
/// Blocks after the break are not looked at.
pub fn first_broken_link(chain: &[Block]) -> (broken: Option<usize>)
    ensures
        is_link_report(chain_view(chain@), broken),
{
    let mut i: usize = 1;
    while i < chain.len()
        invariant
            1 <= i,
            forall|j: int| 1 <= j < i && j < chain@.len() ==> #[trigger] link_holds(chain_view(chain@), j),
        decreases chain.len() - i,
    {
        let linked: bool = chain[i].previous_hash == chain[i - 1].hash;
        if !linked {
            return Some(i);
        }
        i = i + 1;
    }
    None
}

/// Reports whether the chain is linked. The chain is not changed.
pub fn verify_chain(chain: &[Block]) -> (valid: bool)
    ensures
        valid == is_linked(chain_view(chain@)),
{
    let broken: Option<usize> = first_broken_link(chain);
    proof {
        link_report_is_unique(chain_view(chain@), broken, broken);
    }
    broken.is_none()
}

/// Cuts the chain at the first break of its linkage: the blocks before the
/// break stay, the block at the break and all after it are dropped. Returns the
/// position of the break, if there was one.
pub fn truncate_at_break(chain: &mut Vec<Block>) -> (cut: Option<usize>)
    ensures
        is_link_report(chain_view(old(chain)@), cut),
        match cut {
            Some(i) => final(chain)@ == old(chain)@.take(i as int),
            None => final(chain)@ == old(chain)@,
        },
        is_linked(chain_view(final(chain)@)),
{
    let cut: Option<usize> = first_broken_link(chain.as_slice());
    match cut {
        Some(i) => {
            chain.truncate(i);
            proof {
                let before = chain_view(old(chain)@);
                let after = chain_view(chain@);
                assert forall|j: int| 1 <= j < after.len() implies #[trigger] link_holds(
                    after,
                    j,
                ) by {
                    assert(link_holds(before, j));
                }
            }
        },
        None => {},
    }
    cut
}

/// Finds the first position whose block fails the strict check, if there is one.
pub fn first_invalid_block(chain: &[Block], min_difficulty: usize) -> (invalid: Option<usize>)
    ensures
        is_strict_report(chain_view(chain@), min_difficulty as nat, invalid),
{
    let mut i: usize = 0;
    while i < chain.len()
        invariant
            forall|j: int|
                0 <= j < i && j < chain@.len() ==> #[trigger] block_is_valid(
                    chain_view(chain@),
                    j,
                    min_difficulty as nat,
                ),
        decreases chain.len() - i,
    {
        let sealed: bool = chain[i].is_sealed();
        let hard: bool = has_leading_zeros(chain[i].hash.as_str(), min_difficulty);
        let linked: bool = i == 0 || chain[i].previous_hash == chain[i - 1].hash;
        if !(sealed && hard && linked) {
            return Some(i);
        }
        i = i + 1;
    }
    None
}

/// Reports whether every block passes the strict check. The chain is not changed.
pub fn verify_chain_strict(chain: &[Block], min_difficulty: usize) -> (valid: bool)
    ensures
        valid == is_strictly_valid(chain_view(chain@), min_difficulty as nat),
{
    let invalid: Option<usize> = first_invalid_block(chain, min_difficulty);
    proof {
        strict_report_is_unique(chain_view(chain@), min_difficulty as nat, invalid, invalid);
    }
    invalid.is_none()
}

/// The linkage check has one answer for a chain: checking twice, with nothing
/// changed in between, reports the same. A break is reported of no linked
/// chain.
pub proof fn link_report_is_unique(
    chain: Seq<BlockView>,
    first: Option<usize>,
    second: Option<usize>,
)
    requires
        is_link_report(chain, first),
        is_link_report(chain, second),
    ensures
        first == second,
        first is None <==> is_linked(chain),
{
    if let Some(i) = first {
        assert(!link_holds(chain, i as int));
    }
    if let Some(j) = second {
        assert(!link_holds(chain, j as int));
    }
}

/// The strict check has one answer for a chain and a minimum difficulty.
pub proof fn strict_report_is_unique(
    chain: Seq<BlockView>,
    min_difficulty: nat,
    first: Option<usize>,
    second: Option<usize>,
)
    requires
        is_strict_report(chain, min_difficulty, first),
        is_strict_report(chain, min_difficulty, second),
    ensures
        first == second,
        first is None <==> is_strictly_valid(chain, min_difficulty),
{
    if let Some(i) = first {
        assert(!block_is_valid(chain, i as int, min_difficulty));
    }
    if let Some(j) = second {
        assert(!block_is_valid(chain, j as int, min_difficulty));
    }
}

/// A chain of no block or of one block is linked.
pub proof fn short_chain_is_linked(chain: Seq<BlockView>)
    requires
        chain.len() <= 1,
    ensures
        is_linked(chain),
{
}

/// A linked chain stays linked when a block that names its last block is put
/// at its end; so does an empty chain with any block.
pub proof fn linkage_extends(chain: Seq<BlockView>, block: BlockView)
    requires
        is_linked(chain),
        chain.len() > 0 ==> block.follows(chain.last()),
    ensures
        is_linked(chain.push(block)),
{
    let longer = chain.push(block);
    assert forall|i: int| 1 <= i < longer.len() implies #[trigger] link_holds(longer, i) by {
        if i < chain.len() {
            assert(link_holds(chain, i));
        }
    }
}

/// Every beginning of a linked chain is linked.
pub proof fn linkage_of_prefix(chain: Seq<BlockView>, n: int)
    requires
        is_linked(chain),
        0 <= n <= chain.len(),
    ensures
        is_linked(chain.take(n)),
{
    let prefix = chain.take(n);
    assert forall|i: int| 1 <= i < prefix.len() implies #[trigger] link_holds(prefix, i) by {
        assert(link_holds(chain, i));
    }
}

/// A strictly valid chain is linked.
pub proof fn strict_implies_linked(chain: Seq<BlockView>, min_difficulty: nat)
    requires
        is_strictly_valid(chain, min_difficulty),
    ensures
        is_linked(chain),
{
    assert forall|i: int| 1 <= i < chain.len() implies #[trigger] link_holds(chain, i) by {
        assert(block_is_valid(chain, i, min_difficulty));
    }
}

/// Tampering is detected: a chain that holds a block whose stored hash is not
/// the digest of its fields fails the strict check, whatever the difficulty.
pub proof fn tampering_is_flagged(chain: Seq<BlockView>, i: int, min_difficulty: nat)
    requires
        0 <= i < chain.len(),
        chain[i].hash != chain[i].digest(),
    ensures
        !is_strictly_valid(chain, min_difficulty),
{
    assert(!block_is_valid(chain, i, min_difficulty));
}

} // verus!
