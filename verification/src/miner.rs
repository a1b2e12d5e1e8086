//! Proof of work: the search for a nonce whose digest begins with enough zeros.

use crate::block::{Block, BlockView};
use crate::clock::{millis_since, stopwatch, unix_time};
use crate::hasher::{block_hash, calculate_hash};
use std::time::Instant;
use vstd::prelude::*;
use vstd::string::StrSliceExecFns;

verus! {

/// The difficulty predicate: `digest` begins with `difficulty` characters `'0'`.
pub open spec fn meets_difficulty(digest: Seq<char>, difficulty: nat) -> bool {
    &&& difficulty <= digest.len()
    &&& forall|i: int| 0 <= i < difficulty ==> digest[i] == '0'
}

/// With `nonce`, a block of these fields has a digest that meets `difficulty`.
pub open spec fn solves(
    index: u64,
    timestamp: u64,
    data: Seq<char>,
    previous_hash: Seq<char>,
    difficulty: nat,
    nonce: u64,
) -> bool {
    meets_difficulty(block_hash(index, timestamp, data, nonce, previous_hash), difficulty)
}

/// No nonce `n` with `first <= n < end` solves.
pub open spec fn none_solves(
    index: u64,
    timestamp: u64,
    data: Seq<char>,
    previous_hash: Seq<char>,
    difficulty: nat,
    first: int,
    end: int,
) -> bool {
    forall|n: u64|
        first <= n < end ==> !#[trigger] solves(
            index,
            timestamp,
            data,
            previous_hash,
            difficulty,
            n,
        )
}

/// No nonce that fits in 64 bits solves.
pub open spec fn unsolvable(
    index: u64,
    timestamp: u64,
    data: Seq<char>,
    previous_hash: Seq<char>,
    difficulty: nat,
) -> bool {
    none_solves(index, timestamp, data, previous_hash, difficulty, 0, u64::MAX + 1)
}

/// For some timestamp, no nonce that fits in 64 bits solves.
pub open spec fn unsolvable_at_some_time(
    index: u64,
    data: Seq<char>,
    previous_hash: Seq<char>,
    difficulty: nat,
) -> bool {
    exists|timestamp: u64| #[trigger] unsolvable(index, timestamp, data, previous_hash, difficulty)
}

/// `block` is what mining gives for these inputs: it carries them, its hash is
/// the digest of its fields and meets `difficulty`, and its nonce is the least
/// that does so for the block's timestamp.
pub open spec fn mined_from(
    block: BlockView,
    index: u64,
    data: Seq<char>,
    previous_hash: Seq<char>,
    difficulty: nat,
) -> bool {
    &&& block.index == index
    &&& block.data == data
    &&& block.previous_hash == previous_hash
    &&& block.is_sealed()
    &&& meets_difficulty(block.hash, difficulty)
    &&& none_solves(index, block.timestamp, data, previous_hash, difficulty, 0, block.nonce as int)
}

/// Why mining gave no block.
#[derive(Debug, Clone, Copy, PartialEq, Eq, Structural)]
pub enum MineError {
    /// The system clock stands before the Unix epoch: there is no timestamp.
    ClockBeforeEpoch,
    /// No nonce that fits in 64 bits gives a digest that meets the difficulty.
    NonceSpaceExhausted,
}

/// Tests the difficulty predicate on a digest.
pub fn has_leading_zeros(digest: &str, difficulty: usize) -> (ok: bool)
    ensures
        ok == meets_difficulty(digest@, difficulty as nat),
{
    let len: usize = digest.unicode_len();
    if difficulty > len {
        return false;
    }
    let mut i: usize = 0;
    while i < difficulty
        invariant
            i <= difficulty <= len,
            len == digest@.len(),
            forall|j: int| 0 <= j < i ==> digest@[j] == '0',
        decreases difficulty - i,
    {
        if digest.get_char(i) != '0' {
            return false;
        }
        i = i + 1;
    }
    true
}

/// Searches the nonces from `first` to `last`, both included, in ascending
/// order, and returns the first that solves, with its digest. A search that
/// found nothing can be taken up again at `last + 1`.
pub fn find_nonce(
    index: u64,
    timestamp: u64,
    data: &str,
    previous_hash: &str,
    difficulty: usize,
    first: u64,
    last: u64,
) -> (found: Option<(u64, String)>)
    ensures
        match found {
            Some((nonce, digest)) => {
                &&& first <= nonce <= last
                &&& digest@ == block_hash(index, timestamp, data@, nonce, previous_hash@)
                &&& meets_difficulty(digest@, difficulty as nat)
                &&& none_solves(
                    index,
                    timestamp,
                    data@,
                    previous_hash@,
                    difficulty as nat,
                    first as int,
                    nonce as int,
                )
            },
            None => none_solves(
                index,
                timestamp,
                data@,
                previous_hash@,
                difficulty as nat,
                first as int,
                last + 1,
            ),
        },
{
    if first > last {
        return None;
    }
    let mut nonce: u64 = first;
    loop
        invariant
            first <= nonce <= last,
            none_solves(
                index,
                timestamp,
                data@,
                previous_hash@,
                difficulty as nat,
                first as int,
                nonce as int,
            ),
        decreases last - nonce,
    {
        let digest: String = calculate_hash(index, timestamp, data, nonce, previous_hash);
        if has_leading_zeros(digest.as_str(), difficulty) {
            return Some((nonce, digest));
        }
        if nonce == last {
            return None;
        }
        nonce = nonce + 1;
    }
}

/// Mines a block whose timestamp is the clock reading `clock`: searches the
/// nonces from 0 up to `last_nonce` and seals the block with the first that
/// solves. At difficulty 0 that is nonce 0.
pub fn mine_block_at(
    clock: Option<u64>,
    index: u64,
    data: &str,
    previous_hash: &str,
    difficulty: usize,
    last_nonce: u64,
) -> (mined: Result<Block, MineError>)
    ensures
        match mined {
            Ok(block) => {
                &&& clock == Some(block.timestamp)
                &&& block.nonce <= last_nonce
                &&& mined_from(block@, index, data@, previous_hash@, difficulty as nat)
            },
            Err(MineError::ClockBeforeEpoch) => clock is None,
            Err(MineError::NonceSpaceExhausted) => {
                &&& clock matches Some(timestamp)
                &&& none_solves(
                    index,
                    timestamp,
                    data@,
                    previous_hash@,
                    difficulty as nat,
                    0,
                    last_nonce + 1,
                )
            },
        },
        clock is Some && difficulty == 0 ==> mined is Ok && mined->Ok_0.nonce == 0,
{
    let timestamp: u64 = match clock {
        Some(seconds) => seconds,
        None => {
            return Err(MineError::ClockBeforeEpoch);
        },
    };
    let start: Instant = stopwatch();
    match find_nonce(index, timestamp, data, previous_hash, difficulty, 0, last_nonce) {
        Some((nonce, hash)) => {
            let elapsed: u128 = millis_since(&start);
            proof {
                if difficulty == 0 && nonce > 0 {
                    assert(solves(index, timestamp, data@, previous_hash@, 0, 0));
                }
            }
            Ok(
                Block {
                    index,
                    timestamp,
                    data: data.to_owned(),
                    nonce,
                    previous_hash: previous_hash.to_owned(),
                    hash,
                    mining_duration_ms: elapsed,
                },
            )
        },
        None => {
            proof {
                if difficulty == 0 {
                    assert(solves(index, timestamp, data@, previous_hash@, 0, 0));
                }
            }
            Err(MineError::NonceSpaceExhausted)
        },
    }
}

/// Mines a block: reads the timestamp from the system clock once, then
/// searches all nonces from 0 upwards.
pub fn mine_block(index: u64, data: &str, previous_hash: &str, difficulty: usize) -> (mined:
    Result<Block, MineError>)
    ensures
        match mined {
            Ok(block) => mined_from(block@, index, data@, previous_hash@, difficulty as nat),
            Err(MineError::ClockBeforeEpoch) => true,
            Err(MineError::NonceSpaceExhausted) => unsolvable_at_some_time(
                index,
                data@,
                previous_hash@,
                difficulty as nat,
            ),
        },
{
    let clock: Option<u64> = unix_time();
    let mined = mine_block_at(clock, index, data, previous_hash, difficulty, u64::MAX);
    proof {
        if let Err(MineError::NonceSpaceExhausted) = mined {
            assert(unsolvable(index, clock->Some_0, data@, previous_hash@, difficulty as nat));
        }
    }
    mined
}

/// The least nonce that solves is one nonce: two blocks mined from the same
/// inputs at the same time carry the same nonce and the same hash.
pub proof fn mined_block_is_determined(
    first: BlockView,
    second: BlockView,
    index: u64,
    data: Seq<char>,
    previous_hash: Seq<char>,
    difficulty: nat,
)
    requires
        mined_from(first, index, data, previous_hash, difficulty),
        mined_from(second, index, data, previous_hash, difficulty),
        first.timestamp == second.timestamp,
    ensures
        first.nonce == second.nonce,
        first.hash == second.hash,
{
    if first.nonce < second.nonce {
        assert(solves(index, first.timestamp, data, previous_hash, difficulty, first.nonce));
    } else if second.nonce < first.nonce {
        assert(solves(index, first.timestamp, data, previous_hash, difficulty, second.nonce));
    }
}

/// A digest that meets a difficulty meets every lesser one.
pub proof fn lesser_difficulty_is_met(digest: Seq<char>, difficulty: nat, lesser: nat)
    requires
        meets_difficulty(digest, difficulty),
        lesser <= difficulty,
    ensures
        meets_difficulty(digest, lesser),
{
}

} // verus!
