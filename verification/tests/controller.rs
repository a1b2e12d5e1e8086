use mchain::block::{Block, BlockSummary};
use mchain::controller::{
    block_data, bootstrap, bootstrap_at, effective_difficulty, extend, extend_at, list_blocks,
    next_order, reset, ExtendError,
};
use mchain::hasher::calculate_hash;
use mchain::miner::{has_leading_zeros, MineError};
use mchain::validator::{verify_chain, verify_chain_strict};

fn block_at(index: u64, hash: &str) -> Block {
    Block {
        index,
        timestamp: 1700000000,
        data: String::from("data"),
        nonce: 11,
        previous_hash: String::from("0"),
        hash: hash.to_string(),
        mining_duration_ms: 250,
    }
}

#[test]
fn difficulty_escalation() {
    for base in [0usize, 1, 5, 40] {
        assert_eq!(effective_difficulty(base, 0), Some(base));
        assert_eq!(effective_difficulty(base, 1), Some(base));
        assert_eq!(effective_difficulty(base, 2), Some(base + 1));
        assert_eq!(effective_difficulty(base, 3), Some(base + 1));
        assert_eq!(effective_difficulty(base, 4), Some(base + 2));
    }
    assert_eq!(effective_difficulty(5, 1001), Some(505));
}

#[test]
fn difficulty_never_falls() {
    let mut before = effective_difficulty(3, 0).expect("a size");
    for index in 1..200u64 {
        let now = effective_difficulty(3, index).expect("a size");
        assert!(now >= before);
        assert!(now - before <= 1);
        before = now;
    }
}

#[test]
fn difficulty_beyond_any_size() {
    assert_eq!(effective_difficulty(usize::MAX, 1), Some(usize::MAX));
    assert_eq!(effective_difficulty(usize::MAX, 2), None);
    assert_eq!(effective_difficulty(usize::MAX - 1, 3), Some(usize::MAX));
    assert_eq!(effective_difficulty(usize::MAX - 1, 4), None);
}

#[test]
fn payload_carries_the_index() {
    assert_eq!(block_data("MChain data", 1), "MChain data #1");
    assert_eq!(block_data("", 0), " #0");
    assert_eq!(block_data("x", u64::MAX), "x #18446744073709551615");
}

#[test]
fn order_for_the_next_block() {
    let last = block_at(3, "00abc");
    let order = next_order(&last, 2, "MChain data").expect("an order");
    assert_eq!(order.index, 4);
    assert_eq!(order.data, "MChain data #4");
    assert_eq!(order.previous_hash, "00abc");
    assert_eq!(order.difficulty, 4);
}

#[test]
fn order_after_the_largest_index() {
    let last = block_at(u64::MAX, "00abc");
    assert_eq!(next_order(&last, 2, "d").err(), Some(ExtendError::IndexOverflow));
}

#[test]
fn order_at_a_difficulty_beyond_any_size() {
    let last = block_at(1, "00abc");
    assert_eq!(next_order(&last, usize::MAX, "d").err(), Some(ExtendError::DifficultyOverflow));
}

#[test]
fn extending_an_empty_chain_fails() {
    let mut chain: Vec<Block> = Vec::new();
    assert_eq!(extend(&mut chain, 1, "d"), Err(ExtendError::EmptyChain));
    assert!(chain.is_empty());
}

#[test]
fn extending_past_the_largest_index_fails() {
    let mut chain = vec![block_at(u64::MAX, "00abc")];
    assert_eq!(extend(&mut chain, 1, "d"), Err(ExtendError::IndexOverflow));
    assert_eq!(chain.len(), 1);
}

#[test]
fn extending_at_a_difficulty_beyond_any_size_fails() {
    let mut chain = vec![block_at(1, "00abc")];
    assert_eq!(extend(&mut chain, usize::MAX, "d"), Err(ExtendError::DifficultyOverflow));
    assert_eq!(chain.len(), 1);
}

#[test]
fn bootstrap_makes_a_genesis_block() {
    let mut chain: Vec<Block> = Vec::new();
    assert_eq!(bootstrap(&mut chain, 1), Ok(true));
    assert_eq!(chain.len(), 1);
    assert_eq!(chain[0].index, 0);
    assert_eq!(chain[0].data, "Genesis Block");
    assert_eq!(chain[0].previous_hash, "0");
    assert!(has_leading_zeros(&chain[0].hash, 1));
    assert!(chain[0].is_sealed());
}

#[test]
fn bootstrap_leaves_a_chain_with_blocks_alone() {
    let mut chain = vec![block_at(0, "00abc")];
    assert_eq!(bootstrap(&mut chain, 1), Ok(false));
    assert_eq!(chain.len(), 1);
    assert_eq!(chain[0].hash, "00abc");
}

#[test]
fn linkage_of_an_extended_chain() {
    let mut chain: Vec<Block> = Vec::new();
    assert_eq!(bootstrap(&mut chain, 0), Ok(true));
    for _ in 0..5 {
        assert_eq!(extend(&mut chain, 0, "MChain data"), Ok(()));
    }
    assert_eq!(chain.len(), 6);
    for i in 1..chain.len() {
        assert_eq!(chain[i].previous_hash, chain[i - 1].hash);
        assert_eq!(chain[i].index, i as u64);
        assert_eq!(chain[i].data, format!("MChain data #{}", i));
    }
    assert!(verify_chain(&chain));
    assert!(verify_chain_strict(&chain, 0));
}

#[test]
fn extended_blocks_meet_the_escalated_difficulty() {
    let mut chain: Vec<Block> = Vec::new();
    assert_eq!(bootstrap(&mut chain, 1), Ok(true));
    for _ in 0..3 {
        assert_eq!(extend(&mut chain, 1, "d"), Ok(()));
    }
    assert!(has_leading_zeros(&chain[0].hash, 1));
    assert!(has_leading_zeros(&chain[1].hash, 1));
    assert!(has_leading_zeros(&chain[2].hash, 2));
    assert!(has_leading_zeros(&chain[3].hash, 2));
    for block in &chain {
        assert_eq!(
            block.hash,
            calculate_hash(
                block.index,
                block.timestamp,
                &block.data,
                block.nonce,
                &block.previous_hash
            )
        );
    }
    assert!(verify_chain_strict(&chain, 1));
}

#[test]
fn listing_shows_each_block_in_order() {
    let chain = vec![block_at(0, "00aa"), block_at(1, "00bb"), block_at(2, "00cc")];
    let summaries: Vec<BlockSummary> = list_blocks(&chain);
    assert_eq!(summaries.len(), 3);
    for (i, summary) in summaries.iter().enumerate() {
        assert_eq!(summary.index, i as u64);
        assert_eq!(summary.nonce, 11);
        assert_eq!(summary.mining_duration_ms, 250);
        assert_eq!(summary.hash, chain[i].hash);
    }
}

#[test]
fn listing_twice_gives_the_same() {
    let chain = vec![block_at(0, "00aa"), block_at(1, "00bb")];
    let first: Vec<String> = list_blocks(&chain).iter().map(|s| s.to_line()).collect();
    let second: Vec<String> = list_blocks(&chain).iter().map(|s| s.to_line()).collect();
    assert_eq!(first, second);
    assert_eq!(chain.len(), 2);
}

#[test]
fn listing_of_an_empty_chain_is_empty() {
    let chain: Vec<Block> = Vec::new();
    assert!(list_blocks(&chain).is_empty());
}

#[test]
fn summary_line_of_a_block() {
    let block = block_at(7, "00aa");
    assert_eq!(block.summary().to_line(), "Block 7 | Time: 250ms | Nonce: 11 | Hash: 00aa");
    let large = BlockSummary {
        index: u64::MAX,
        nonce: 0,
        mining_duration_ms: u128::MAX,
        hash: String::new(),
    };
    assert_eq!(
        large.to_line(),
        "Block 18446744073709551615 | Time: 340282366920938463463374607431768211455ms | Nonce: 0 | Hash: "
    );
}

#[test]
fn reset_clears_the_chain() {
    let mut chain = vec![block_at(0, "00aa"), block_at(1, "00bb")];
    reset(&mut chain);
    assert!(chain.is_empty());
    assert!(list_blocks(&chain).is_empty());
    assert_eq!(bootstrap(&mut chain, 0), Ok(true));
    assert_eq!(chain.len(), 1);
    assert_eq!(chain[0].index, 0);
    assert_eq!(chain[0].previous_hash, "0");
}

#[test]
fn reset_of_an_empty_chain() {
    let mut chain: Vec<Block> = Vec::new();
    reset(&mut chain);
    assert!(chain.is_empty());
}

#[test]
fn chain_grown_at_given_times() {
    let mut chain: Vec<Block> = Vec::new();
    assert_eq!(bootstrap_at(&mut chain, Some(1700000000), 1), Ok(true));
    for i in 1..5u64 {
        assert_eq!(extend_at(&mut chain, Some(1700000000 + i), 1, "MChain data"), Ok(()));
    }
    let nonces: Vec<u64> = chain.iter().map(|b| b.nonce).collect();
    assert_eq!(nonces, vec![12, 71, 6, 6, 3410]);
    let hashes: Vec<&str> = chain.iter().map(|b| b.hash.as_str()).collect();
    assert_eq!(
        hashes,
        vec![
            "0b2eb48d24094c4f8811b97f1cd6c78a226715a2a0a3bbbb39cc48856c2a1095",
            "0290ab1664440fa5df998c8edeb5069b90f2e917b42cc9c883afb4af4e4269c6",
            "009c0bb920f42c961857b632633f0586634b34baf43c9a63a0c2aafeb67c8470",
            "00cf484bdbf2bfb8325d4ea54c900ca567f23dbc67513691703232199563da09",
            "0006a1d8413deb33ced412424e2f7369836cfda116157b2d334042f13f4b3a3a",
        ]
    );
    for (i, block) in chain.iter().enumerate() {
        assert_eq!(block.index, i as u64);
        assert_eq!(block.timestamp, 1700000000 + i as u64);
    }
    assert_eq!(chain[0].data, "Genesis Block");
    assert_eq!(chain[0].previous_hash, "0");
    assert_eq!(chain[4].data, "MChain data #4");
    assert_eq!(chain[4].previous_hash, chain[3].hash);
    assert!(verify_chain_strict(&chain, 1));
}

#[test]
fn bootstrap_without_a_clock_reading_fails() {
    let mut chain: Vec<Block> = Vec::new();
    assert_eq!(bootstrap_at(&mut chain, None, 1), Err(MineError::ClockBeforeEpoch));
    assert!(chain.is_empty());
}

#[test]
fn bootstrap_at_a_given_time_leaves_a_chain_with_blocks_alone() {
    let mut chain = vec![block_at(0, "00abc")];
    assert_eq!(bootstrap_at(&mut chain, None, 1), Ok(false));
    assert_eq!(chain.len(), 1);
}

#[test]
fn extending_without_a_clock_reading_fails() {
    let mut chain = vec![block_at(0, "00abc")];
    assert_eq!(
        extend_at(&mut chain, None, 1, "d"),
        Err(ExtendError::Mining(MineError::ClockBeforeEpoch))
    );
    assert_eq!(chain.len(), 1);
}

#[test]
fn refusals_come_before_the_clock() {
    let mut empty: Vec<Block> = Vec::new();
    assert_eq!(extend_at(&mut empty, None, 1, "d"), Err(ExtendError::EmptyChain));
    let mut full = vec![block_at(u64::MAX, "00abc")];
    assert_eq!(extend_at(&mut full, None, 1, "d"), Err(ExtendError::IndexOverflow));
    let mut steep = vec![block_at(1, "00abc")];
    assert_eq!(extend_at(&mut steep, None, usize::MAX, "d"), Err(ExtendError::DifficultyOverflow));
}
