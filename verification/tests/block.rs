use proptest::strategy::{Strategy, ValueTree};
use proptest::test_runner::TestRunner;
use sha2::{Digest, Sha256};
use zebra_ledger::block::{Block, Header, SOLUTION_SIZE};
use zebra_ledger::ledger::{LedgerState, LedgerStateOverride};
use zebra_ledger::parameters::{Height, Network};

fn header(version: u32, previous: [u8; 32], nonce_byte: u8) -> Header {
    Header {
        version,
        previous_block_hash: zebra_ledger::block::Hash(previous),
        merkle_root: [1u8; 32],
        commitment_bytes: [2u8; 32],
        time: 0x0102_0304,
        difficulty_threshold: 0x1f07_ffff,
        nonce: [nonce_byte; 32],
        solution: vec![9u8; SOLUTION_SIZE],
    }
}

fn ledger_at(height: u32) -> LedgerState {
    LedgerState::from_sample(
        LedgerStateOverride::no_override(),
        (height, Network::Mainnet, false, false),
    )
}

#[test]
fn genesis_previous_block_hash_is_zero() {
    assert_eq!(zebra_ledger::block::genesis_previous_block_hash().0, [0u8; 32]);
}

#[test]
fn header_serialization_layout() {
    let bytes = header(4, [7u8; 32], 5).zcash_serialize();
    assert_eq!(bytes.len(), 4 + 32 * 4 + 4 * 2 + 3 + SOLUTION_SIZE);
    assert_eq!(bytes.len(), 1487);
    assert_eq!(&bytes[0..4], &[4, 0, 0, 0]);
    assert_eq!(&bytes[4..36], &[7u8; 32]);
    assert_eq!(&bytes[36..68], &[1u8; 32]);
    assert_eq!(&bytes[68..100], &[2u8; 32]);
    assert_eq!(&bytes[100..104], &[4, 3, 2, 1]);
    assert_eq!(&bytes[104..108], &[0xff, 0xff, 0x07, 0x1f]);
    assert_eq!(&bytes[108..140], &[5u8; 32]);
    assert_eq!(&bytes[140..143], &[0xfd, 0x40, 0x05]);
    assert!(bytes[143..].iter().all(|b| *b == 9));
}

#[test]
fn compact_size_of_short_and_long_solutions() {
    let mut short = header(4, [0u8; 32], 0);
    short.solution = vec![3u8; 252];
    let bytes = short.zcash_serialize();
    assert_eq!(bytes[140], 252);
    assert_eq!(bytes.len(), 140 + 1 + 252);

    let mut long = header(4, [0u8; 32], 0);
    long.solution = vec![3u8; 70_000];
    let bytes = long.zcash_serialize();
    assert_eq!(&bytes[140..145], &[0xfe, 0x70, 0x11, 0x01, 0x00]);
}

#[test]
fn block_hash_is_double_sha256_of_header() {
    let block = Block::new(header(5, [3u8; 32], 8));
    let bytes = block.header.zcash_serialize();
    let expected: [u8; 32] = Sha256::digest(Sha256::digest(&bytes)).into();
    assert_eq!(block.hash().0, expected);
    assert_eq!(block.header.hash().0, expected);
    assert_ne!(block.hash().0, [3u8; 32]);
}

#[test]
fn header_from_sample_previous_hash_choice() {
    let sample = |prev: [u8; 32]| {
        (6u32, prev, [1u8; 32], [2u8; 32], 10u32, 11u32, [4u8; 32], vec![0u8; 4])
    };
    // Height zero without an override: the genesis previous block hash.
    let h = Header::from_sample(ledger_at(0), sample([9u8; 32]));
    assert_eq!(h.previous_block_hash.0, [0u8; 32]);
    // Any other height: the sampled hash.
    let h = Header::from_sample(ledger_at(1), sample([9u8; 32]));
    assert_eq!(h.previous_block_hash.0, [9u8; 32]);
    assert_eq!(h.version, 6);
    assert_eq!(h.time, 10);
    assert_eq!(h.difficulty_threshold, 11);
    assert_eq!(h.solution, vec![0u8; 4]);
    // An override wins at every height.
    let genesis = LedgerState::from_sample(
        LedgerStateOverride::genesis(None),
        (77, Network::Testnet, false, false),
    );
    let h = Header::from_sample(genesis, sample([9u8; 32]));
    assert_eq!(h.previous_block_hash.0, [0u8; 32]);
}

#[test]
fn link_previous_hashes_chains_blocks() {
    let blocks = vec![
        Block::new(header(4, [7u8; 32], 1)),
        Block::new(header(4, [7u8; 32], 2)),
        Block::new(header(4, [7u8; 32], 3)),
    ];
    let chain = Block::link_previous_hashes(blocks);
    assert_eq!(chain.len(), 3);
    assert_eq!(chain[0].header.previous_block_hash.0, [7u8; 32]);
    assert_eq!(chain[1].header.previous_block_hash.0, chain[0].hash().0);
    assert_eq!(chain[2].header.previous_block_hash.0, chain[1].hash().0);
    assert_eq!(chain[2].header.nonce, [3u8; 32]);
}

#[test]
fn link_previous_hashes_of_nothing() {
    assert!(Block::link_previous_hashes(Vec::new()).is_empty());
}

#[test]
fn partial_chain_ledger_states_increase_height() {
    let current = LedgerState::from_sample(
        LedgerStateOverride::coinbase(None),
        (100, Network::Testnet, false, false),
    );
    let states = Block::partial_chain_ledger_states(current, 4);
    assert_eq!(states.len(), 4);
    for (i, state) in states.iter().enumerate() {
        assert_eq!(state.height, Height(100 + i as u32));
        assert_eq!(state.network, Network::Testnet);
        assert!(state.has_coinbase());
    }
    assert!(Block::partial_chain_ledger_states(current, 0).is_empty());
}

#[test]
fn partial_chain_strategy_generates_linked_chains() {
    let mut runner = TestRunner::deterministic();
    let strategy = Block::partial_chain_strategy(ledger_at(1), 5);
    for _ in 0..4 {
        let chain = strategy.new_tree(&mut runner).unwrap().current();
        assert_eq!(chain.len(), 5);
        for i in 1..chain.len() {
            assert_eq!(chain[i].header.previous_block_hash.0, chain[i - 1].hash().0);
        }
        for block in chain.iter() {
            assert_eq!(block.header.solution.len(), SOLUTION_SIZE);
            assert!(block.header.version >= 4 && block.header.version < i32::MAX as u32);
        }
    }
}

#[test]
fn genesis_chain_starts_at_genesis_hash() {
    let mut runner = TestRunner::deterministic();
    let genesis = LedgerState::from_sample(
        LedgerStateOverride::genesis(None),
        (5, Network::Mainnet, false, false),
    );
    let chain = Block::partial_chain_strategy(genesis, 3)
        .new_tree(&mut runner)
        .unwrap()
        .current();
    assert_eq!(chain[0].header.previous_block_hash.0, [0u8; 32]);
    assert_eq!(chain[1].header.previous_block_hash.0, chain[0].hash().0);
}

#[test]
fn header_and_block_strategies_follow_genesis() {
    let mut runner = TestRunner::deterministic();
    let header = Header::arbitrary_with(ledger_at(0)).new_tree(&mut runner).unwrap().current();
    assert_eq!(header.previous_block_hash.0, [0u8; 32]);
    let block = Block::arbitrary_with(ledger_at(0)).new_tree(&mut runner).unwrap().current();
    assert_eq!(block.header.previous_block_hash.0, [0u8; 32]);
}
