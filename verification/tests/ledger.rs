use proptest::strategy::{Strategy, ValueTree};
use proptest::test_runner::TestRunner;
use zebra_ledger::block::genesis_previous_block_hash;
use zebra_ledger::ledger::{LedgerState, LedgerStateOverride};
use zebra_ledger::parameters::{Height, Network, NetworkUpgrade, MAX_HEIGHT};

fn samples(strategy: proptest::strategy::BoxedStrategy<LedgerState>, n: usize) -> Vec<LedgerState> {
    let mut runner = TestRunner::deterministic();
    (0..n)
        .map(|_| strategy.new_tree(&mut runner).unwrap().current())
        .collect()
}

#[test]
fn default_override_forces_nothing() {
    let ledger_override = LedgerStateOverride::default();
    // NU5 has an activation height on the default network, so it is not forced.
    assert_eq!(ledger_override.network_upgrade_override, None);
    // The default strategy arbitrarily skips some coinbase transactions.
    assert!(!ledger_override.always_has_coinbase);
    assert_eq!(ledger_override.height_override, None);
    assert!(ledger_override.previous_block_hash_override.is_none());
}

#[test]
fn default_ledger_state_is_at_most_recent_activation() {
    let state = LedgerState::default();
    assert_eq!(state.height, Height(1_687_104));
    assert_eq!(state.network, Network::Mainnet);
    assert_eq!(state.network_upgrade(), NetworkUpgrade::Nu5);
    assert_eq!(state.network_upgrade_override(), None);
    assert!(!state.has_coinbase());
    assert!(state.previous_block_hash_override().is_none());
}

#[test]
fn override_constructors() {
    let none = LedgerStateOverride::no_override();
    assert_eq!(none.network_upgrade_override, None);
    assert!(!none.always_has_coinbase);

    let upgrade = LedgerStateOverride::network_upgrade(NetworkUpgrade::Sapling);
    assert_eq!(upgrade.network_upgrade_override, Some(NetworkUpgrade::Sapling));
    assert!(!upgrade.always_has_coinbase);

    let coinbase = LedgerStateOverride::coinbase(Some(NetworkUpgrade::Canopy));
    assert_eq!(coinbase.network_upgrade_override, Some(NetworkUpgrade::Canopy));
    assert!(coinbase.always_has_coinbase);
    assert_eq!(coinbase.height_override, None);

    let genesis = LedgerStateOverride::genesis(None);
    assert_eq!(genesis.height_override, Some(Height(0)));
    assert!(genesis.always_has_coinbase);
    assert_eq!(genesis.previous_block_hash_override.unwrap().0, [0u8; 32]);
}

#[test]
fn from_sample_without_overrides_takes_the_sample() {
    let state = LedgerState::from_sample(
        LedgerStateOverride::no_override(),
        (1_000_000, Network::Testnet, false, true),
    );
    assert_eq!(state.height, Height(1_000_000));
    assert_eq!(state.network, Network::Testnet);
    assert_eq!(state.network_upgrade_override(), None);
    assert_eq!(state.network_upgrade(), NetworkUpgrade::Heartwood);
    assert!(state.has_coinbase());
    assert!(state.previous_block_hash_override().is_none());
}

#[test]
fn from_sample_applies_every_override() {
    let state = LedgerState::from_sample(
        LedgerStateOverride::genesis(Some(NetworkUpgrade::Blossom)),
        (1_000_000, Network::Mainnet, true, false),
    );
    assert_eq!(state.height, Height(0));
    assert_eq!(state.network_upgrade(), NetworkUpgrade::Blossom);
    assert!(state.has_coinbase());
    assert_eq!(state.previous_block_hash_override().unwrap().0, [0u8; 32]);
}

#[test]
fn from_sample_forces_nu5_when_sampled() {
    let state = LedgerState::from_sample(
        LedgerStateOverride::no_override(),
        (10, Network::Mainnet, true, false),
    );
    assert_eq!(state.network_upgrade_override(), Some(NetworkUpgrade::Nu5));
    assert_eq!(state.network_upgrade(), NetworkUpgrade::Nu5);
    assert!(!state.has_coinbase());
}

#[test]
fn genesis_strategy_starts_at_genesis() {
    for state in samples(LedgerState::genesis_strategy(None), 64) {
        assert_eq!(state.height, Height(0));
        assert!(state.has_coinbase());
        assert_eq!(
            state.previous_block_hash_override().unwrap().0,
            genesis_previous_block_hash().0
        );
        let upgrade = state.network_upgrade();
        assert!(upgrade == NetworkUpgrade::Genesis || upgrade == NetworkUpgrade::Nu5);
    }
}

#[test]
fn genesis_strategy_with_genesis_upgrade() {
    for state in samples(LedgerState::genesis_strategy(NetworkUpgrade::Genesis), 32) {
        assert_eq!(state.network_upgrade(), NetworkUpgrade::Genesis);
    }
}

#[test]
fn network_upgrade_strategy_ignores_height_and_network() {
    for state in samples(LedgerState::network_upgrade_strategy(NetworkUpgrade::Sapling), 64) {
        assert_eq!(state.network_upgrade(), NetworkUpgrade::Sapling);
        assert!(state.height.0 <= MAX_HEIGHT);
        assert!(state.previous_block_hash_override().is_none());
    }
}

#[test]
fn coinbase_strategy_always_has_coinbase() {
    for state in samples(LedgerState::coinbase_strategy(NetworkUpgrade::Canopy), 64) {
        assert!(state.has_coinbase());
        assert_eq!(state.network_upgrade(), NetworkUpgrade::Canopy);
    }
    for state in samples(LedgerState::coinbase_strategy(None), 64) {
        assert!(state.has_coinbase());
    }
}

#[test]
fn default_and_no_override_strategies_sample_heights() {
    let defaults = samples(LedgerState::default_strategy(), 128);
    assert!(defaults.iter().all(|s| s.height.0 <= MAX_HEIGHT));
    // The default strategy arbitrarily skips some coinbase transactions.
    assert!(defaults.iter().any(|s| s.has_coinbase()));
    assert!(defaults.iter().any(|s| !s.has_coinbase()));
    let free = samples(LedgerState::no_override_strategy(), 128);
    assert!(free.iter().all(|s| s.height.0 <= MAX_HEIGHT));
    assert!(free.iter().any(|s| !s.has_coinbase()));
    assert!(free.iter().any(|s| s.network == Network::Testnet));
    assert!(free.iter().any(|s| s.network == Network::Mainnet));
}

#[test]
fn height_and_network_getters() {
    let state = LedgerState::from_sample(
        LedgerStateOverride::no_override(),
        (42, Network::Testnet, false, false),
    );
    assert_eq!(state.height(), Height(42));
    assert_eq!(state.network(), Network::Testnet);
}

#[test]
fn genesis_strategy_with_explicit_none() {
    let none: Option<NetworkUpgrade> = None;
    for state in samples(LedgerState::genesis_strategy(none), 64) {
        assert_eq!(state.height(), Height(0));
        let upgrade = state.network_upgrade();
        assert!(upgrade == NetworkUpgrade::Genesis || upgrade == NetworkUpgrade::Nu5);
    }
}
