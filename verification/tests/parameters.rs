use zebra_ledger::parameters::{Height, Network, NetworkUpgrade, MAX_HEIGHT, MIN_HEIGHT};

#[test]
fn default_network_is_mainnet() {
    assert_eq!(Network::default(), Network::Mainnet);
}

#[test]
fn activation_heights_of_both_networks() {
    assert_eq!(
        NetworkUpgrade::Genesis.activation_height(Network::Mainnet),
        Some(Height(0))
    );
    assert_eq!(
        NetworkUpgrade::Overwinter.activation_height(Network::Mainnet),
        Some(Height(347_500))
    );
    assert_eq!(
        NetworkUpgrade::Heartwood.activation_height(Network::Testnet),
        Some(Height(903_800))
    );
    assert_eq!(
        NetworkUpgrade::Nu5.activation_height(Network::Mainnet),
        Some(Height(1_687_104))
    );
    assert_eq!(
        NetworkUpgrade::Nu5.activation_height(Network::Testnet),
        Some(Height(1_842_420))
    );
}

#[test]
fn current_upgrade_at_boundaries() {
    let mainnet = Network::Mainnet;
    assert_eq!(NetworkUpgrade::current(mainnet, Height(MIN_HEIGHT)), NetworkUpgrade::Genesis);
    assert_eq!(NetworkUpgrade::current(mainnet, Height(1)), NetworkUpgrade::BeforeOverwinter);
    assert_eq!(
        NetworkUpgrade::current(mainnet, Height(347_499)),
        NetworkUpgrade::BeforeOverwinter
    );
    assert_eq!(NetworkUpgrade::current(mainnet, Height(347_500)), NetworkUpgrade::Overwinter);
    assert_eq!(NetworkUpgrade::current(mainnet, Height(419_200)), NetworkUpgrade::Sapling);
    assert_eq!(NetworkUpgrade::current(mainnet, Height(653_599)), NetworkUpgrade::Sapling);
    assert_eq!(NetworkUpgrade::current(mainnet, Height(653_600)), NetworkUpgrade::Blossom);
    assert_eq!(NetworkUpgrade::current(mainnet, Height(903_000)), NetworkUpgrade::Heartwood);
    assert_eq!(NetworkUpgrade::current(mainnet, Height(1_046_400)), NetworkUpgrade::Canopy);
    assert_eq!(NetworkUpgrade::current(mainnet, Height(1_687_103)), NetworkUpgrade::Canopy);
    assert_eq!(NetworkUpgrade::current(mainnet, Height(1_687_104)), NetworkUpgrade::Nu5);
    assert_eq!(NetworkUpgrade::current(mainnet, Height(MAX_HEIGHT)), NetworkUpgrade::Nu5);

    let testnet = Network::Testnet;
    assert_eq!(NetworkUpgrade::current(testnet, Height(207_499)), NetworkUpgrade::BeforeOverwinter);
    assert_eq!(NetworkUpgrade::current(testnet, Height(280_000)), NetworkUpgrade::Sapling);
    assert_eq!(NetworkUpgrade::current(testnet, Height(1_842_419)), NetworkUpgrade::Canopy);
    assert_eq!(NetworkUpgrade::current(testnet, Height(1_842_420)), NetworkUpgrade::Nu5);
}

#[test]
fn current_upgrade_is_current_at_its_activation() {
    let upgrades = [
        NetworkUpgrade::Genesis,
        NetworkUpgrade::BeforeOverwinter,
        NetworkUpgrade::Overwinter,
        NetworkUpgrade::Sapling,
        NetworkUpgrade::Blossom,
        NetworkUpgrade::Heartwood,
        NetworkUpgrade::Canopy,
        NetworkUpgrade::Nu5,
    ];
    for network in [Network::Mainnet, Network::Testnet] {
        for upgrade in upgrades {
            let start = upgrade.activation_height(network).unwrap();
            assert_eq!(NetworkUpgrade::current(network, start), upgrade);
        }
    }
}

#[test]
fn current_upgrade_never_goes_backwards() {
    let order = |upgrade: NetworkUpgrade| upgrade as u8;
    for network in [Network::Mainnet, Network::Testnet] {
        let mut previous = NetworkUpgrade::Genesis;
        let mut height: u32 = 0;
        while height < 2_000_000 {
            let upgrade = NetworkUpgrade::current(network, Height(height));
            assert!(order(previous) <= order(upgrade));
            previous = upgrade;
            height += 997;
        }
    }
}
