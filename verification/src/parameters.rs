//! Network parameters: block heights, networks and the network upgrade
//! schedule of each network.

use vstd::prelude::*;

verus! {

/// The height of a block: the number of blocks below it in its chain.
#[derive(Clone, Copy, Debug, PartialEq, Eq, Structural, Hash)]
pub struct Height(pub u32);

/// The smallest height a block can have: the genesis block's height.
pub const MIN_HEIGHT: u32 = 0;

/// The largest height a block can have.
pub const MAX_HEIGHT: u32 = 499_999_999;

/// A Zcash network.
#[derive(Clone, Copy, Debug, PartialEq, Eq, Structural, Hash)]
pub enum Network {
    /// The production network.
    Mainnet,
    /// The test network.
    Testnet,
}

impl Default for Network {
    fn default() -> (network: Network)
        ensures
            network == Network::Mainnet,
    {
        Network::Mainnet
    }
}

/// A network upgrade: a set of consensus rules that starts at a height.
#[derive(Clone, Copy, Debug, PartialEq, Eq, Structural, Hash)]
pub enum NetworkUpgrade {
    Genesis,
    BeforeOverwinter,
    Overwinter,
    Sapling,
    Blossom,
    Heartwood,
    Canopy,
    Nu5,
}

impl NetworkUpgrade {
    /// The position of the upgrade in the sequence of upgrades, oldest first.
    pub open spec fn order(self) -> nat {
        match self {
            NetworkUpgrade::Genesis => 0,
            NetworkUpgrade::BeforeOverwinter => 1,
            NetworkUpgrade::Overwinter => 2,
            NetworkUpgrade::Sapling => 3,
            NetworkUpgrade::Blossom => 4,
            NetworkUpgrade::Heartwood => 5,
            NetworkUpgrade::Canopy => 6,
            NetworkUpgrade::Nu5 => 7,
        }
    }
}

/// The height at which `upgrade` activates on `network`, if it is scheduled.
pub open spec fn activation(upgrade: NetworkUpgrade, network: Network) -> Option<u32> {
    match network {
        Network::Mainnet => match upgrade {
            NetworkUpgrade::Genesis => Some(0u32),
            NetworkUpgrade::BeforeOverwinter => Some(1u32),
            NetworkUpgrade::Overwinter => Some(347_500u32),
            NetworkUpgrade::Sapling => Some(419_200u32),
            NetworkUpgrade::Blossom => Some(653_600u32),
            NetworkUpgrade::Heartwood => Some(903_000u32),
            NetworkUpgrade::Canopy => Some(1_046_400u32),
            NetworkUpgrade::Nu5 => Some(1_687_104u32),
        },
        Network::Testnet => match upgrade {
            NetworkUpgrade::Genesis => Some(0u32),
            NetworkUpgrade::BeforeOverwinter => Some(1u32),
            NetworkUpgrade::Overwinter => Some(207_500u32),
            NetworkUpgrade::Sapling => Some(280_000u32),
            NetworkUpgrade::Blossom => Some(584_000u32),
            NetworkUpgrade::Heartwood => Some(903_800u32),
            NetworkUpgrade::Canopy => Some(1_028_500u32),
            NetworkUpgrade::Nu5 => Some(1_842_420u32),
        },
    }
}

/// Whether `upgrade` has activated on `network` at or below `height`.
pub open spec fn is_activated(upgrade: NetworkUpgrade, network: Network, height: u32) -> bool {
    activation(upgrade, network) matches Some(start) && start <= height
}

/// Whether `upgrade` is the network upgrade in force at `height` on `network`:
/// it has activated, and no later upgrade has.
pub open spec fn is_current(network: Network, height: u32, upgrade: NetworkUpgrade) -> bool {
    &&& is_activated(upgrade, network, height)
    &&& forall|later: NetworkUpgrade|
        later.order() > upgrade.order() ==> !#[trigger] is_activated(later, network, height)
}

/// The network upgrade in force at `height` on `network`.
pub open spec fn current_upgrade(network: Network, height: u32) -> NetworkUpgrade {
    choose|upgrade: NetworkUpgrade| is_current(network, height, upgrade)
}

impl NetworkUpgrade {
    /// Returns the height at which this upgrade activates on `network`,
    /// or `None` if it is not scheduled there.
    pub fn activation_height(&self, network: Network) -> (height: Option<Height>)
        ensures
            height == (match activation(*self, network) {
                Some(start) => Some(Height(start)),
                None => None,
            }),
    {
        let start: u32 = match network {
            Network::Mainnet => match self {
                NetworkUpgrade::Genesis => 0,
                NetworkUpgrade::BeforeOverwinter => 1,
                NetworkUpgrade::Overwinter => 347_500,
                NetworkUpgrade::Sapling => 419_200,
                NetworkUpgrade::Blossom => 653_600,
                NetworkUpgrade::Heartwood => 903_000,
                NetworkUpgrade::Canopy => 1_046_400,
                NetworkUpgrade::Nu5 => 1_687_104,
            },
            Network::Testnet => match self {
                NetworkUpgrade::Genesis => 0,
                NetworkUpgrade::BeforeOverwinter => 1,
                NetworkUpgrade::Overwinter => 207_500,
                NetworkUpgrade::Sapling => 280_000,
                NetworkUpgrade::Blossom => 584_000,
                NetworkUpgrade::Heartwood => 903_800,
                NetworkUpgrade::Canopy => 1_028_500,
                NetworkUpgrade::Nu5 => 1_842_420,
            },
        };
        Some(Height(start))
    }

    /// Whether this upgrade has activated on `network` at `height`.
    fn is_active_at(&self, network: Network, height: Height) -> (active: bool)
        ensures
            active == is_activated(*self, network, height.0),
    {
        match self.activation_height(network) {
            Some(start) => start.0 <= height.0,
            None => false,
        }
    }

    /// Returns the network upgrade in force at `height` on `network`.
    pub fn current(network: Network, height: Height) -> (upgrade: NetworkUpgrade)
        ensures
            is_current(network, height.0, upgrade),
            upgrade == current_upgrade(network, height.0),
    {
        let h = height.0;
        let upgrade = if NetworkUpgrade::Nu5.is_active_at(network, height) {
            NetworkUpgrade::Nu5
        } else if NetworkUpgrade::Canopy.is_active_at(network, height) {
            NetworkUpgrade::Canopy
        } else if NetworkUpgrade::Heartwood.is_active_at(network, height) {
            NetworkUpgrade::Heartwood
        } else if NetworkUpgrade::Blossom.is_active_at(network, height) {
            NetworkUpgrade::Blossom
        } else if NetworkUpgrade::Sapling.is_active_at(network, height) {
            NetworkUpgrade::Sapling
        } else if NetworkUpgrade::Overwinter.is_active_at(network, height) {
            NetworkUpgrade::Overwinter
        } else if NetworkUpgrade::BeforeOverwinter.is_active_at(network, height) {
            NetworkUpgrade::BeforeOverwinter
        } else {
            NetworkUpgrade::Genesis
        };
        proof {
            lemma_activation_ordered(network);
            assert forall|later: NetworkUpgrade|
                later.order() > upgrade.order() implies !#[trigger] is_activated(later, network, h) by {
                match later {
                    NetworkUpgrade::Genesis => {},
                    NetworkUpgrade::BeforeOverwinter => {},
                    NetworkUpgrade::Overwinter => {},
                    NetworkUpgrade::Sapling => {},
                    NetworkUpgrade::Blossom => {},
                    NetworkUpgrade::Heartwood => {},
                    NetworkUpgrade::Canopy => {},
                    NetworkUpgrade::Nu5 => {},
                }
            }
            lemma_current_unique(network, h, upgrade);
        }
        upgrade
    }
}

/// Every upgrade is scheduled on every network, and later upgrades activate
/// at strictly greater heights.
pub proof fn lemma_activation_ordered(network: Network)
    ensures
        forall|upgrade: NetworkUpgrade| #[trigger] activation(upgrade, network) is Some,
        forall|earlier: NetworkUpgrade, later: NetworkUpgrade|
            earlier.order() < later.order() ==> #[trigger] activation(earlier, network)->0
                < #[trigger] activation(later, network)->0,
{
    assert forall|earlier: NetworkUpgrade, later: NetworkUpgrade|
        earlier.order() < later.order() implies #[trigger] activation(earlier, network)->0
            < #[trigger] activation(later, network)->0 by {
        match earlier {
            NetworkUpgrade::Genesis => {},
            NetworkUpgrade::BeforeOverwinter => {},
            NetworkUpgrade::Overwinter => {},
            NetworkUpgrade::Sapling => {},
            NetworkUpgrade::Blossom => {},
            NetworkUpgrade::Heartwood => {},
            NetworkUpgrade::Canopy => {},
            NetworkUpgrade::Nu5 => {},
        }
    }
}

/// At most one upgrade is current at a height, so `current_upgrade` names it.
pub proof fn lemma_current_unique(network: Network, height: u32, upgrade: NetworkUpgrade)
    requires
        is_current(network, height, upgrade),
    ensures
        forall|other: NetworkUpgrade| #[trigger] is_current(network, height, other) ==> other == upgrade,
        current_upgrade(network, height) == upgrade,
{
    assert forall|other: NetworkUpgrade| #[trigger] is_current(network, height, other) implies other
        == upgrade by {
        if other.order() > upgrade.order() {
            assert(!is_activated(other, network, height));
        } else if other.order() < upgrade.order() {
            assert(!is_activated(upgrade, network, height));
        } else {
            match other {
                NetworkUpgrade::Genesis => {},
                NetworkUpgrade::BeforeOverwinter => {},
                NetworkUpgrade::Overwinter => {},
                NetworkUpgrade::Sapling => {},
                NetworkUpgrade::Blossom => {},
                NetworkUpgrade::Heartwood => {},
                NetworkUpgrade::Canopy => {},
                NetworkUpgrade::Nu5 => {},
            }
            match upgrade {
                NetworkUpgrade::Genesis => {},
                NetworkUpgrade::BeforeOverwinter => {},
                NetworkUpgrade::Overwinter => {},
                NetworkUpgrade::Sapling => {},
                NetworkUpgrade::Blossom => {},
                NetworkUpgrade::Heartwood => {},
                NetworkUpgrade::Canopy => {},
                NetworkUpgrade::Nu5 => {},
            }
        }
    }
    let chosen = current_upgrade(network, height);
    assert(is_current(network, height, chosen));
}

/// At every height of every network exactly one network upgrade is current,
/// and `current_upgrade` is that upgrade.
pub proof fn lemma_current_upgrade_is_current(network: Network, height: u32)
    ensures
        is_current(network, height, current_upgrade(network, height)),
        forall|other: NetworkUpgrade| #[trigger]
            is_current(network, height, other) ==> other == current_upgrade(network, height),
{
    lemma_activation_ordered(network);
    let witness = if is_activated(NetworkUpgrade::Nu5, network, height) {
        NetworkUpgrade::Nu5
    } else if is_activated(NetworkUpgrade::Canopy, network, height) {
        NetworkUpgrade::Canopy
    } else if is_activated(NetworkUpgrade::Heartwood, network, height) {
        NetworkUpgrade::Heartwood
    } else if is_activated(NetworkUpgrade::Blossom, network, height) {
        NetworkUpgrade::Blossom
    } else if is_activated(NetworkUpgrade::Sapling, network, height) {
        NetworkUpgrade::Sapling
    } else if is_activated(NetworkUpgrade::Overwinter, network, height) {
        NetworkUpgrade::Overwinter
    } else if is_activated(NetworkUpgrade::BeforeOverwinter, network, height) {
        NetworkUpgrade::BeforeOverwinter
    } else {
        NetworkUpgrade::Genesis
    };
    assert forall|later: NetworkUpgrade|
        later.order() > witness.order() implies !#[trigger] is_activated(later, network, height) by {
        match later {
            NetworkUpgrade::Genesis => {},
            NetworkUpgrade::BeforeOverwinter => {},
            NetworkUpgrade::Overwinter => {},
            NetworkUpgrade::Sapling => {},
            NetworkUpgrade::Blossom => {},
            NetworkUpgrade::Heartwood => {},
            NetworkUpgrade::Canopy => {},
            NetworkUpgrade::Nu5 => {},
        }
    }
    lemma_current_unique(network, height, witness);
}

/// The genesis block is in the Genesis upgrade on every network.
pub proof fn lemma_genesis_height_is_genesis_upgrade(network: Network)
    ensures
        current_upgrade(network, 0) == NetworkUpgrade::Genesis,
{
    lemma_current_upgrade_is_current(network, 0);
    let upgrade = current_upgrade(network, 0);
    assert(is_activated(upgrade, network, 0));
    match upgrade {
        NetworkUpgrade::Genesis => {},
        NetworkUpgrade::BeforeOverwinter => {},
        NetworkUpgrade::Overwinter => {},
        NetworkUpgrade::Sapling => {},
        NetworkUpgrade::Blossom => {},
        NetworkUpgrade::Heartwood => {},
        NetworkUpgrade::Canopy => {},
        NetworkUpgrade::Nu5 => {},
    }
}

/// Network upgrades never go backwards as the height grows.
pub proof fn lemma_current_upgrade_monotonic(network: Network, lower: u32, higher: u32)
    requires
        lower <= higher,
    ensures
        current_upgrade(network, lower).order() <= current_upgrade(network, higher).order(),
{
    lemma_current_upgrade_is_current(network, lower);
    lemma_current_upgrade_is_current(network, higher);
    let early = current_upgrade(network, lower);
    let late = current_upgrade(network, higher);
    assert(is_activated(early, network, lower));
    assert(is_activated(early, network, higher));
    if early.order() > late.order() {
        assert(!is_activated(early, network, higher));
    }
}

/// At the activation height of an upgrade, that upgrade is current.
pub proof fn lemma_current_at_activation(network: Network, upgrade: NetworkUpgrade)
    ensures
        activation(upgrade, network) is Some,
        current_upgrade(network, activation(upgrade, network)->0) == upgrade,
{
    lemma_activation_ordered(network);
    let start = activation(upgrade, network)->0;
    assert forall|later: NetworkUpgrade|
        later.order() > upgrade.order() implies !#[trigger] is_activated(later, network, start) by {
        assert(activation(upgrade, network)->0 < activation(later, network)->0);
    }
    lemma_current_unique(network, start, upgrade);
}

/// The Zcash network upgrade schedule: the activation height of every
/// upgrade on each network, as the consensus rules fix them.
pub proof fn lemma_activation_schedule()
    ensures
        activation(NetworkUpgrade::Genesis, Network::Mainnet) == Some(0u32),
        activation(NetworkUpgrade::BeforeOverwinter, Network::Mainnet) == Some(1u32),
        activation(NetworkUpgrade::Overwinter, Network::Mainnet) == Some(347_500u32),
        activation(NetworkUpgrade::Sapling, Network::Mainnet) == Some(419_200u32),
        activation(NetworkUpgrade::Blossom, Network::Mainnet) == Some(653_600u32),
        activation(NetworkUpgrade::Heartwood, Network::Mainnet) == Some(903_000u32),
        activation(NetworkUpgrade::Canopy, Network::Mainnet) == Some(1_046_400u32),
        activation(NetworkUpgrade::Nu5, Network::Mainnet) == Some(1_687_104u32),
        activation(NetworkUpgrade::Genesis, Network::Testnet) == Some(0u32),
        activation(NetworkUpgrade::BeforeOverwinter, Network::Testnet) == Some(1u32),
        activation(NetworkUpgrade::Overwinter, Network::Testnet) == Some(207_500u32),
        activation(NetworkUpgrade::Sapling, Network::Testnet) == Some(280_000u32),
        activation(NetworkUpgrade::Blossom, Network::Testnet) == Some(584_000u32),
        activation(NetworkUpgrade::Heartwood, Network::Testnet) == Some(903_800u32),
        activation(NetworkUpgrade::Canopy, Network::Testnet) == Some(1_028_500u32),
        activation(NetworkUpgrade::Nu5, Network::Testnet) == Some(1_842_420u32),
{
}

/// The upgrade in force on each side of every activation boundary: at the
/// activation height an upgrade is current, and one block below it the
/// upgrade before it still is.
pub proof fn lemma_upgrade_boundaries()
    ensures
        current_upgrade(Network::Mainnet, 0) == NetworkUpgrade::Genesis,
        current_upgrade(Network::Mainnet, 1) == NetworkUpgrade::BeforeOverwinter,
        current_upgrade(Network::Mainnet, 347_499) == NetworkUpgrade::BeforeOverwinter,
        current_upgrade(Network::Mainnet, 347_500) == NetworkUpgrade::Overwinter,
        current_upgrade(Network::Mainnet, 419_199) == NetworkUpgrade::Overwinter,
        current_upgrade(Network::Mainnet, 419_200) == NetworkUpgrade::Sapling,
        current_upgrade(Network::Mainnet, 653_599) == NetworkUpgrade::Sapling,
        current_upgrade(Network::Mainnet, 653_600) == NetworkUpgrade::Blossom,
        current_upgrade(Network::Mainnet, 902_999) == NetworkUpgrade::Blossom,
        current_upgrade(Network::Mainnet, 903_000) == NetworkUpgrade::Heartwood,
        current_upgrade(Network::Mainnet, 1_046_399) == NetworkUpgrade::Heartwood,
        current_upgrade(Network::Mainnet, 1_046_400) == NetworkUpgrade::Canopy,
        current_upgrade(Network::Mainnet, 1_687_103) == NetworkUpgrade::Canopy,
        current_upgrade(Network::Mainnet, 1_687_104) == NetworkUpgrade::Nu5,
        current_upgrade(Network::Testnet, 0) == NetworkUpgrade::Genesis,
        current_upgrade(Network::Testnet, 1) == NetworkUpgrade::BeforeOverwinter,
        current_upgrade(Network::Testnet, 207_499) == NetworkUpgrade::BeforeOverwinter,
        current_upgrade(Network::Testnet, 207_500) == NetworkUpgrade::Overwinter,
        current_upgrade(Network::Testnet, 279_999) == NetworkUpgrade::Overwinter,
        current_upgrade(Network::Testnet, 280_000) == NetworkUpgrade::Sapling,
        current_upgrade(Network::Testnet, 583_999) == NetworkUpgrade::Sapling,
        current_upgrade(Network::Testnet, 584_000) == NetworkUpgrade::Blossom,
        current_upgrade(Network::Testnet, 903_799) == NetworkUpgrade::Blossom,
        current_upgrade(Network::Testnet, 903_800) == NetworkUpgrade::Heartwood,
        current_upgrade(Network::Testnet, 1_028_499) == NetworkUpgrade::Heartwood,
        current_upgrade(Network::Testnet, 1_028_500) == NetworkUpgrade::Canopy,
        current_upgrade(Network::Testnet, 1_842_419) == NetworkUpgrade::Canopy,
        current_upgrade(Network::Testnet, 1_842_420) == NetworkUpgrade::Nu5,
{
    lemma_current_at_activation(Network::Mainnet, NetworkUpgrade::Genesis);
    lemma_current_at_activation(Network::Mainnet, NetworkUpgrade::BeforeOverwinter);
    lemma_current_at_activation(Network::Mainnet, NetworkUpgrade::Overwinter);
    lemma_current_at_activation(Network::Mainnet, NetworkUpgrade::Sapling);
    lemma_current_at_activation(Network::Mainnet, NetworkUpgrade::Blossom);
    lemma_current_at_activation(Network::Mainnet, NetworkUpgrade::Heartwood);
    lemma_current_at_activation(Network::Mainnet, NetworkUpgrade::Canopy);
    lemma_current_at_activation(Network::Mainnet, NetworkUpgrade::Nu5);
    lemma_before_activation(Network::Mainnet, NetworkUpgrade::BeforeOverwinter, NetworkUpgrade::Overwinter);
    lemma_before_activation(Network::Mainnet, NetworkUpgrade::Overwinter, NetworkUpgrade::Sapling);
    lemma_before_activation(Network::Mainnet, NetworkUpgrade::Sapling, NetworkUpgrade::Blossom);
    lemma_before_activation(Network::Mainnet, NetworkUpgrade::Blossom, NetworkUpgrade::Heartwood);
    lemma_before_activation(Network::Mainnet, NetworkUpgrade::Heartwood, NetworkUpgrade::Canopy);
    lemma_before_activation(Network::Mainnet, NetworkUpgrade::Canopy, NetworkUpgrade::Nu5);
    lemma_current_at_activation(Network::Testnet, NetworkUpgrade::Genesis);
    lemma_current_at_activation(Network::Testnet, NetworkUpgrade::BeforeOverwinter);
    lemma_current_at_activation(Network::Testnet, NetworkUpgrade::Overwinter);
    lemma_current_at_activation(Network::Testnet, NetworkUpgrade::Sapling);
    lemma_current_at_activation(Network::Testnet, NetworkUpgrade::Blossom);
    lemma_current_at_activation(Network::Testnet, NetworkUpgrade::Heartwood);
    lemma_current_at_activation(Network::Testnet, NetworkUpgrade::Canopy);
    lemma_current_at_activation(Network::Testnet, NetworkUpgrade::Nu5);
    lemma_before_activation(Network::Testnet, NetworkUpgrade::BeforeOverwinter, NetworkUpgrade::Overwinter);
    lemma_before_activation(Network::Testnet, NetworkUpgrade::Overwinter, NetworkUpgrade::Sapling);
    lemma_before_activation(Network::Testnet, NetworkUpgrade::Sapling, NetworkUpgrade::Blossom);
    lemma_before_activation(Network::Testnet, NetworkUpgrade::Blossom, NetworkUpgrade::Heartwood);
    lemma_before_activation(Network::Testnet, NetworkUpgrade::Heartwood, NetworkUpgrade::Canopy);
    lemma_before_activation(Network::Testnet, NetworkUpgrade::Canopy, NetworkUpgrade::Nu5);
}

/// One block below the activation of `later`, the upgrade just before it is
/// current.
proof fn lemma_before_activation(network: Network, earlier: NetworkUpgrade, later: NetworkUpgrade)
    requires
        later.order() == earlier.order() + 1,
    ensures
        current_upgrade(network, (activation(later, network)->0 - 1) as u32) == earlier,
{
    lemma_activation_ordered(network);
    let height = (activation(later, network)->0 - 1) as u32;
    assert(activation(earlier, network)->0 < activation(later, network)->0);
    assert forall|other: NetworkUpgrade|
        other.order() > earlier.order() implies !#[trigger] is_activated(other, network, height) by {
        if other.order() > later.order() {
            assert(activation(later, network)->0 < activation(other, network)->0);
        } else {
            match other {
                NetworkUpgrade::Genesis => {},
                NetworkUpgrade::BeforeOverwinter => {},
                NetworkUpgrade::Overwinter => {},
                NetworkUpgrade::Sapling => {},
                NetworkUpgrade::Blossom => {},
                NetworkUpgrade::Heartwood => {},
                NetworkUpgrade::Canopy => {},
                NetworkUpgrade::Nu5 => {},
            }
            match later {
                NetworkUpgrade::Genesis => {},
                NetworkUpgrade::BeforeOverwinter => {},
                NetworkUpgrade::Overwinter => {},
                NetworkUpgrade::Sapling => {},
                NetworkUpgrade::Blossom => {},
                NetworkUpgrade::Heartwood => {},
                NetworkUpgrade::Canopy => {},
                NetworkUpgrade::Nu5 => {},
            }
        }
    }
    lemma_current_unique(network, height, earlier);
}

} // verus!
