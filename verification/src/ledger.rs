//! Ledger states: the configuration that generated blocks, chains and
//! transactions are built from, and the overrides that fix parts of it.

use crate::block::{genesis_previous_block_hash, spec_genesis_previous_block_hash};
use crate::parameters::{
    activation, current_upgrade, lemma_activation_ordered, lemma_current_at_activation,
    lemma_current_upgrade_monotonic, lemma_genesis_height_is_genesis_upgrade, Height, Network,
    NetworkUpgrade, MAX_HEIGHT, MIN_HEIGHT,
};
use proptest::prelude::any;
use proptest::sample::select;
use proptest::strategy::{BoxedStrategy, Strategy};
use vstd::prelude::*;

verus! {

/// The configuration data for generating arbitrary blocks and chains.
#[derive(Debug, Clone, Copy)]
#[non_exhaustive]
pub struct LedgerState {
    /// The height of the generated block, or the start height of the generated chain.
    ///
    /// If `network_upgrade_override` is not set, the network upgrade is derived
    /// from the `height` and `network`.
    pub height: Height,
    /// The network to generate fake blocks for.
    pub network: Network,
    /// Overrides the network upgrade calculated from `height` and `network`.
    pub(crate) network_upgrade_override: Option<NetworkUpgrade>,
    /// Generate coinbase transactions.
    ///
    /// Blocks here are modelled by their headers alone, so this flag is
    /// carried for the transaction generators of the full block type and
    /// affects no value generated in this crate.
    pub(crate) has_coinbase: bool,
    /// Overrides the previous block hashes in blocks generated by this ledger.
    pub(crate) previous_block_hash_override: Option<crate::block::Hash>,
}

/// Overrides for arbitrary [`LedgerState`]s.
#[derive(Debug, Clone, Copy)]
pub struct LedgerStateOverride {
    /// Regardless of tip height and network, every block has features from this
    /// network upgrade.
    pub network_upgrade_override: Option<NetworkUpgrade>,
    /// Every block has exactly one coinbase transaction.
    /// Transactions are always coinbase transactions.
    pub always_has_coinbase: bool,
    /// Every chain starts at this block. Single blocks have this height.
    pub height_override: Option<Height>,
    /// Every chain starts with a block with this previous block hash.
    /// Single blocks have this previous block hash.
    pub previous_block_hash_override: Option<crate::block::Hash>,
}

/// The contents of a [`LedgerState`], as contracts speak of them.
pub struct LedgerStateView {
    pub height: Height,
    pub network: Network,
    pub network_upgrade_override: Option<NetworkUpgrade>,
    pub has_coinbase: bool,
    pub previous_block_hash_override: Option<crate::block::Hash>,
}

impl View for LedgerState {
    type V = LedgerStateView;

    closed spec fn view(&self) -> LedgerStateView {
        LedgerStateView {
            height: self.height,
            network: self.network,
            network_upgrade_override: self.network_upgrade_override,
            has_coinbase: self.has_coinbase,
            previous_block_hash_override: self.previous_block_hash_override,
        }
    }
}

impl LedgerStateView {
    /// The default ledger state: at the activation height of the most recent
    /// network upgrade of the default network, with the default overrides.
    pub open spec fn spec_default() -> LedgerStateView {
        LedgerStateView {
            height: Height(
                activation(current_upgrade(Network::Mainnet, MAX_HEIGHT), Network::Mainnet)->0,
            ),
            network: Network::Mainnet,
            network_upgrade_override: LedgerStateOverride::spec_default().network_upgrade_override,
            has_coinbase: LedgerStateOverride::spec_default().always_has_coinbase,
            previous_block_hash_override:
                LedgerStateOverride::spec_default().previous_block_hash_override,
        }
    }

    /// The network upgrade of this ledger state.
    pub open spec fn network_upgrade(self) -> NetworkUpgrade {
        match self.network_upgrade_override {
            Some(upgrade) => upgrade,
            None => current_upgrade(self.network, self.height.0),
        }
    }

    /// This ledger state at `height`.
    pub open spec fn with_height(self, height: Height) -> LedgerStateView {
        LedgerStateView { height, ..self }
    }

    /// Whether `self` is `other` at another height.
    pub open spec fn same_except_height(self, other: LedgerStateView) -> bool {
        &&& self.network == other.network
        &&& self.network_upgrade_override == other.network_upgrade_override
        &&& self.has_coinbase == other.has_coinbase
        &&& self.previous_block_hash_override == other.previous_block_hash_override
    }
}

/// The view of a ledger state holds its fields.
pub(crate) broadcast proof fn lemma_ledger_state_view(state: LedgerState)
    ensures
        #[trigger] state@ == (LedgerStateView {
            height: state.height,
            network: state.network,
            network_upgrade_override: state.network_upgrade_override,
            has_coinbase: state.has_coinbase,
            previous_block_hash_override: state.previous_block_hash_override,
        }),
{
}

impl LedgerState {
    /// Builds the ledger state for one sample `(height, network, nu5_override, has_coinbase)`
    /// of its arbitrary parts.
    ///
    /// The height comes from `ledger_override` when it sets one, the network
    /// upgrade override is the overridden upgrade or, when the sample asks for
    /// one, NU5, coinbase transactions are generated when either asks for them,
    /// and the previous block hash override is that of `ledger_override`.
    pub fn from_sample(
        ledger_override: LedgerStateOverride,
        sample: (u32, Network, bool, bool),
    ) -> (state: LedgerState)
        ensures
            state@ == ledger_override.apply(sample),
    {
        let (height, network, nu5_override, has_coinbase) = sample;
        let nu5_override = if nu5_override {
            Some(NetworkUpgrade::Nu5)
        } else {
            None
        };
        LedgerState {
            height: match ledger_override.height_override {
                Some(fixed) => fixed,
                None => Height(height),
            },
            network,
            network_upgrade_override: match ledger_override.network_upgrade_override {
                Some(upgrade) => Some(upgrade),
                None => nu5_override,
            },
            has_coinbase: ledger_override.always_has_coinbase || has_coinbase,
            previous_block_hash_override: ledger_override.previous_block_hash_override,
        }
    }

    /// Returns the network upgrade for this ledger state.
    ///
    /// If `network_upgrade_override` is set, it replaces the upgrade calculated
    /// using `height` and `network`.
    pub fn network_upgrade(&self) -> (upgrade: NetworkUpgrade)
        ensures
            upgrade == self@.network_upgrade(),
    {
        if let Some(network_upgrade_override) = self.network_upgrade_override {
            network_upgrade_override
        } else {
            NetworkUpgrade::current(self.network, self.height)
        }
    }

    /// Returns the height of this ledger state.
    pub fn height(&self) -> (height: Height)
        ensures
            height == self@.height,
    {
        self.height
    }

    /// Returns the network of this ledger state.
    pub fn network(&self) -> (network: Network)
        ensures
            network == self@.network,
    {
        self.network
    }

    /// Returns the network upgrade that overrides the calculated one, if any.
    pub fn network_upgrade_override(&self) -> (upgrade: Option<NetworkUpgrade>)
        ensures
            upgrade == self@.network_upgrade_override,
    {
        self.network_upgrade_override
    }

    /// Returns whether coinbase transactions are generated.
    pub fn has_coinbase(&self) -> (has_coinbase: bool)
        ensures
            has_coinbase == self@.has_coinbase,
    {
        self.has_coinbase
    }

    /// Returns the previous block hash override, if any.
    pub fn previous_block_hash_override(&self) -> (hash: Option<crate::block::Hash>)
        ensures
            hash == self@.previous_block_hash_override,
    {
        self.previous_block_hash_override
    }
}

impl LedgerStateOverride {
    /// The ledger state built from one sample `(height, network, nu5_override, has_coinbase)`
    /// of the arbitrary parts of a ledger state, with every part that these
    /// overrides fix taken from them: the height when one is fixed, the
    /// overridden network upgrade or else NU5 when the sample asks for it,
    /// coinbase transactions when either asks for them, and the previous
    /// block hash override.
    pub open spec fn apply(self, sample: (u32, Network, bool, bool)) -> LedgerStateView {
        LedgerStateView {
            height: match self.height_override {
                Some(fixed) => fixed,
                None => Height(sample.0),
            },
            network: sample.1,
            network_upgrade_override: match self.network_upgrade_override {
                Some(upgrade) => Some(upgrade),
                None => if sample.2 {
                    Some(NetworkUpgrade::Nu5)
                } else {
                    None
                },
            },
            has_coinbase: self.always_has_coinbase || sample.3,
            previous_block_hash_override: self.previous_block_hash_override,
        }
    }

    /// The overrides of [`LedgerStateOverride::default`]: coinbase
    /// transactions are left arbitrary, so the default strategy skips some of
    /// them, and NU5 features are forced only where NU5 has no activation
    /// height on the default network.
    pub open spec fn spec_default() -> LedgerStateOverride {
        LedgerStateOverride {
            network_upgrade_override: if activation(NetworkUpgrade::Nu5, Network::Mainnet) is Some {
                None
            } else {
                Some(NetworkUpgrade::Nu5)
            },
            always_has_coinbase: false,
            height_override: None,
            previous_block_hash_override: None,
        }
    }

    /// No overrides: every part of the ledger state is arbitrary.
    pub open spec fn spec_no_override() -> LedgerStateOverride {
        LedgerStateOverride {
            network_upgrade_override: None,
            always_has_coinbase: false,
            height_override: None,
            previous_block_hash_override: None,
        }
    }

    /// Only the network upgrade is overridden.
    pub open spec fn spec_network_upgrade(upgrade: NetworkUpgrade) -> LedgerStateOverride {
        LedgerStateOverride {
            network_upgrade_override: Some(upgrade),
            always_has_coinbase: false,
            height_override: None,
            previous_block_hash_override: None,
        }
    }

    /// Coinbase transactions always, and the network upgrade if one is given.
    pub open spec fn spec_coinbase(upgrade: Option<NetworkUpgrade>) -> LedgerStateOverride {
        LedgerStateOverride {
            network_upgrade_override: upgrade,
            always_has_coinbase: true,
            height_override: None,
            previous_block_hash_override: None,
        }
    }

    /// A chain that starts at the genesis block, with coinbase transactions
    /// and the network upgrade if one is given.
    pub open spec fn spec_genesis(upgrade: Option<NetworkUpgrade>) -> LedgerStateOverride {
        LedgerStateOverride {
            network_upgrade_override: upgrade,
            always_has_coinbase: true,
            height_override: Some(Height(0)),
            previous_block_hash_override: Some(spec_genesis_previous_block_hash()),
        }
    }

    /// Overrides nothing: every part of the ledger state is arbitrary.
    pub fn no_override() -> (ledger_override: LedgerStateOverride)
        ensures
            ledger_override == Self::spec_no_override(),
    {
        LedgerStateOverride {
            network_upgrade_override: None,
            always_has_coinbase: false,
            height_override: None,
            previous_block_hash_override: None,
        }
    }

    /// Overrides only the network upgrade.
    pub fn network_upgrade(network_upgrade_override: NetworkUpgrade) -> (ledger_override:
        LedgerStateOverride)
        ensures
            ledger_override == Self::spec_network_upgrade(network_upgrade_override),
    {
        LedgerStateOverride {
            network_upgrade_override: Some(network_upgrade_override),
            always_has_coinbase: false,
            height_override: None,
            previous_block_hash_override: None,
        }
    }

    /// Always generates coinbase transactions, and applies
    /// `network_upgrade_override` if present.
    pub fn coinbase(network_upgrade_override: Option<NetworkUpgrade>) -> (ledger_override:
        LedgerStateOverride)
        ensures
            ledger_override == Self::spec_coinbase(network_upgrade_override),
    {
        LedgerStateOverride {
            network_upgrade_override,
            always_has_coinbase: true,
            height_override: None,
            previous_block_hash_override: None,
        }
    }

    /// Starts at the genesis block: height zero, the genesis previous block
    /// hash, coinbase transactions, and `network_upgrade_override` if present.
    pub fn genesis(network_upgrade_override: Option<NetworkUpgrade>) -> (ledger_override:
        LedgerStateOverride)
        ensures
            ledger_override == Self::spec_genesis(network_upgrade_override),
    {
        LedgerStateOverride {
            network_upgrade_override,
            always_has_coinbase: true,
            height_override: Some(Height(0)),
            previous_block_hash_override: Some(genesis_previous_block_hash()),
        }
    }
}

impl Default for LedgerStateOverride {
    fn default() -> (ledger_override: LedgerStateOverride)
        ensures
            ledger_override == LedgerStateOverride::spec_default(),
    {
        let default_network = Network::default();

        let nu5_activation_height = NetworkUpgrade::Nu5.activation_height(default_network);
        let nu5_override = if nu5_activation_height.is_some() {
            None
        } else {
            Some(NetworkUpgrade::Nu5)
        };

        // The default strategy arbitrarily skips some coinbase transactions:
        // use the coinbase or genesis overrides to force them.
        LedgerStateOverride {
            network_upgrade_override: nu5_override,
            always_has_coinbase: false,
            height_override: None,
            previous_block_hash_override: None,
        }
    }
}

impl Default for LedgerState {
    /// Starts at the activation height of the most recent network upgrade of
    /// the default network, with the default overrides.
    fn default() -> (state: LedgerState)
        ensures
            state@ == LedgerStateView::spec_default(),
    {
        let default_network = Network::default();
        let default_override = LedgerStateOverride::default();

        let most_recent_nu = NetworkUpgrade::current(default_network, Height(MAX_HEIGHT));
        proof {
            lemma_activation_ordered(default_network);
        }
        let most_recent_activation_height = most_recent_nu.activation_height(
            default_network,
        ).unwrap();

        LedgerState {
            height: most_recent_activation_height,
            network: default_network,
            network_upgrade_override: default_override.network_upgrade_override,
            has_coinbase: default_override.always_has_coinbase,
            previous_block_hash_override: default_override.previous_block_hash_override,
        }
    }
}

/// The ledger states, by their views, that a proptest strategy can generate.
pub uninterp spec fn ledger_state_values(strategy: BoxedStrategy<LedgerState>) -> Set<
    LedgerStateView,
>;

/// The ledger states built by [`LedgerState::from_sample`] with `ledger_override`
/// from every sample with a height from `min_height` to `max_height` and a
/// network in `networks`.
pub open spec fn sampled_ledger_states(
    ledger_override: LedgerStateOverride,
    min_height: u32,
    max_height: u32,
    networks: Seq<Network>,
) -> Set<LedgerStateView> {
    Set::new(
        |state: LedgerStateView|
            exists|height: u32, network: Network, nu5_override: bool, has_coinbase: bool|
                min_height <= height <= max_height && networks.contains(network) && state
                    == #[trigger] ledger_override.apply((height, network, nu5_override, has_coinbase)),
    )
}

impl LedgerStateOverride {
    /// The ledger states generated with these overrides: those built from
    /// every valid height, either network, and either choice of forced NU5
    /// features and of coinbase transactions.
    pub open spec fn generated(self) -> Set<LedgerStateView> {
        Set::new(
            |state: LedgerStateView|
                exists|height: u32, network: Network, nu5_override: bool, has_coinbase: bool|
                    MIN_HEIGHT <= height <= MAX_HEIGHT && state == #[trigger] self.apply(
                        (height, network, nu5_override, has_coinbase),
                    ),
        )
    }
}

/// Sampling from both networks is sampling from every network.
proof fn lemma_sampled_from_both_networks(ledger_override: LedgerStateOverride)
    ensures
        sampled_ledger_states(
            ledger_override,
            MIN_HEIGHT,
            MAX_HEIGHT,
            seq![Network::Mainnet, Network::Testnet],
        ) == ledger_override.generated(),
{
    let networks = seq![Network::Mainnet, Network::Testnet];
    assert forall|network: Network| #[trigger] networks.contains(network) by {
        match network {
            Network::Mainnet => assert(networks[0] == network),
            Network::Testnet => assert(networks[1] == network),
        }
    }
    assert(sampled_ledger_states(ledger_override, MIN_HEIGHT, MAX_HEIGHT, networks)
        =~= ledger_override.generated());
}

/// `<Option<T> as From<T>>::from`, which the standard library documents as
/// moving the value into a new `Some`.
pub assume_specification<T>[ <Option<T> as core::convert::From<T>>::from ](val: T) -> (option:
    Option<T>)
    ensures
        option == Some(val),
;

/// Returns both networks, Mainnet first.
pub(crate) fn both_networks() -> (networks: Vec<Network>)
    ensures
        networks@ == seq![Network::Mainnet, Network::Testnet],
{
    let mut networks: Vec<Network> = Vec::new();
    networks.push(Network::Mainnet);
    networks.push(Network::Testnet);
    proof {
        assert(networks@ =~= seq![Network::Mainnet, Network::Testnet]);
    }
    networks
}

impl LedgerState {
    /// Returns the default strategy for creating arbitrary `LedgerState`s.
    pub fn default_strategy() -> (strategy: BoxedStrategy<Self>)
        ensures
            ledger_state_values(strategy) == LedgerStateOverride::spec_default().generated(),
    {
        Self::arbitrary_with(LedgerStateOverride::default())
    }

    /// Returns a strategy for creating arbitrary `LedgerState`s, without any
    /// overrides.
    pub fn no_override_strategy() -> (strategy: BoxedStrategy<Self>)
        ensures
            ledger_state_values(strategy) == LedgerStateOverride::spec_no_override().generated(),
    {
        Self::arbitrary_with(LedgerStateOverride::no_override())
    }

    /// Returns a strategy for creating `LedgerState`s with features from
    /// `network_upgrade_override`.
    ///
    /// These features ignore the actual tip height and network.
    pub fn network_upgrade_strategy(network_upgrade_override: NetworkUpgrade) -> (strategy:
        BoxedStrategy<Self>)
        ensures
            ledger_state_values(strategy) == LedgerStateOverride::spec_network_upgrade(
                network_upgrade_override,
            ).generated(),
    {
        Self::arbitrary_with(LedgerStateOverride::network_upgrade(network_upgrade_override))
    }

    /// Returns a strategy for creating `LedgerState`s that always have coinbase
    /// transactions.
    ///
    /// Also applies `network_upgrade_override`, if present: the strategy uses
    /// the coinbase overrides with the upgrade that `into` gives (the upgrade
    /// itself for a `NetworkUpgrade`, the option unchanged for an `Option`).
    pub fn coinbase_strategy<U: Into<Option<NetworkUpgrade>>>(network_upgrade_override: U) -> (strategy: BoxedStrategy<Self>)
        ensures
            exists|upgrade: Option<NetworkUpgrade>|
                ledger_state_values(strategy) == #[trigger] LedgerStateOverride::spec_coinbase(
                    upgrade,
                ).generated() && call_ensures(
                    <U as Into<Option<NetworkUpgrade>>>::into,
                    (network_upgrade_override,),
                    upgrade,
                ),
    {
        let upgrade: Option<NetworkUpgrade> = network_upgrade_override.into();
        let strategy = Self::arbitrary_with(LedgerStateOverride::coinbase(upgrade));
        assert(ledger_state_values(strategy) == LedgerStateOverride::spec_coinbase(
            upgrade,
        ).generated());
        strategy
    }

    /// Returns a strategy for creating `LedgerState`s that start with a genesis
    /// block.
    ///
    /// These strategies also have coinbase transactions, and an optional network
    /// upgrade override: the strategy uses the genesis overrides with the
    /// upgrade that `into` gives (the upgrade itself for a `NetworkUpgrade`,
    /// the option unchanged for an `Option`).
    ///
    /// Use the `Genesis` network upgrade to get a random genesis block, with
    /// Zcash genesis features.
    pub fn genesis_strategy<U: Into<Option<NetworkUpgrade>>>(network_upgrade_override: U) -> (strategy: BoxedStrategy<Self>)
        ensures
            exists|upgrade: Option<NetworkUpgrade>|
                ledger_state_values(strategy) == #[trigger] LedgerStateOverride::spec_genesis(
                    upgrade,
                ).generated() && call_ensures(
                    <U as Into<Option<NetworkUpgrade>>>::into,
                    (network_upgrade_override,),
                    upgrade,
                ),
    {
        let upgrade: Option<NetworkUpgrade> = network_upgrade_override.into();
        let strategy = Self::arbitrary_with(LedgerStateOverride::genesis(upgrade));
        assert(ledger_state_values(strategy) == LedgerStateOverride::spec_genesis(
            upgrade,
        ).generated());
        strategy
    }

    /// Returns a strategy for arbitrary `LedgerState`s: an arbitrary height,
    /// network, NU5 override and coinbase flag, each replaced by what
    /// `ledger_override` fixes (see [`LedgerState::from_sample`]).
    pub fn arbitrary_with(ledger_override: LedgerStateOverride) -> (strategy: BoxedStrategy<Self>)
        ensures
            ledger_state_values(strategy) == ledger_override.generated(),
    {
        let networks = both_networks();
        proof {
            lemma_sampled_from_both_networks(ledger_override);
        }
        ledger_state_strategy(ledger_override, MIN_HEIGHT, MAX_HEIGHT, networks)
    }
}

/// Builds a proptest strategy (`prop_map` over a tuple of `RangeInclusive<u32>`,
/// `sample::select`, `any::<bool>()` twice, then `boxed`) that maps each sample
/// through [`LedgerState::from_sample`].
///
/// Claimed: the strategy generates (and shrinks to) exactly the ledger states
/// that `from_sample` builds from samples with a height in the range and a
/// network among `networks`; every such sample can be drawn.
#[verifier::external_body]
fn ledger_state_strategy(
    ledger_override: LedgerStateOverride,
    min_height: u32,
    max_height: u32,
    networks: Vec<Network>,
) -> (strategy: BoxedStrategy<LedgerState>)
    requires
        min_height <= max_height,
        networks@.len() > 0,
    ensures
        ledger_state_values(strategy) == sampled_ledger_states(
            ledger_override,
            min_height,
            max_height,
            networks@,
        ),
{
    (min_height..=max_height, select(networks), any::<bool>(), any::<bool>())
        .prop_map(move |sample| LedgerState::from_sample(ledger_override, sample))
        .boxed()
}

/// A ledger state generated with the genesis overrides starts a chain: it is
/// at height zero, blocks on it follow the genesis previous block hash, it
/// has coinbase transactions, and its network upgrade is the overridden one,
/// or without one, Genesis (NU5 when the sample forces NU5 features).
pub proof fn lemma_genesis_override_starts_chain(
    upgrade: Option<NetworkUpgrade>,
    sample: (u32, Network, bool, bool),
)
    ensures
        ({
            let state = LedgerStateOverride::spec_genesis(upgrade).apply(sample);
            &&& state.height == Height(0)
            &&& state.previous_block_hash_override == Some(spec_genesis_previous_block_hash())
            &&& state.has_coinbase
            &&& state.network_upgrade() == (match upgrade {
                Some(upgrade) => upgrade,
                None => if sample.2 {
                    NetworkUpgrade::Nu5
                } else {
                    NetworkUpgrade::Genesis
                },
            })
        }),
{
    lemma_genesis_height_is_genesis_upgrade(sample.1);
}

/// A ledger state generated with a network upgrade override has that
/// upgrade, whatever its height and network.
pub proof fn lemma_network_upgrade_override_ignores_height(
    upgrade: NetworkUpgrade,
    sample: (u32, Network, bool, bool),
)
    ensures
        LedgerStateOverride::spec_network_upgrade(upgrade).apply(sample).network_upgrade()
            == upgrade,
        LedgerStateOverride::spec_coinbase(Some(upgrade)).apply(sample).network_upgrade()
            == upgrade,
        LedgerStateOverride::spec_genesis(Some(upgrade)).apply(sample).network_upgrade()
            == upgrade,
{
}

/// A ledger state generated with the coinbase or genesis overrides always has
/// coinbase transactions; without overrides it has them only when sampled.
pub proof fn lemma_coinbase_overrides(
    upgrade: Option<NetworkUpgrade>,
    sample: (u32, Network, bool, bool),
)
    ensures
        LedgerStateOverride::spec_coinbase(upgrade).apply(sample).has_coinbase,
        LedgerStateOverride::spec_genesis(upgrade).apply(sample).has_coinbase,
        LedgerStateOverride::spec_no_override().apply(sample).has_coinbase == sample.3,
{
}

/// The generated network is always the sampled one; without a height
/// override the generated height is the sampled one; and without a network
/// upgrade override or forced NU5 features, the network upgrade is the one
/// current at the generated height.
pub proof fn lemma_unfixed_parts_are_sampled(
    ledger_override: LedgerStateOverride,
    sample: (u32, Network, bool, bool),
)
    ensures
        ledger_override.apply(sample).network == sample.1,
        ledger_override.height_override is None ==> ledger_override.apply(sample).height
            == Height(sample.0),
        ledger_override.network_upgrade_override is None && !sample.2
            ==> ledger_override.apply(sample).network_upgrade() == current_upgrade(
            sample.1,
            ledger_override.apply(sample).height.0,
        ),
{
}

/// The default ledger state is at the activation height of NU5, the most
/// recent network upgrade of the default network, and so is in NU5.
pub proof fn lemma_default_is_most_recent_upgrade()
    ensures
        current_upgrade(Network::Mainnet, MAX_HEIGHT) == NetworkUpgrade::Nu5,
        LedgerStateOverride::spec_default().network_upgrade_override is None,
        LedgerStateView::spec_default().height == Height(
            activation(NetworkUpgrade::Nu5, Network::Mainnet)->0,
        ),
        LedgerStateView::spec_default().network_upgrade() == NetworkUpgrade::Nu5,
{
    lemma_current_at_activation(Network::Mainnet, NetworkUpgrade::Nu5);
    lemma_current_upgrade_monotonic(
        Network::Mainnet,
        activation(NetworkUpgrade::Nu5, Network::Mainnet)->0,
        MAX_HEIGHT,
    );
}

/// Every ledger state that the genesis strategy generates starts a chain: it
/// is at height zero, blocks on it follow the genesis previous block hash, it
/// has coinbase transactions, and it is in the overridden network upgrade, or
/// without one, in Genesis or (when NU5 features are forced) NU5.
pub proof fn lemma_genesis_strategy_states(upgrade: Option<NetworkUpgrade>, state: LedgerStateView)
    requires
        LedgerStateOverride::spec_genesis(upgrade).generated().contains(state),
    ensures
        state.height == Height(0),
        state.previous_block_hash_override == Some(spec_genesis_previous_block_hash()),
        state.has_coinbase,
        upgrade matches Some(upgrade) ==> state.network_upgrade() == upgrade,
        upgrade is None ==> state.network_upgrade() == NetworkUpgrade::Genesis
            || state.network_upgrade() == NetworkUpgrade::Nu5,
{
    let (height, network, nu5_override, has_coinbase) = choose|
        height: u32,
        network: Network,
        nu5_override: bool,
        has_coinbase: bool,
    |
        MIN_HEIGHT <= height <= MAX_HEIGHT && state == #[trigger] LedgerStateOverride::spec_genesis(
            upgrade,
        ).apply((height, network, nu5_override, has_coinbase));
    lemma_genesis_override_starts_chain(upgrade, (height, network, nu5_override, has_coinbase));
}

/// Every ledger state that the coinbase strategy generates has coinbase
/// transactions, and is in the overridden network upgrade if one is given.
pub proof fn lemma_coinbase_strategy_states(upgrade: Option<NetworkUpgrade>, state: LedgerStateView)
    requires
        LedgerStateOverride::spec_coinbase(upgrade).generated().contains(state),
    ensures
        state.has_coinbase,
        upgrade matches Some(upgrade) ==> state.network_upgrade() == upgrade,
{
}

/// The default strategy arbitrarily skips some coinbase transactions: it
/// generates ledger states both with and without them, at every valid height.
pub proof fn lemma_default_strategy_skips_some_coinbase(height: u32)
    requires
        MIN_HEIGHT <= height <= MAX_HEIGHT,
    ensures
        exists|state: LedgerStateView| #[trigger]
            LedgerStateOverride::spec_default().generated().contains(state) && state.has_coinbase
                && state.height == Height(height),
        exists|state: LedgerStateView| #[trigger]
            LedgerStateOverride::spec_default().generated().contains(state) && !state.has_coinbase
                && state.height == Height(height),
{
    let ledger_override = LedgerStateOverride::spec_default();
    let with_coinbase = ledger_override.apply((height, Network::Mainnet, false, true));
    let without_coinbase = ledger_override.apply((height, Network::Mainnet, false, false));
    assert(ledger_override.generated().contains(with_coinbase));
    assert(ledger_override.generated().contains(without_coinbase));
}

/// Overrides that fix neither the height nor the previous block hash leave
/// both free in what they generate.
proof fn lemma_free_chain_start(ledger_override: LedgerStateOverride, state: LedgerStateView, height: u32)
    requires
        ledger_override.height_override is None,
        ledger_override.previous_block_hash_override is None,
    ensures
        ledger_override.generated().contains(state) ==> state.previous_block_hash_override is None,
        MIN_HEIGHT <= height <= MAX_HEIGHT ==> exists|generated: LedgerStateView| #[trigger]
            ledger_override.generated().contains(generated) && generated.height == Height(height),
{
    if MIN_HEIGHT <= height <= MAX_HEIGHT {
        let witness = ledger_override.apply((height, Network::Mainnet, false, false));
        assert(ledger_override.generated().contains(witness));
    }
}

/// Only the genesis strategy fixes where generated chains start: the default,
/// no-override, network upgrade and coinbase strategies generate ledger
/// states with no previous block hash override, at every valid height.
pub proof fn lemma_only_genesis_fixes_chain_start(
    upgrade: Option<NetworkUpgrade>,
    fixed: NetworkUpgrade,
    state: LedgerStateView,
    height: u32,
)
    ensures
        LedgerStateOverride::spec_default().generated().contains(state)
            ==> state.previous_block_hash_override is None,
        LedgerStateOverride::spec_no_override().generated().contains(state)
            ==> state.previous_block_hash_override is None,
        LedgerStateOverride::spec_network_upgrade(fixed).generated().contains(state)
            ==> state.previous_block_hash_override is None,
        LedgerStateOverride::spec_coinbase(upgrade).generated().contains(state)
            ==> state.previous_block_hash_override is None,
        MIN_HEIGHT <= height <= MAX_HEIGHT ==> exists|generated: LedgerStateView| #[trigger]
            LedgerStateOverride::spec_default().generated().contains(generated) && generated.height
                == Height(height),
        MIN_HEIGHT <= height <= MAX_HEIGHT ==> exists|generated: LedgerStateView| #[trigger]
            LedgerStateOverride::spec_no_override().generated().contains(generated)
                && generated.height == Height(height),
        MIN_HEIGHT <= height <= MAX_HEIGHT ==> exists|generated: LedgerStateView| #[trigger]
            LedgerStateOverride::spec_network_upgrade(fixed).generated().contains(generated)
                && generated.height == Height(height),
        MIN_HEIGHT <= height <= MAX_HEIGHT ==> exists|generated: LedgerStateView| #[trigger]
            LedgerStateOverride::spec_coinbase(upgrade).generated().contains(generated)
                && generated.height == Height(height),
{
    lemma_free_chain_start(LedgerStateOverride::spec_default(), state, height);
    lemma_free_chain_start(LedgerStateOverride::spec_no_override(), state, height);
    lemma_free_chain_start(LedgerStateOverride::spec_network_upgrade(fixed), state, height);
    lemma_free_chain_start(LedgerStateOverride::spec_coinbase(upgrade), state, height);
}

/// The coinbase strategy forces coinbase transactions and nothing else but
/// the given upgrade: without an upgrade its states are in the upgrade
/// current at their height, or NU5 when NU5 features are forced, and either
/// choice occurs.
pub proof fn lemma_coinbase_strategy_forces_only_coinbase(state: LedgerStateView, height: u32)
    ensures
        LedgerStateOverride::spec_coinbase(None).generated().contains(state) ==> state.has_coinbase
            && (state.network_upgrade() == current_upgrade(state.network, state.height.0)
            || state.network_upgrade() == NetworkUpgrade::Nu5),
        MIN_HEIGHT <= height <= MAX_HEIGHT ==> exists|generated: LedgerStateView| #[trigger]
            LedgerStateOverride::spec_coinbase(None).generated().contains(generated)
                && generated.network_upgrade_override is None && generated.height == Height(height),
{
    if MIN_HEIGHT <= height <= MAX_HEIGHT {
        let witness = LedgerStateOverride::spec_coinbase(None).apply(
            (height, Network::Mainnet, false, false),
        );
        assert(LedgerStateOverride::spec_coinbase(None).generated().contains(witness));
    }
}

} // verus!
