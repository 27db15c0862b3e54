//! The commitment field of block headers, whose meaning depends on the
//! network upgrade in force at the block's height.

use crate::crypto::{is_canonical_jubjub_base, jubjub_base_modulus, le_value};
use crate::ledger::both_networks;
use crate::parameters::{
    activation, current_upgrade, Height, Network, NetworkUpgrade, MAX_HEIGHT, MIN_HEIGHT,
};
use proptest::prelude::any;
use proptest::sample::select;
use proptest::strategy::{BoxedStrategy, Strategy};
use vstd::prelude::*;

verus! {

/// The meaning of a header's commitment bytes.
#[derive(Clone, Copy, Debug, PartialEq, Eq)]
pub enum Commitment {
    /// Before Sapling: a reserved field, not validated.
    PreSaplingReserved([u8; 32]),
    /// Sapling and Blossom: the root of the Sapling note commitment tree,
    /// a canonical Jubjub base field element.
    FinalSaplingRoot([u8; 32]),
    /// The Heartwood activation block: reserved, all zero bytes.
    ChainHistoryActivationReserved,
    /// Heartwood and Canopy after activation: the chain history tree root.
    ChainHistoryRoot([u8; 32]),
    /// NU5 onwards: the commitment to the chain history and the block's
    /// transaction authorizing data.
    ChainHistoryBlockTxAuthCommitment([u8; 32]),
}

/// Why commitment bytes are invalid at a height.
#[derive(Clone, Copy, Debug, PartialEq, Eq)]
pub enum CommitmentError {
    /// The bytes are not a canonical Sapling note commitment tree root.
    InvalidSaplingRootBytes,
    /// The Heartwood activation block's commitment is not all zero bytes.
    InvalidChainHistoryActivationReserved { actual: [u8; 32] },
}

/// The reserved commitment value: 32 zero bytes.
pub open spec fn spec_reserved_bytes() -> Seq<u8> {
    Seq::new(32, |i: int| 0u8)
}

/// Returns the reserved commitment value: 32 zero bytes.
pub fn reserved_bytes() -> (bytes: [u8; 32])
    ensures
        bytes@ == spec_reserved_bytes(),
{
    let bytes = [0u8; 32];
    proof {
        broadcast use vstd::array::axiom_spec_array_fill_for_copy_type;
        broadcast use vstd::array::array_len_matches_n;
        assert(bytes@ =~= spec_reserved_bytes());
    }
    bytes
}

/// Whether every byte of `bytes` is zero.
fn is_reserved(bytes: &[u8; 32]) -> (reserved: bool)
    ensures
        reserved == (bytes@ == spec_reserved_bytes()),
{
    broadcast use vstd::array::array_len_matches_n;
    let mut i: usize = 0;
    while i < 32
        invariant
            i <= 32,
            bytes@.len() == 32,
            forall|j: int| 0 <= j < i ==> bytes@[j] == 0u8,
        decreases 32 - i,
    {
        if bytes[i] != 0 {
            proof {
                assert(bytes@[i as int] != spec_reserved_bytes()[i as int]);
            }
            return false;
        }
        i = i + 1;
    }
    proof {
        assert(bytes@ =~= spec_reserved_bytes());
    }
    true
}

impl Commitment {
    /// The commitment that `bytes` are at `height` on `network`, or why they
    /// cannot be one: what they mean depends on the network upgrade in force.
    pub open spec fn spec_from_bytes(bytes: [u8; 32], network: Network, height: Height) -> Result<
        Commitment,
        CommitmentError,
    > {
        match current_upgrade(network, height.0) {
            NetworkUpgrade::Genesis
            | NetworkUpgrade::BeforeOverwinter
            | NetworkUpgrade::Overwinter => Ok(Commitment::PreSaplingReserved(bytes)),
            NetworkUpgrade::Sapling | NetworkUpgrade::Blossom => if le_value(bytes@)
                < jubjub_base_modulus() {
                Ok(Commitment::FinalSaplingRoot(bytes))
            } else {
                Err(CommitmentError::InvalidSaplingRootBytes)
            },
            NetworkUpgrade::Heartwood => if activation(NetworkUpgrade::Heartwood, network) == Some(
                height.0,
            ) {
                if bytes@ == spec_reserved_bytes() {
                    Ok(Commitment::ChainHistoryActivationReserved)
                } else {
                    Err(CommitmentError::InvalidChainHistoryActivationReserved { actual: bytes })
                }
            } else {
                Ok(Commitment::ChainHistoryRoot(bytes))
            },
            NetworkUpgrade::Canopy => Ok(Commitment::ChainHistoryRoot(bytes)),
            NetworkUpgrade::Nu5 => Ok(Commitment::ChainHistoryBlockTxAuthCommitment(bytes)),
        }
    }

    /// Returns the commitment that `bytes` are at `height` on `network`, or
    /// why they cannot be one.
    pub fn from_bytes(bytes: [u8; 32], network: Network, height: Height) -> (commitment: Result<
        Commitment,
        CommitmentError,
    >)
        ensures
            commitment == Self::spec_from_bytes(bytes, network, height),
    {
        match NetworkUpgrade::current(network, height) {
            NetworkUpgrade::Genesis
            | NetworkUpgrade::BeforeOverwinter
            | NetworkUpgrade::Overwinter => Ok(Commitment::PreSaplingReserved(bytes)),
            NetworkUpgrade::Sapling | NetworkUpgrade::Blossom => {
                if is_canonical_jubjub_base(&bytes) {
                    Ok(Commitment::FinalSaplingRoot(bytes))
                } else {
                    Err(CommitmentError::InvalidSaplingRootBytes)
                }
            },
            NetworkUpgrade::Heartwood => {
                let is_activation_height = match NetworkUpgrade::Heartwood.activation_height(
                    network,
                ) {
                    Some(start) => start.0 == height.0,
                    None => false,
                };
                if is_activation_height {
                    if is_reserved(&bytes) {
                        Ok(Commitment::ChainHistoryActivationReserved)
                    } else {
                        Err(CommitmentError::InvalidChainHistoryActivationReserved { actual: bytes })
                    }
                } else {
                    Ok(Commitment::ChainHistoryRoot(bytes))
                }
            },
            NetworkUpgrade::Canopy => Ok(Commitment::ChainHistoryRoot(bytes)),
            NetworkUpgrade::Nu5 => Ok(Commitment::ChainHistoryBlockTxAuthCommitment(bytes)),
        }
    }

    /// The commitment generated from one sample `(bytes, network, height)`:
    /// the commitment of the sampled bytes where they are valid, else that of
    /// the reserved bytes.
    pub open spec fn spec_from_sample(sample: ([u8; 32], Network, u32)) -> Commitment {
        match Self::spec_from_bytes(sample.0, sample.1, Height(sample.2)) {
            Ok(commitment) => commitment,
            Err(_) => Self::spec_reserved_commitment(sample.1, Height(sample.2)),
        }
    }

    /// The commitment that the reserved bytes are at `height` on `network`.
    pub open spec fn spec_reserved_commitment(network: Network, height: Height) -> Commitment {
        match current_upgrade(network, height.0) {
            NetworkUpgrade::Genesis
            | NetworkUpgrade::BeforeOverwinter
            | NetworkUpgrade::Overwinter => Commitment::PreSaplingReserved(
                vstd::array::spec_array_fill_for_copy_type::<u8, 32>(0u8),
            ),
            NetworkUpgrade::Sapling | NetworkUpgrade::Blossom => Commitment::FinalSaplingRoot(
                vstd::array::spec_array_fill_for_copy_type::<u8, 32>(0u8),
            ),
            NetworkUpgrade::Heartwood => if activation(NetworkUpgrade::Heartwood, network) == Some(
                height.0,
            ) {
                Commitment::ChainHistoryActivationReserved
            } else {
                Commitment::ChainHistoryRoot(
                    vstd::array::spec_array_fill_for_copy_type::<u8, 32>(0u8),
                )
            },
            NetworkUpgrade::Canopy => Commitment::ChainHistoryRoot(
                vstd::array::spec_array_fill_for_copy_type::<u8, 32>(0u8),
            ),
            NetworkUpgrade::Nu5 => Commitment::ChainHistoryBlockTxAuthCommitment(
                vstd::array::spec_array_fill_for_copy_type::<u8, 32>(0u8),
            ),
        }
    }

    /// Builds the commitment for one sample `(bytes, network, height)`: the
    /// commitment of the bytes if they are valid at that height, otherwise the
    /// reserved bytes, which are valid at every height.
    pub fn from_sample(sample: ([u8; 32], Network, u32)) -> (commitment: Commitment)
        ensures
            commitment == Self::spec_from_sample(sample),
    {
        let (commitment_bytes, network, block_height) = sample;
        let block_height = Height(block_height);
        match Commitment::from_bytes(commitment_bytes, network, block_height) {
            Ok(commitment) => commitment,
            // just fix up the reserved values when they fail
            Err(_) => {
                let reserved = reserved_bytes();
                proof {
                    lemma_reserved_bytes_always_valid(network, block_height);
                    assert(reserved == vstd::array::spec_array_fill_for_copy_type::<u8, 32>(0u8));
                }
                match Commitment::from_bytes(reserved, network, block_height) {
                    Ok(commitment) => commitment,
                    Err(_) => Commitment::ChainHistoryActivationReserved,
                }
            },
        }
    }

    /// The commitments generated from every sample of bytes, network and
    /// valid height.
    pub open spec fn generated() -> Set<Commitment> {
        Set::new(
            |commitment: Commitment|
                exists|bytes: [u8; 32], network: Network, height: u32|
                    MIN_HEIGHT <= height <= MAX_HEIGHT && commitment
                        == #[trigger] Self::spec_from_sample((bytes, network, height)),
        )
    }

    /// Returns a strategy for arbitrary commitments: arbitrary bytes, network
    /// and height, mapped through [`Commitment::from_sample`].
    pub fn arbitrary() -> (strategy: BoxedStrategy<Commitment>)
        ensures
            commitment_values(strategy) == Commitment::generated(),
    {
        let networks = both_networks();
        proof {
            assert forall|network: Network| #[trigger] networks@.contains(network) by {
                match network {
                    Network::Mainnet => assert(networks@[0] == network),
                    Network::Testnet => assert(networks@[1] == network),
                }
            }
            assert(sampled_commitments(networks@, MIN_HEIGHT, MAX_HEIGHT)
                =~= Commitment::generated());
        }
        commitment_strategy(networks, MIN_HEIGHT, MAX_HEIGHT)
    }
}

/// The reserved bytes are a valid commitment at every height on every
/// network, and mean [`Commitment::spec_reserved_commitment`] there.
pub proof fn lemma_reserved_bytes_always_valid(network: Network, height: Height)
    ensures
        Commitment::spec_from_bytes(
            vstd::array::spec_array_fill_for_copy_type::<u8, 32>(0u8),
            network,
            height,
        ) == Ok::<Commitment, CommitmentError>(
            Commitment::spec_reserved_commitment(network, height),
        ),
{
    broadcast use vstd::array::axiom_spec_array_fill_for_copy_type;
    broadcast use vstd::array::array_len_matches_n;

    let zeros = vstd::array::spec_array_fill_for_copy_type::<u8, 32>(0u8);
    assert(zeros@ =~= spec_reserved_bytes());
    lemma_le_value_zero(zeros@);
}

/// All-zero bytes encode zero.
proof fn lemma_le_value_zero(bytes: Seq<u8>)
    requires
        forall|i: int| 0 <= i < bytes.len() ==> bytes[i] == 0u8,
    ensures
        le_value(bytes) == 0,
    decreases bytes.len(),
{
    if bytes.len() > 0 {
        lemma_le_value_zero(bytes.drop_first());
    }
}

/// The commitments that a proptest strategy can generate.
pub uninterp spec fn commitment_values(strategy: BoxedStrategy<Commitment>) -> Set<Commitment>;

/// The commitments built by [`Commitment::from_sample`] from every sample
/// with a network in `networks` and a height from `min_height` to `max_height`.
pub open spec fn sampled_commitments(networks: Seq<Network>, min_height: u32, max_height: u32) -> Set<
    Commitment,
> {
    Set::new(
        |commitment: Commitment|
            exists|bytes: [u8; 32], network: Network, height: u32|
                networks.contains(network) && min_height <= height <= max_height && commitment
                    == #[trigger] Commitment::spec_from_sample((bytes, network, height)),
    )
}

/// Builds a proptest strategy (`prop_map` over a tuple of `any` 32-byte
/// arrays, `sample::select` and a `RangeInclusive<u32>`, then `boxed`) that
/// maps each sample through [`Commitment::from_sample`].
///
/// Claimed: the strategy generates (and shrinks to) exactly the commitments
/// that `from_sample` builds from samples with a network among `networks`
/// and a height in the range; every such sample can be drawn.
#[verifier::external_body]
fn commitment_strategy(networks: Vec<Network>, min_height: u32, max_height: u32) -> (strategy:
    BoxedStrategy<Commitment>)
    requires
        networks@.len() > 0,
        min_height <= max_height,
    ensures
        commitment_values(strategy) == sampled_commitments(networks@, min_height, max_height),
{
    (any::<[u8; 32]>(), select(networks), min_height..=max_height)
        .prop_map(Commitment::from_sample)
        .boxed()
}

/// Every generated commitment is a valid commitment at the sampled network
/// and height: the commitment of the sampled bytes where they are valid
/// there, and otherwise what the reserved bytes mean at that same network and
/// height.
pub proof fn lemma_generated_commitment_is_valid(sample: ([u8; 32], Network, u32))
    ensures
        exists|bytes: [u8; 32]| #[trigger]
            Commitment::spec_from_bytes(bytes, sample.1, Height(sample.2)) == Ok::<
                Commitment,
                CommitmentError,
            >(Commitment::spec_from_sample(sample)),
        Commitment::spec_from_bytes(sample.0, sample.1, Height(sample.2)) matches Ok(commitment)
            ==> Commitment::spec_from_sample(sample) == commitment,
        Commitment::spec_from_bytes(sample.0, sample.1, Height(sample.2)) is Err
            ==> Commitment::spec_from_bytes(
            vstd::array::spec_array_fill_for_copy_type::<u8, 32>(0u8),
            sample.1,
            Height(sample.2),
        ) == Ok::<Commitment, CommitmentError>(Commitment::spec_from_sample(sample)),
{
    lemma_reserved_bytes_always_valid(sample.1, Height(sample.2));
    let zeros = vstd::array::spec_array_fill_for_copy_type::<u8, 32>(0u8);
    if Commitment::spec_from_bytes(sample.0, sample.1, Height(sample.2)) is Ok {
        assert(Commitment::spec_from_bytes(sample.0, sample.1, Height(sample.2)) == Ok::<
            Commitment,
            CommitmentError,
        >(Commitment::spec_from_sample(sample)));
    } else {
        assert(Commitment::spec_from_bytes(zeros, sample.1, Height(sample.2)) == Ok::<
            Commitment,
            CommitmentError,
        >(Commitment::spec_from_sample(sample)));
    }
}

/// The kind of every generated commitment is the one of the network upgrade
/// in force at the sampled network and height: a reserved field before
/// Sapling, a canonical Sapling tree root in Sapling and Blossom, the reserved
/// marker at the Heartwood activation block, the chain history root after it
/// until NU5, and the block commitment from NU5 on.
pub proof fn lemma_generated_commitment_kind(sample: ([u8; 32], Network, u32))
    ensures
        ({
            let commitment = Commitment::spec_from_sample(sample);
            match current_upgrade(sample.1, sample.2) {
                NetworkUpgrade::Genesis
                | NetworkUpgrade::BeforeOverwinter
                | NetworkUpgrade::Overwinter => commitment is PreSaplingReserved,
                NetworkUpgrade::Sapling | NetworkUpgrade::Blossom => commitment matches
                    Commitment::FinalSaplingRoot(root) && le_value(root@) < jubjub_base_modulus(),
                NetworkUpgrade::Heartwood => if activation(NetworkUpgrade::Heartwood, sample.1)
                    == Some(sample.2) {
                    commitment is ChainHistoryActivationReserved
                } else {
                    commitment is ChainHistoryRoot
                },
                NetworkUpgrade::Canopy => commitment is ChainHistoryRoot,
                NetworkUpgrade::Nu5 => commitment is ChainHistoryBlockTxAuthCommitment,
            }
        }),
{
    broadcast use vstd::array::axiom_spec_array_fill_for_copy_type;
    broadcast use vstd::array::array_len_matches_n;

    let zeros = vstd::array::spec_array_fill_for_copy_type::<u8, 32>(0u8);
    lemma_reserved_bytes_always_valid(sample.1, Height(sample.2));
    lemma_le_value_zero(zeros@);
}

} // verus!
