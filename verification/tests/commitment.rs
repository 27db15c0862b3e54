use proptest::strategy::{Strategy, ValueTree};
use proptest::test_runner::TestRunner;
use zebra_ledger::commitment::{reserved_bytes, Commitment, CommitmentError};
use zebra_ledger::parameters::{Height, Network};

/// The Jubjub base field modulus, little-endian.
const MODULUS: [u8; 32] = [
    0x01, 0x00, 0x00, 0x00, 0xff, 0xff, 0xff, 0xff, 0xfe, 0x5b, 0xfe, 0xff, 0x02, 0xa4, 0xbd,
    0x53, 0x05, 0xd8, 0xa1, 0x09, 0x08, 0xd8, 0x39, 0x33, 0x48, 0x7d, 0x9d, 0x29, 0x53, 0xa7,
    0xed, 0x73,
];

const SAPLING_HEIGHT: Height = Height(500_000);
const HEARTWOOD_ACTIVATION: Height = Height(903_000);

#[test]
fn reserved_bytes_are_zero() {
    assert_eq!(reserved_bytes(), [0u8; 32]);
}

#[test]
fn pre_sapling_bytes_are_not_validated() {
    let c = Commitment::from_bytes([0xffu8; 32], Network::Mainnet, Height(10));
    assert!(matches!(c, Ok(Commitment::PreSaplingReserved(b)) if b == [0xffu8; 32]));
}

#[test]
fn sapling_root_must_be_canonical() {
    let mut below = MODULUS;
    below[0] = 0x00;
    let c = Commitment::from_bytes(below, Network::Mainnet, SAPLING_HEIGHT);
    assert!(matches!(c, Ok(Commitment::FinalSaplingRoot(b)) if b == below));

    let c = Commitment::from_bytes(MODULUS, Network::Mainnet, SAPLING_HEIGHT);
    assert!(matches!(c, Err(CommitmentError::InvalidSaplingRootBytes)));

    let c = Commitment::from_bytes([0xffu8; 32], Network::Testnet, Height(584_000));
    assert!(matches!(c, Err(CommitmentError::InvalidSaplingRootBytes)));
}

#[test]
fn heartwood_activation_block_is_reserved() {
    let c = Commitment::from_bytes([0u8; 32], Network::Mainnet, HEARTWOOD_ACTIVATION);
    assert!(matches!(c, Ok(Commitment::ChainHistoryActivationReserved)));

    let c = Commitment::from_bytes([1u8; 32], Network::Mainnet, HEARTWOOD_ACTIVATION);
    assert!(matches!(
        c,
        Err(CommitmentError::InvalidChainHistoryActivationReserved { actual }) if actual == [1u8; 32]
    ));

    let c = Commitment::from_bytes([1u8; 32], Network::Mainnet, Height(903_001));
    assert!(matches!(c, Ok(Commitment::ChainHistoryRoot(b)) if b == [1u8; 32]));
}

#[test]
fn canopy_and_nu5_commitments() {
    let c = Commitment::from_bytes([5u8; 32], Network::Mainnet, Height(1_046_400));
    assert!(matches!(c, Ok(Commitment::ChainHistoryRoot(_))));
    let c = Commitment::from_bytes([5u8; 32], Network::Testnet, Height(1_842_420));
    assert!(matches!(c, Ok(Commitment::ChainHistoryBlockTxAuthCommitment(b)) if b == [5u8; 32]));
}

#[test]
fn from_sample_falls_back_to_reserved_bytes() {
    let c = Commitment::from_sample((MODULUS, Network::Mainnet, SAPLING_HEIGHT.0));
    assert!(matches!(c, Commitment::FinalSaplingRoot(b) if b == [0u8; 32]));

    let c = Commitment::from_sample(([1u8; 32], Network::Mainnet, HEARTWOOD_ACTIVATION.0));
    assert!(matches!(c, Commitment::ChainHistoryActivationReserved));

    let c = Commitment::from_sample(([1u8; 32], Network::Mainnet, 903_001));
    assert!(matches!(c, Commitment::ChainHistoryRoot(b) if b == [1u8; 32]));
}

#[test]
fn reserved_bytes_are_valid_everywhere() {
    for network in [Network::Mainnet, Network::Testnet] {
        for height in [0, 1, 207_500, 419_200, 903_000, 903_800, 1_046_400, 1_842_420, 499_999_999] {
            assert!(Commitment::from_bytes([0u8; 32], network, Height(height)).is_ok());
        }
    }
}

#[test]
fn arbitrary_commitments_are_generated() {
    let mut runner = TestRunner::deterministic();
    let strategy = Commitment::arbitrary();
    for _ in 0..64 {
        let _commitment: Commitment = strategy.new_tree(&mut runner).unwrap().current();
    }
}
