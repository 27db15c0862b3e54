//! Block hashes, block headers and blocks.

use crate::crypto::{sha256, sha256_digest};
use crate::ledger::{lemma_ledger_state_view, LedgerState, LedgerStateOverride, LedgerStateView};
use crate::parameters::{Height, Network, NetworkUpgrade};
use proptest::collection::vec as vec_of;
use proptest::prelude::any;
use proptest::strategy::{BoxedStrategy, Strategy};
use std::sync::Arc;
use vstd::prelude::*;

verus! {

/// The hash of a block header: the double SHA-256 of its serialization.
#[derive(Clone, Copy, Debug, PartialEq, Eq)]
pub struct Hash(pub [u8; 32]);

/// The previous block hash of the genesis block.
pub open spec fn spec_genesis_previous_block_hash() -> Hash {
    Hash(vstd::array::spec_array_fill_for_copy_type::<u8, 32>(0u8))
}

/// Returns the previous block hash of the genesis block: all zero bytes.
pub fn genesis_previous_block_hash() -> (hash: Hash)
    ensures
        hash == spec_genesis_previous_block_hash(),
        hash.0@ == Seq::new(32, |i: int| 0u8),
{
    let hash = Hash([0u8; 32]);
    proof {
        broadcast use vstd::array::axiom_spec_array_fill_for_copy_type;
        broadcast use vstd::array::array_len_matches_n;
        assert(hash.0@ =~= Seq::new(32, |i: int| 0u8));
    }
    hash
}

/// The size in bytes of an Equihash solution.
pub const SOLUTION_SIZE: usize = 1344;

/// A block header.
#[derive(Clone, Debug, PartialEq, Eq)]
pub struct Header {
    /// The block's version field.
    pub version: u32,
    /// The hash of the previous block's header.
    pub previous_block_hash: Hash,
    /// The root of the transaction Merkle tree.
    pub merkle_root: [u8; 32],
    /// The commitment field, whose meaning depends on the network upgrade.
    pub commitment_bytes: [u8; 32],
    /// The block time, in seconds since the Unix epoch.
    pub time: u32,
    /// The difficulty threshold, in compact form.
    pub difficulty_threshold: u32,
    /// The Equihash nonce.
    pub nonce: [u8; 32],
    /// The Equihash solution.
    pub solution: Vec<u8>,
}

/// A block. Only its header is modelled here: blocks carry no transactions,
/// so the coinbase settings of a ledger state affect no generated block.
#[derive(Clone, Debug, PartialEq, Eq)]
pub struct Block {
    /// The block header.
    pub header: Header,
}

/// The `count` bytes of `value` modulo `256^count`, least significant first.
pub open spec fn le_bytes(value: nat, count: nat) -> Seq<u8>
    decreases count,
{
    if count == 0 {
        Seq::empty()
    } else {
        seq![(value % 256) as u8] + le_bytes(value / 256, (count - 1) as nat)
    }
}

/// The CompactSize encoding of a length.
pub open spec fn compact_size_bytes(n: nat) -> Seq<u8> {
    if n < 253 {
        seq![n as u8]
    } else if n <= 0xffff {
        seq![253u8] + le_bytes(n, 2)
    } else if n <= 0xffff_ffff {
        seq![254u8] + le_bytes(n, 4)
    } else {
        seq![255u8] + le_bytes(n, 8)
    }
}

/// The serialization of a block header.
pub open spec fn header_bytes(header: Header) -> Seq<u8> {
    le_bytes(header.version as nat, 4) + header.previous_block_hash.0@ + header.merkle_root@
        + header.commitment_bytes@ + le_bytes(header.time as nat, 4) + le_bytes(
        header.difficulty_threshold as nat,
        4,
    ) + header.nonce@ + compact_size_bytes(header.solution@.len()) + header.solution@
}

/// The hash of a block header: SHA-256 applied twice to its serialization.
pub open spec fn header_hash(header: Header) -> Seq<u8> {
    sha256_digest(sha256_digest(header_bytes(header)))
}

/// Appends the `count` low bytes of `value`, least significant first.
fn push_le(out: &mut Vec<u8>, value: u64, count: usize)
    ensures
        final(out)@ == old(out)@ + le_bytes(value as nat, count as nat),
    decreases count,
{
    if count > 0 {
        let ghost start = out@;
        out.push((value % 256) as u8);
        push_le(out, value / 256, count - 1);
        proof {
            assert(out@ =~= start + le_bytes(value as nat, count as nat));
        }
    } else {
        proof {
            assert(out@ =~= old(out)@ + le_bytes(value as nat, count as nat));
        }
    }
}

/// Appends the CompactSize encoding of `n`.
fn push_compact_size(out: &mut Vec<u8>, n: usize)
    ensures
        final(out)@ == old(out)@ + compact_size_bytes(n as nat),
{
    let ghost start = out@;
    if n < 253 {
        out.push(n as u8);
    } else if n <= 0xffff {
        out.push(253u8);
        push_le(out, n as u64, 2);
    } else if n as u64 <= 0xffff_ffffu64 {
        out.push(254u8);
        push_le(out, n as u64, 4);
    } else {
        out.push(255u8);
        push_le(out, n as u64, 8);
    }
    proof {
        assert(out@ =~= start + compact_size_bytes(n as nat));
    }
}

/// Appends `bytes`.
fn push_all(out: &mut Vec<u8>, bytes: &[u8])
    ensures
        final(out)@ == old(out)@ + bytes@,
{
    let ghost start = out@;
    let mut i: usize = 0;
    while i < bytes.len()
        invariant
            i <= bytes@.len(),
            out@ == start + bytes@.subrange(0, i as int),
        decreases bytes@.len() - i,
    {
        out.push(bytes[i]);
        i = i + 1;
        proof {
            assert(out@ =~= start + bytes@.subrange(0, i as int));
        }
    }
    proof {
        assert(bytes@.subrange(0, i as int) =~= bytes@);
    }
}

impl Header {
    /// Serializes the header: the version, the previous block hash, the Merkle
    /// root, the commitment, the time and the difficulty threshold (integers
    /// as four little-endian bytes), the nonce, and the solution preceded by
    /// its CompactSize length.
    pub fn zcash_serialize(&self) -> (bytes: Vec<u8>)
        ensures
            bytes@ == header_bytes(*self),
    {
        let mut out: Vec<u8> = Vec::new();
        push_le(&mut out, self.version as u64, 4);
        push_all(&mut out, &self.previous_block_hash.0);
        push_all(&mut out, &self.merkle_root);
        push_all(&mut out, &self.commitment_bytes);
        push_le(&mut out, self.time as u64, 4);
        push_le(&mut out, self.difficulty_threshold as u64, 4);
        push_all(&mut out, &self.nonce);
        push_compact_size(&mut out, self.solution.len());
        push_all(&mut out, self.solution.as_slice());
        proof {
            assert(out@ =~= header_bytes(*self));
        }
        out
    }

    /// Returns the hash of this header.
    pub fn hash(&self) -> (hash: Hash)
        ensures
            hash.0@ == header_hash(*self),
    {
        let bytes = self.zcash_serialize();
        let first = sha256(bytes.as_slice());
        let second = sha256(&first);
        Hash(second)
    }
}

impl Block {
    /// Returns the hash of this block's header.
    pub fn hash(&self) -> (hash: Hash)
        ensures
            hash.0@ == header_hash(self.header),
    {
        self.header.hash()
    }
}

/// The arbitrary parts of a header, in field order: version, previous block
/// hash, Merkle root, commitment bytes, time, difficulty threshold, nonce and
/// solution.
pub type HeaderSample = (u32, [u8; 32], [u8; 32], [u8; 32], u32, u32, [u8; 32], Vec<u8>);

impl Header {
    /// The previous block hash of a header generated for `ledger`: its override
    /// if it has one, else the genesis previous block hash at height zero, else
    /// the arbitrary `sampled` hash.
    pub open spec fn generated_previous_block_hash(ledger: LedgerStateView, sampled: [u8; 32]) -> Hash {
        match ledger.previous_block_hash_override {
            Some(hash) => hash,
            None => if ledger.height == Height(0) {
                spec_genesis_previous_block_hash()
            } else {
                Hash(sampled)
            },
        }
    }

    /// The header generated for `ledger` from one sample of its arbitrary parts.
    pub open spec fn spec_from_sample(ledger: LedgerStateView, sample: HeaderSample) -> Header {
        Header {
            version: sample.0,
            previous_block_hash: Self::generated_previous_block_hash(ledger, sample.1),
            merkle_root: sample.2,
            commitment_bytes: sample.3,
            time: sample.4,
            difficulty_threshold: sample.5,
            nonce: sample.6,
            solution: sample.7,
        }
    }

    /// Builds the header for `ledger_state` from one sample of its arbitrary
    /// parts, replacing the sampled previous block hash with the ledger's
    /// override, or with the genesis previous block hash at height zero.
    pub fn from_sample(ledger_state: LedgerState, sample: HeaderSample) -> (header: Header)
        ensures
            header == Self::spec_from_sample(ledger_state@, sample),
    {
        proof {
            lemma_ledger_state_view(ledger_state);
        }
        let (
            version,
            sampled_previous_block_hash,
            merkle_root,
            commitment_bytes,
            time,
            difficulty_threshold,
            nonce,
            solution,
        ) = sample;
        let mut previous_block_hash = Hash(sampled_previous_block_hash);
        if let Some(previous_block_hash_override) = ledger_state.previous_block_hash_override {
            previous_block_hash = previous_block_hash_override;
        } else if ledger_state.height == Height(0) {
            previous_block_hash = genesis_previous_block_hash();
        }
        Header {
            version,
            previous_block_hash,
            merkle_root,
            commitment_bytes,
            time,
            difficulty_threshold,
            nonce,
            solution,
        }
    }

    /// The headers generated for `ledger`: those built from every sample with
    /// a version from 4 up to (not including) `i32::MAX` and a solution of
    /// [`SOLUTION_SIZE`] bytes.
    pub open spec fn generated(ledger: LedgerStateView) -> Set<Header> {
        sampled_headers(ledger, 4, 0x7fff_ffff, SOLUTION_SIZE as nat)
    }

    /// Returns a strategy for arbitrary headers of blocks generated for
    /// `ledger_state`: arbitrary fields, with a version from 4 up to
    /// `i32::MAX` and a solution of [`SOLUTION_SIZE`] bytes, and the previous
    /// block hash chosen as [`Header::from_sample`] says.
    pub fn arbitrary_with(ledger_state: LedgerState) -> (strategy: BoxedStrategy<Header>)
        ensures
            header_values(strategy) == Header::generated(ledger_state@),
    {
        // version is interpreted as i32 in the spec, so we are limited to i32::MAX here
        header_strategy(ledger_state, 4u32, i32::MAX as u32, SOLUTION_SIZE)
    }
}

/// The headers that a proptest strategy can generate.
pub uninterp spec fn header_values(strategy: BoxedStrategy<Header>) -> Set<Header>;

/// The headers built by [`Header::from_sample`] for `ledger` from every sample
/// with a version from `version_start` up to (not including) `version_end`
/// and a solution of `solution_len` bytes.
pub open spec fn sampled_headers(
    ledger: LedgerStateView,
    version_start: u32,
    version_end: u32,
    solution_len: nat,
) -> Set<Header> {
    Set::new(
        |header: Header|
            exists|sample: HeaderSample|
                version_start <= sample.0 < version_end && sample.7@.len() == solution_len
                    && header == #[trigger] Header::spec_from_sample(ledger, sample),
    )
}

/// Builds a proptest strategy (`prop_map` over a tuple of a `Range<u32>`,
/// `any` arrays and integers and a `collection::vec` of bytes, then `boxed`)
/// that maps each sample through [`Header::from_sample`].
///
/// Claimed: the strategy generates (and shrinks to) exactly the headers that
/// `from_sample` builds from samples with a version in the range and a
/// solution of `solution_len` bytes; every such sample can be drawn.
#[verifier::external_body]
fn header_strategy(
    ledger_state: LedgerState,
    version_start: u32,
    version_end: u32,
    solution_len: usize,
) -> (strategy: BoxedStrategy<Header>)
    requires
        version_start < version_end,
    ensures
        header_values(strategy) == sampled_headers(
            ledger_state@,
            version_start,
            version_end,
            solution_len as nat,
        ),
{
    (
        version_start..version_end,
        any::<[u8; 32]>(),
        any::<[u8; 32]>(),
        any::<[u8; 32]>(),
        any::<u32>(),
        any::<u32>(),
        any::<[u8; 32]>(),
        vec_of(any::<u8>(), solution_len),
    )
        .prop_map(move |sample| Header::from_sample(ledger_state, sample))
        .boxed()
}

/// The blocks that a proptest strategy can generate.
pub uninterp spec fn block_values(strategy: BoxedStrategy<Block>) -> Set<Block>;

impl Block {
    /// The block with `header`.
    pub open spec fn spec_new(header: Header) -> Block {
        Block { header }
    }

    /// The block with `header`.
    pub fn new(header: Header) -> (block: Block)
        ensures
            block.header == header,
            block == Self::spec_new(header),
    {
        Block { header }
    }

    /// The blocks generated for `ledger`: those with the headers generated
    /// for it.
    pub open spec fn generated(ledger: LedgerStateView) -> Set<Block> {
        Header::generated(ledger).map(|header: Header| Block::spec_new(header))
    }

    /// Returns a strategy for arbitrary blocks generated for `ledger_state`,
    /// with headers from [`Header::arbitrary_with`].
    pub fn arbitrary_with(ledger_state: LedgerState) -> (strategy: BoxedStrategy<Block>)
        ensures
            block_values(strategy) == Block::generated(ledger_state@),
    {
        block_strategy(Header::arbitrary_with(ledger_state))
    }
}

/// Maps a proptest header strategy through [`Block::new`] (`prop_map`, then
/// `boxed`).
///
/// Claimed: the strategy generates (and shrinks to) exactly the blocks with
/// the headers that `headers` generates.
#[verifier::external_body]
fn block_strategy(headers: BoxedStrategy<Header>) -> (strategy: BoxedStrategy<Block>)
    ensures
        block_values(strategy) == header_values(headers).map(
            |header: Header| Block::spec_new(header),
        ),
{
    headers.prop_map(Block::new).boxed()
}

impl Header {
    /// This header with its previous block hash replaced by `hash`.
    pub open spec fn with_previous_block_hash(self, hash: Hash) -> Header {
        Header { previous_block_hash: hash, ..self }
    }
}

impl Block {
    /// Whether `chain` is `blocks` with each block after the first pointing to
    /// the hash of the (already linked) block before it.
    pub open spec fn is_linked_chain(blocks: Seq<Block>, chain: Seq<Arc<Block>>) -> bool {
        &&& chain.len() == blocks.len()
        &&& chain.len() > 0 ==> chain[0].header == blocks[0].header
        &&& forall|i: int|
            1 <= i < chain.len() ==> (#[trigger] chain[i]).header.previous_block_hash.0@
                == header_hash(chain[i - 1].header) && chain[i].header
                == blocks[i].header.with_previous_block_hash(chain[i].header.previous_block_hash)
    }

    /// Links `blocks` into a chain: every block after the first gets the hash
    /// of the block before it (after that block was itself linked) as its
    /// previous block hash. The first block keeps its previous block hash.
    pub fn link_previous_hashes(blocks: Vec<Block>) -> (chain: Vec<Arc<Block>>)
        ensures
            Self::is_linked_chain(blocks@, chain@),
    {
        let ghost original = blocks@;
        let mut chain: Vec<Arc<Block>> = Vec::new();
        let mut previous_block_hash: Option<Hash> = None;
        for block in iter: blocks.into_iter()
            invariant
                iter.seq() == original,
                chain@.len() == iter.index(),
                iter.index() <= original.len(),
                chain@.len() == 0 <==> previous_block_hash is None,
                chain@.len() > 0 ==> previous_block_hash.unwrap().0@ == header_hash(
                    chain@[chain@.len() - 1].header,
                ),
                chain@.len() > 0 ==> chain@[0].header == original[0].header,
                forall|i: int|
                    1 <= i < chain@.len() ==> (#[trigger] chain@[i]).header.previous_block_hash.0@
                        == header_hash(chain@[i - 1].header) && chain@[i].header
                        == original[i].header.with_previous_block_hash(
                        chain@[i].header.previous_block_hash,
                    ),
        {
            let mut block = block;
            if let Some(previous_block_hash) = previous_block_hash {
                block.header.previous_block_hash = previous_block_hash;
            }
            previous_block_hash = Some(block.hash());
            chain.push(Arc::new(block));
        }
        chain
    }
}

impl Block {
    /// The ledger states of the blocks of a partial chain of `count` blocks
    /// starting at `current`: the `i`-th is `current` at height
    /// `current.height + i`.
    pub fn partial_chain_ledger_states(current: LedgerState, count: usize) -> (states: Vec<
        LedgerState,
    >)
        requires
            current@.height.0 + count <= u32::MAX,
        ensures
            states@.len() == count,
            forall|i: int|
                0 <= i < count ==> (#[trigger] states@[i])@.height.0 == current@.height.0 + i
                    && states@[i]@.same_except_height(current@),
            forall|i: int|
                0 <= i < count ==> (#[trigger] states@[i])@ == current@.with_height(
                    Height((current@.height.0 + i) as u32),
                ),
    {
        proof {
            lemma_ledger_state_view(current);
        }
        let ghost start = current;
        let mut states: Vec<LedgerState> = Vec::with_capacity(count);
        let mut current = current;
        for i in 0..count
            invariant
                start.height.0 + count <= u32::MAX,
                states@.len() == i,
                current.height.0 == start.height.0 + i,
                current@.same_except_height(start@),
                forall|j: int|
                    0 <= j < i ==> (#[trigger] states@[j])@.height.0 == start@.height.0 + j
                        && states@[j]@.same_except_height(start@),
        {
            proof {
                lemma_ledger_state_view(current);
                lemma_ledger_state_view(start);
            }
            states.push(current);
            current.height.0 = current.height.0 + 1;
            proof {
                lemma_ledger_state_view(current);
            }
        }
        proof {
            assert forall|i: int| 0 <= i < count implies (#[trigger] states@[i])@ == start@.with_height(
                Height((start@.height.0 + i) as u32),
            ) by {
                let v = states@[i]@;
                assert(v.height == Height((start@.height.0 + i) as u32));
            }
        }
        states
    }

    /// The chains generated for `current` with `count` blocks: the `i`-th
    /// block is generated for `current` at height `current.height + i`, and
    /// the blocks are linked.
    pub open spec fn generated_chains(current: LedgerStateView, count: nat) -> Set<
        Seq<Arc<Block>>,
    > {
        linked_chains(
            Seq::new(
                count,
                |i: int| Block::generated(current.with_height(Height((current.height.0 + i) as u32))),
            ),
        )
    }

    /// Returns a strategy for creating Vecs of blocks with increasing height of
    /// the given length: the `i`-th block is generated for `current` at height
    /// `current.height + i`, and the blocks are then linked by
    /// [`Block::link_previous_hashes`].
    pub fn partial_chain_strategy(current: LedgerState, count: usize) -> (strategy: BoxedStrategy<
        Vec<Arc<Self>>,
    >)
        requires
            current@.height.0 + count <= u32::MAX,
        ensures
            chain_values(strategy) == Block::generated_chains(current@, count as nat),
    {
        let states = Self::partial_chain_ledger_states(current, count);
        let mut blocks: Vec<BoxedStrategy<Block>> = Vec::with_capacity(count);

        // generate block strategies with the correct heights
        for i in 0..count
            invariant
                states@.len() == count,
                blocks@.len() == i,
                forall|j: int|
                    0 <= j < i ==> block_values(#[trigger] blocks@[j]) == Block::generated(
                        states@[j]@,
                    ),
        {
            blocks.push(Block::arbitrary_with(states[i]));
        }

        proof {
            let parts = Seq::new(
                count as nat,
                |i: int| Block::generated(current@.with_height(Height((current@.height.0 + i) as u32))),
            );
            assert(blocks@.map_values(|part: BoxedStrategy<Block>| block_values(part))
                =~= parts);
        }

        // after the vec strategy generates blocks, update the previous block hashes
        chain_strategy(blocks)
    }
}

/// The chains, as sequences of shared blocks, that a proptest strategy can
/// generate.
pub uninterp spec fn chain_values(strategy: BoxedStrategy<Vec<Arc<Block>>>) -> Set<
    Seq<Arc<Block>>,
>;

/// The chains linked from one block of each of `parts`, in order.
pub open spec fn linked_chains(parts: Seq<Set<Block>>) -> Set<Seq<Arc<Block>>> {
    Set::new(
        |chain: Seq<Arc<Block>>|
            exists|blocks: Seq<Block>|
                blocks.len() == parts.len() && (forall|i: int|
                    0 <= i < blocks.len() ==> parts[i].contains(#[trigger] blocks[i]))
                    && #[trigger] Block::is_linked_chain(blocks, chain),
    )
}

/// Maps a vector of proptest block strategies (itself a strategy of vectors)
/// through [`Block::link_previous_hashes`] (`prop_map`, then `boxed`).
///
/// Claimed: the strategy generates (and shrinks to) exactly the chains that
/// `link_previous_hashes` links from one block generated by each strategy of
/// `blocks`, in order.
#[verifier::external_body]
fn chain_strategy(blocks: Vec<BoxedStrategy<Block>>) -> (strategy: BoxedStrategy<Vec<Arc<Block>>>)
    ensures
        chain_values(strategy) == linked_chains(
            blocks@.map_values(|part: BoxedStrategy<Block>| block_values(part)),
        ),
{
    blocks.prop_map(Block::link_previous_hashes).boxed()
}

/// Blocks generated for a ledger state with the genesis overrides follow the
/// genesis previous block hash, whatever was sampled.
pub proof fn lemma_genesis_ledger_blocks_follow_genesis(
    upgrade: Option<NetworkUpgrade>,
    ledger_sample: (u32, Network, bool, bool),
    header_sample: HeaderSample,
)
    ensures
        Header::spec_from_sample(
            LedgerStateOverride::spec_genesis(upgrade).apply(ledger_sample),
            header_sample,
        ).previous_block_hash == spec_genesis_previous_block_hash(),
{
}

/// A header generated at height zero without a previous block hash override
/// follows the genesis previous block hash; with an override, it follows the
/// override at every height.
pub proof fn lemma_generated_previous_block_hash(
    ledger: LedgerStateView,
    header_sample: HeaderSample,
)
    ensures
        ledger.previous_block_hash_override matches Some(hash) ==> Header::spec_from_sample(
            ledger,
            header_sample,
        ).previous_block_hash == hash,
        ledger.previous_block_hash_override is None && ledger.height == Height(0)
            ==> Header::spec_from_sample(ledger, header_sample).previous_block_hash
            == spec_genesis_previous_block_hash(),
        ledger.previous_block_hash_override is None && ledger.height != Height(0)
            ==> Header::spec_from_sample(ledger, header_sample).previous_block_hash
            == Hash(header_sample.1),
{
}

/// Linking keeps the number and order of blocks and changes nothing but the
/// previous block hashes of the blocks after the first; each of those then
/// points to the hash of the linked block before it.
pub proof fn lemma_linked_chain_hashes(blocks: Seq<Block>, chain: Seq<Arc<Block>>, i: int)
    requires
        Block::is_linked_chain(blocks, chain),
        1 <= i < chain.len(),
    ensures
        chain[i].header.previous_block_hash.0@ == header_hash(chain[i - 1].header),
        chain[i].header.version == blocks[i].header.version,
        chain[i].header.merkle_root == blocks[i].header.merkle_root,
        chain[i].header.commitment_bytes == blocks[i].header.commitment_bytes,
        chain[i].header.time == blocks[i].header.time,
        chain[i].header.difficulty_threshold == blocks[i].header.difficulty_threshold,
        chain[i].header.nonce == blocks[i].header.nonce,
        chain[i].header.solution == blocks[i].header.solution,
{
    assert(chain[i].header == blocks[i].header.with_previous_block_hash(
        chain[i].header.previous_block_hash,
    ));
}

/// Every header generated for a ledger state has a version from 4 up to
/// `i32::MAX` and a solution of [`SOLUTION_SIZE`] bytes, and follows the
/// ledger's previous block hash override when it has one, or at height zero
/// without one, the genesis previous block hash.
pub proof fn lemma_generated_headers(ledger: LedgerStateView, header: Header)
    requires
        Header::generated(ledger).contains(header),
    ensures
        4 <= header.version < 2_147_483_647,
        header.solution@.len() == 1344,
        ledger.previous_block_hash_override matches Some(hash) ==> header.previous_block_hash
            == hash,
        ledger.previous_block_hash_override is None && ledger.height.0 == 0
            ==> header.previous_block_hash.0@ == Seq::new(32, |i: int| 0u8),
{
    let sample = choose|sample: HeaderSample|
        4 <= sample.0 < 0x7fff_ffff && sample.7@.len() == SOLUTION_SIZE as nat && header
            == #[trigger] Header::spec_from_sample(ledger, sample);
    if ledger.previous_block_hash_override is None && ledger.height.0 == 0 {
        broadcast use vstd::array::axiom_spec_array_fill_for_copy_type;
        broadcast use vstd::array::array_len_matches_n;
        assert(header.previous_block_hash == spec_genesis_previous_block_hash());
        assert(header.previous_block_hash.0@ =~= Seq::new(32, |i: int| 0u8));
    }
}

/// Away from height zero and without an override, generated headers can
/// follow any previous block hash.
pub proof fn lemma_generated_headers_any_previous_hash(
    ledger: LedgerStateView,
    hash: [u8; 32],
    solution: Vec<u8>,
)
    requires
        ledger.previous_block_hash_override is None,
        ledger.height.0 != 0,
        solution@.len() == 1344,
    ensures
        exists|header: Header| #[trigger]
            Header::generated(ledger).contains(header) && header.previous_block_hash == Hash(hash),
{
    let zeros = vstd::array::spec_array_fill_for_copy_type::<u8, 32>(0u8);
    let sample: HeaderSample = (4u32, hash, zeros, zeros, 0u32, 0u32, zeros, solution);
    let header = Header::spec_from_sample(ledger, sample);
    assert(Header::generated(ledger).contains(header));
}

/// Every block generated for a ledger state has a header generated for it.
pub proof fn lemma_generated_blocks(ledger: LedgerStateView, block: Block)
    requires
        Block::generated(ledger).contains(block),
    ensures
        Header::generated(ledger).contains(block.header),
        ledger.previous_block_hash_override matches Some(hash) ==> block.header.previous_block_hash
            == hash,
        ledger.previous_block_hash_override is None && ledger.height.0 == 0
            ==> block.header.previous_block_hash.0@ == Seq::new(32, |i: int| 0u8),
{
    let header = choose|header: Header|
        Header::generated(ledger).contains(header) && block == Block::spec_new(header);
    lemma_generated_headers(ledger, header);
}

/// Every chain that the partial chain strategy generates from `current` has
/// `count` blocks; its first block is a block generated for `current` itself,
/// so it starts from `current`'s previous block hash override, or at height
/// zero from the genesis previous block hash; and each later block points at
/// the hash of the block before it.
pub proof fn lemma_generated_chains(current: LedgerStateView, count: nat, chain: Seq<Arc<Block>>)
    requires
        Block::generated_chains(current, count).contains(chain),
        current.height.0 + count <= u32::MAX,
    ensures
        chain.len() == count,
        count > 0 ==> Block::generated(current).contains(*chain[0]),
        count > 0 ==> Header::generated(current).contains(chain[0].header),
        count > 0 && current.previous_block_hash_override is None && current.height.0 == 0
            ==> chain[0].header.previous_block_hash.0@ == Seq::new(32, |i: int| 0u8),
        count > 0 ==> (current.previous_block_hash_override matches Some(hash)
            ==> chain[0].header.previous_block_hash == hash),
        forall|i: int|
            1 <= i < count ==> (#[trigger] chain[i]).header.previous_block_hash.0@ == header_hash(
                chain[i - 1].header,
            ),
{
    let parts = Seq::new(
        count,
        |i: int| Block::generated(current.with_height(Height((current.height.0 + i) as u32))),
    );
    let blocks = choose|blocks: Seq<Block>|
        blocks.len() == parts.len() && (forall|i: int|
            0 <= i < blocks.len() ==> parts[i].contains(#[trigger] blocks[i]))
            && #[trigger] Block::is_linked_chain(blocks, chain);
    if count > 0 {
        assert(parts[0].contains(blocks[0]));
        assert(current.with_height(Height((current.height.0 + 0) as u32)) == current);
        assert(chain[0].header == blocks[0].header);
        assert(*chain[0] == blocks[0]);
        lemma_generated_blocks(current, blocks[0]);
    }
}

} // verus!
