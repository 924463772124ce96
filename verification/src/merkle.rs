use vstd::prelude::*;

use crate::errors::EmptyCommitmentError;
use crate::hashing::{combined, sha256_of};
use crate::bytes_util::bytes_eq;

verus! {

/// A transaction as this core sees it: its canonical hashable byte
/// representation. The surrounding ledger defines the encoding; the
/// root computation never looks past it.
#[derive(Debug)]
pub struct Transaction {
    bytes: Vec<u8>,
}

impl View for Transaction {
    type V = Seq<u8>;

    closed spec fn view(&self) -> Seq<u8> {
        self.bytes@
    }
}

impl Transaction {
    /// Wrap a canonical byte representation.
    pub fn new(bytes: Vec<u8>) -> (t: Transaction)
        ensures
            t@ == bytes@,
    {
        Transaction { bytes }
    }

    /// The canonical bytes.
    pub fn bytes(&self) -> (r: &Vec<u8>)
        ensures
            r@ == self@,
    {
        &self.bytes
    }
}

/// The views of a sequence of transactions, in order.
pub open spec fn transaction_views(txs: Seq<Transaction>) -> Seq<Seq<u8>> {
    txs.map_values(|t: Transaction| t@)
}

/// The views of a sequence of digests, in order.
pub open spec fn digest_views(hs: Seq<crate::hashing::Hash>) -> Seq<Seq<u8>> {
    hs.map_values(|h: crate::hashing::Hash| h@)
}

/// The leaf layer: the digest of each transaction, in input order.
pub open spec fn leaf_layer(txs: Seq<Seq<u8>>) -> Seq<Seq<u8>> {
    txs.map_values(|t: Seq<u8>| sha256_of(t))
}

/// One digest of the layer above `layer`: adjacent digests are
/// paired, and an unpaired last digest is paired with itself.
pub open spec fn parent_at(layer: Seq<Seq<u8>>, i: int) -> Seq<u8> {
    if 2 * i + 1 < layer.len() {
        combined(layer[2 * i], layer[2 * i + 1])
    } else {
        combined(layer[2 * i], layer[2 * i])
    }
}

/// The layer above `layer`: ceil(len / 2) digests.
pub open spec fn next_layer(layer: Seq<Seq<u8>>) -> Seq<Seq<u8>> {
    Seq::new(((layer.len() + 1) / 2) as nat, |i: int| parent_at(layer, i))
}

/// Reduce a non-empty layer, level by level, to the digest at the
/// apex of the tree.
pub open spec fn reduce(layer: Seq<Seq<u8>>) -> Seq<u8>
    recommends
        layer.len() >= 1,
    decreases layer.len(),
{
    if layer.len() <= 1 {
        layer[0]
    } else {
        reduce(next_layer(layer))
    }
}

/// The Merkle root of a non-empty sequence of transaction byte
/// strings.
pub open spec fn merkle_root_of(txs: Seq<Seq<u8>>) -> Seq<u8>
    recommends
        txs.len() >= 1,
{
    reduce(leaf_layer(txs))
}

/// A single digest committing to an ordered, non-empty sequence of
/// transactions through a binary hash tree.
#[derive(Debug)]
pub struct MerkleRoot {
    root: crate::hashing::Hash,
}

impl View for MerkleRoot {
    type V = Seq<u8>;

    closed spec fn view(&self) -> Seq<u8> {
        self.root@
    }
}

impl MerkleRoot {
    /// The root digest.
    pub fn as_hash(&self) -> (r: &crate::hashing::Hash)
        ensures
            r@ == self@,
    {
        &self.root
    }

    /// Compute the Merkle root of an ordered batch of transactions.
    ///
    /// The leaf layer holds the digest of each transaction in input
    /// order; each further layer pairs adjacent digests and hashes
    /// the concatenation, pairing an unpaired last digest with
    /// itself, until one digest remains. An empty batch has no leaf
    /// layer and is rejected.
    pub fn calculate(transactions: &[Transaction]) -> (r: Result<MerkleRoot, EmptyCommitmentError>)
        ensures
            r is Err <==> transactions@.len() == 0,
            r matches Ok(root) ==> root@ == merkle_root_of(transaction_views(transactions@)),
    {
        if transactions.len() == 0 {
            return Err(EmptyCommitmentError);
        }
        let ghost leaves: Seq<Seq<u8>> = leaf_layer(transaction_views(transactions@));
        let mut layer: Vec<crate::hashing::Hash> = Vec::new();
        let mut i: usize = 0;
        while i < transactions.len()
            invariant
                i <= transactions@.len(),
                layer@.len() == i,
                leaves == leaf_layer(transaction_views(transactions@)),
                forall|j: int| 0 <= j < i ==> #[trigger] layer@[j]@ == sha256_of(transactions@[j]@),
            decreases transactions@.len() - i,
        {
            let t = vstd::slice::slice_index_get(transactions, i);
            layer.push(crate::hashing::Hash::hash(t.bytes()));
            i = i + 1;
        }
        proof {
            assert(digest_views(layer@) =~= leaves);
        }
        while layer.len() > 1
            invariant
                layer@.len() >= 1,
                reduce(digest_views(layer@)) == reduce(leaves),
            decreases layer@.len(),
        {
            let n = layer.len();
            let half = n / 2 + n % 2;
            let mut new_layer: Vec<crate::hashing::Hash> = Vec::new();
            let mut j: usize = 0;
            while j < half
                invariant
                    2 <= n,
                    n == layer@.len(),
                    half == n / 2 + n % 2,
                    j <= half,
                    new_layer@.len() == j,
                    forall|m: int| 0 <= m < j
                        ==> #[trigger] new_layer@[m]@ == parent_at(digest_views(layer@), m),
                decreases half - j,
            {
                proof {
                    assert(2 * j + 1 <= n);
                }
                let idx = 2 * j;
                let parent = if idx + 1 < n {
                    crate::hashing::Hash::hash_pair(&layer[idx], &layer[idx + 1])
                } else {
                    crate::hashing::Hash::hash_pair(&layer[idx], &layer[idx])
                };
                new_layer.push(parent);
                j = j + 1;
            }
            proof {
                assert(digest_views(new_layer@) =~= next_layer(digest_views(layer@)));
                assert(reduce(digest_views(layer@)) == reduce(next_layer(digest_views(layer@))));
            }
            layer = new_layer;
        }
        let root = layer[0].clone();
        proof {
            assert(reduce(digest_views(layer@)) == digest_views(layer@)[0]);
        }
        Ok(MerkleRoot { root })
    }
}

impl Clone for MerkleRoot {
    fn clone(&self) -> (res: Self)
        ensures
            res@ == self@,
    {
        MerkleRoot { root: self.root.clone() }
    }
}

impl PartialEq for MerkleRoot {
    fn eq(&self, other: &Self) -> (r: bool) {
        bytes_eq(self.root.as_bytes(), other.root.as_bytes())
    }
}

impl vstd::std_specs::cmp::PartialEqSpecImpl for MerkleRoot {
    open spec fn obeys_eq_spec() -> bool {
        true
    }

    open spec fn eq_spec(&self, other: &Self) -> bool {
        self@ == other@
    }
}

/// Law: the Merkle root of a single transaction is the digest of
/// that transaction alone; a lone leaf is never paired.
pub proof fn lemma_merkle_single(t0: Seq<u8>)
    ensures
        merkle_root_of(seq![t0]) == sha256_of(t0),
{
    let leaves = leaf_layer(seq![t0]);
    assert(leaves =~= seq![sha256_of(t0)]);
    assert(reduce(leaves) == leaves[0]);
}

/// Law: the Merkle root of two transactions is the digest of the
/// concatenation of their two leaf digests.
pub proof fn lemma_merkle_pair(t0: Seq<u8>, t1: Seq<u8>)
    ensures
        merkle_root_of(seq![t0, t1]) == combined(sha256_of(t0), sha256_of(t1)),
{
    let leaves = leaf_layer(seq![t0, t1]);
    assert(leaves =~= seq![sha256_of(t0), sha256_of(t1)]);
    let top = next_layer(leaves);
    assert(top =~= seq![combined(sha256_of(t0), sha256_of(t1))]);
    assert(reduce(leaves) == reduce(top));
    assert(reduce(top) == top[0]);
}

/// Law: with three transactions the unpaired third leaf is paired
/// with itself, not promoted unchanged.
pub proof fn lemma_merkle_duplicate_last(t0: Seq<u8>, t1: Seq<u8>, t2: Seq<u8>)
    ensures
        merkle_root_of(seq![t0, t1, t2]) == combined(
            combined(sha256_of(t0), sha256_of(t1)),
            combined(sha256_of(t2), sha256_of(t2)),
        ),
{
    let leaves = leaf_layer(seq![t0, t1, t2]);
    assert(leaves =~= seq![sha256_of(t0), sha256_of(t1), sha256_of(t2)]);
    let mid = next_layer(leaves);
    assert(mid =~= seq![
        combined(sha256_of(t0), sha256_of(t1)),
        combined(sha256_of(t2), sha256_of(t2)),
    ]);
    let top = next_layer(mid);
    assert(top =~= seq![combined(mid[0], mid[1])]);
    assert(reduce(leaves) == reduce(mid));
    assert(reduce(mid) == reduce(top));
    assert(reduce(top) == top[0]);
}

} // verus!
