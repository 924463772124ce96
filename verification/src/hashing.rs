use vstd::prelude::*;

use crate::bytes_util::{bytes_eq, copy_bytes, append_bytes};

verus! {

/// The digest that sha2's Sha256 returns for the given input; it is a
/// function of the input bytes alone.
pub uninterp spec fn sha256_of(data: Seq<u8>) -> Seq<u8>;

/// The digest of the concatenation of two digests: the node rule of
/// the Merkle tree.
pub open spec fn combined(left: Seq<u8>, right: Seq<u8>) -> Seq<u8> {
    sha256_of(left + right)
}

/// Relies on sha2's Sha256::digest: a 32-byte digest determined by
/// the input bytes alone.
#[verifier::external_body]
fn sha256(data: &Vec<u8>) -> (r: Vec<u8>)
    ensures
        r@ == sha256_of(data@),
        r@.len() == 32,
{
    <sha2::Sha256 as sha2::Digest>::digest(data.as_slice()).to_vec()
}

/// A fixed-width digest, the opaque comparable value that both the
/// identity and the Merkle subsystems build on.
#[derive(Debug)]
pub struct Hash {
    bytes: Vec<u8>,
}

impl View for Hash {
    type V = Seq<u8>;

    closed spec fn view(&self) -> Seq<u8> {
        self.bytes@
    }
}

impl Hash {
    #[verifier::type_invariant]
    spec fn well_formed(self) -> bool {
        self.bytes@.len() == 32
    }

    /// The digest of an arbitrary byte string.
    pub fn hash(data: &Vec<u8>) -> (h: Hash)
        ensures
            h@ == sha256_of(data@),
    {
        Hash { bytes: sha256(data) }
    }

    /// The digest of the concatenation of two digests: one internal
    /// node of the Merkle tree.
    pub fn hash_pair(left: &Hash, right: &Hash) -> (h: Hash)
        ensures
            h@ == combined(left@, right@),
    {
        let mut buf = copy_bytes(&left.bytes);
        append_bytes(&mut buf, &right.bytes);
        Hash { bytes: sha256(&buf) }
    }

    /// The 32 raw digest bytes.
    pub fn as_bytes(&self) -> (r: &Vec<u8>)
        ensures
            r@ == self@,
            r@.len() == 32,
    {
        proof {
            use_type_invariant(&*self);
        }
        &self.bytes
    }
}

impl Clone for Hash {
    fn clone(&self) -> (res: Self)
        ensures
            res@ == self@,
    {
        proof {
            use_type_invariant(&*self);
        }
        Hash { bytes: copy_bytes(&self.bytes) }
    }
}

impl PartialEq for Hash {
    fn eq(&self, other: &Self) -> (r: bool) {
        bytes_eq(&self.bytes, &other.bytes)
    }
}

impl vstd::std_specs::cmp::PartialEqSpecImpl for Hash {
    open spec fn obeys_eq_spec() -> bool {
        true
    }

    open spec fn eq_spec(&self, other: &Self) -> bool {
        self@ == other@
    }
}

} // verus!
