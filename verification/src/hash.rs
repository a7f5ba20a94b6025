//! The hash functions that a digest may name.

use vstd::prelude::*;
use vstd::slice::slice_to_vec;

verus! {

/// A supported hash function.
#[derive(Clone, Copy, Debug, PartialEq, Eq, Structural)]
pub enum Algorithm {
    /// SHA-256: 32 bytes of output.
    Sha256,
    /// SHA-512: 64 bytes of output.
    Sha512,
}

/// The SHA-256 hash of `data`.
pub uninterp spec fn sha256_of(data: Seq<u8>) -> [u8; 32];

/// The SHA-512 hash of `data`.
pub uninterp spec fn sha512_of(data: Seq<u8>) -> [u8; 64];

/// `sha2::Sha256::digest`: the SHA-256 hash of `data`, a function of the bytes
/// alone, 32 bytes long.
#[verifier::external_body]
fn sha256(data: &[u8]) -> (hash: [u8; 32])
    ensures
        hash == sha256_of(data@),
{
    <sha2::Sha256 as sha2::Digest>::digest(data).into()
}

/// `sha2::Sha512::digest`: the SHA-512 hash of `data`, a function of the bytes
/// alone, 64 bytes long.
#[verifier::external_body]
fn sha512(data: &[u8]) -> (hash: [u8; 64])
    ensures
        hash == sha512_of(data@),
{
    <sha2::Sha512 as sha2::Digest>::digest(data).into()
}

/// The hash of `data` under `algorithm`.
pub open spec fn hash_of(algorithm: Algorithm, data: Seq<u8>) -> Seq<u8> {
    match algorithm {
        Algorithm::Sha256 => sha256_of(data)@,
        Algorithm::Sha512 => sha512_of(data)@,
    }
}

impl Algorithm {
    /// The name by which a digest string refers to the algorithm.
    pub open spec fn name_of(self) -> Seq<char> {
        match self {
            Algorithm::Sha256 => "sha256"@,
            Algorithm::Sha512 => "sha512"@,
        }
    }

    /// The number of bytes in a hash of the algorithm.
    pub open spec fn hash_len(self) -> nat {
        match self {
            Algorithm::Sha256 => 32,
            Algorithm::Sha512 => 64,
        }
    }

    /// The name by which a digest string refers to the algorithm.
    pub fn name(&self) -> (name: &'static str)
        ensures
            name@ == self.name_of(),
    {
        match self {
            Algorithm::Sha256 => "sha256",
            Algorithm::Sha512 => "sha512",
        }
    }

    /// The number of bytes in a hash of the algorithm.
    pub fn output_len(&self) -> (n: usize)
        ensures
            n == self.hash_len(),
    {
        match self {
            Algorithm::Sha256 => 32,
            Algorithm::Sha512 => 64,
        }
    }

    /// Hashes `data`.
    pub fn hash(&self, data: &[u8]) -> (hash: Vec<u8>)
        ensures
            hash@ == hash_of(*self, data@),
            hash@.len() == self.hash_len(),
    {
        match self {
            Algorithm::Sha256 => {
                let h = sha256(data);
                slice_to_vec(h.as_slice())
            },
            Algorithm::Sha512 => {
                let h = sha512(data);
                slice_to_vec(h.as_slice())
            },
        }
    }
}

/// Every hash has the length that its algorithm fixes.
pub proof fn lemma_hash_len(algorithm: Algorithm, data: Seq<u8>)
    ensures
        hash_of(algorithm, data).len() == algorithm.hash_len(),
{
    broadcast use vstd::array::group_array_axioms;
}

/// The names of the algorithms are six ASCII letters and digits, without a
/// colon, and differ from each other.
pub proof fn lemma_names(algorithm: Algorithm)
    ensures
        algorithm.name_of().len() == 6,
        vstd::utf8::is_ascii_chars(algorithm.name_of()),
        !algorithm.name_of().contains(':'),
        Algorithm::Sha256.name_of() != Algorithm::Sha512.name_of(),
{
    reveal_strlit("sha256");
    reveal_strlit("sha512");
    assert(Algorithm::Sha256.name_of()[3] == '2');
    assert(Algorithm::Sha512.name_of()[3] == '5');
}

} // verus!
