//! The hash-based text embedder: its dimension, how it cuts text into
//! character trigrams, and the SHA-256 digest it takes of each trigram.
//!
//! The projection of those digests into a unit vector of `f32` weights is
//! floating-point work and happens outside the library.

use vstd::prelude::*;
use vstd::string::StrSliceExecFns;
use vstd::utf8::encode_utf8;
use sha2::{Digest, Sha256};

verus! {

/// The dimensionality of embedding vectors.
pub const EMBED_DIM: usize = 256;

/// The errors of the `anyhow` crate.
#[verifier::external_type_specification]
#[verifier::external_body]
pub struct ExAnyhowError(anyhow::Error);

/// The SHA-256 digest of a byte string.
pub uninterp spec fn sha256_of(data: Seq<u8>) -> Seq<u8>;

/// `Sha256::digest` of the bytes.
#[verifier::external_body]
pub(crate) fn sha256(data: &[u8]) -> (h: [u8; 32])
    ensures
        h@ == sha256_of(data@),
{
    Sha256::digest(data).into()
}

/// Embedder produces fixed-dimension vector embeddings from text.
pub struct Embedder {
    dim: usize,
}

/// The trigrams of a text: every window of three consecutive characters,
/// in order, or the whole text when it is shorter than three characters.
pub open spec fn trigrams_of(text: Seq<char>) -> Seq<Seq<char>> {
    if text.len() < 3 {
        seq![text]
    } else {
        Seq::new((text.len() - 2) as nat, |i: int| text.subrange(i, i + 3))
    }
}

impl Embedder {
    /// The embedding dimension.
    pub closed spec fn spec_dim(&self) -> usize {
        self.dim
    }

    /// Create a new Embedder with the default dimension.
    pub fn new() -> (r: Result<Self, anyhow::Error>)
        ensures
            r is Ok,
            r matches Ok(e) && e.spec_dim() == EMBED_DIM,
    {
        Ok(Self { dim: EMBED_DIM })
    }

    /// Return the embedding dimension.
    pub fn dimension(&self) -> (d: usize)
        ensures
            d == self.spec_dim(),
    {
        self.dim
    }

    /// Split a text into its character trigrams.
    pub fn extract_trigrams(text: &str) -> (r: Vec<String>)
        ensures
            r@.len() == trigrams_of(text@).len(),
            forall|i: int| 0 <= i < r@.len() ==> (#[trigger] r@[i])@ == trigrams_of(text@)[i],
    {
        let n = text.unicode_len();
        if n < 3 {
            let mut one: Vec<String> = Vec::new();
            one.push(text.to_owned());
            return one;
        }
        let mut out: Vec<String> = Vec::new();
        let mut i: usize = 0;
        while i < n - 2
            invariant
                n == text@.len(),
                n >= 3,
                i <= n - 2,
                out@.len() == i,
                forall|j: int| 0 <= j < i ==> (#[trigger] out@[j])@ == text@.subrange(j, j + 3),
            decreases n - i,
        {
            let tri = text.substring_char(i, i + 3).to_owned();
            out.push(tri);
            i += 1;
        }
        out
    }

    /// The SHA-256 digest of a trigram (or of any text), which places the
    /// trigram's weights in the vector.
    pub fn hash_trigram(input: &str) -> (h: [u8; 32])
        ensures
            h@ == sha256_of(encode_utf8(input@)),
    {
        sha256(input.as_bytes())
    }
}

} // verus!
