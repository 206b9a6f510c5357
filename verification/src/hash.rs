use vstd::prelude::*;
use crate::digest::{blake3_hash, blake3_spec, encode_hex, hex_lower};

verus! {

broadcast use vstd::array::group_array_axioms;

/// The hash that names the empty blob: the BLAKE3 digest of no bytes.
pub open spec fn empty_hash_spec() -> Seq<u8> {
    blake3_spec(Seq::<u8>::empty())
}

/// A 32-byte content hash, the name under which a blob is stored.
#[derive(Clone, Copy, Debug)]
pub struct BlobHash {
    pub bytes: [u8; 32],
}

impl View for BlobHash {
    type V = Seq<u8>;

    open spec fn view(&self) -> Seq<u8> {
        self.bytes@
    }
}

impl BlobHash {
    pub fn from_bytes(bytes: [u8; 32]) -> (h: BlobHash)
        ensures
            h@ == bytes@,
    {
        BlobHash { bytes }
    }

    /// The hash of the empty blob.
    pub fn empty() -> (h: BlobHash)
        ensures
            h@ == empty_hash_spec(),
    {
        let nothing: Vec<u8> = Vec::new();
        let bytes = blake3_hash(nothing.as_slice());
        proof {
            assert(nothing@ =~= Seq::<u8>::empty());
        }
        BlobHash { bytes }
    }

    /// Whether two hashes hold the same bytes.
    pub fn equals(&self, other: &BlobHash) -> (same: bool)
        ensures
            same == (self@ == other@),
    {
        let mut i: usize = 0;
        while i < 32
            invariant
                0 <= i <= 32,
                self@.len() == 32,
                other@.len() == 32,
                forall|j: int| 0 <= j < i ==> self@[j] == other@[j],
            decreases 32 - i,
        {
            if self.bytes[i] != other.bytes[i] {
                return false;
            }
            i += 1;
        }
        assert(self@ =~= other@);
        true
    }

    /// Lower-case hexadecimal text of the hash.
    pub fn to_hex(&self) -> (text: String)
        ensures
            text@ == hex_lower(self@),
    {
        encode_hex(vstd::array::array_as_slice(&self.bytes))
    }
}

} // verus!
