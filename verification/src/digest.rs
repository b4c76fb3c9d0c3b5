//! Fixed-length content digests of file plaintext.
//!
//! A digest is produced fresh on every read of a file's content and is only
//! ever compared and stored; the sidecar store keeps one per tracked file.

use vstd::prelude::*;

verus! {

/// The digest of a byte sequence under the hash function the filter uses.
/// The digest depends on the input bytes alone.
pub uninterp spec fn blake3_of(data: Seq<u8>) -> Seq<u8>;

/// Relies on blake3::hash: a 32-byte digest that is a function of the input
/// bytes alone.
#[verifier::external_body]
fn blake3_digest(data: &Vec<u8>) -> (r: Vec<u8>)
    ensures
        r@ == blake3_of(data@),
        r@.len() == 32,
{
    blake3::hash(data.as_slice()).as_bytes().to_vec()
}

/// A fixed-length (32-byte) cryptographic digest of a file's plaintext.
/// Identity is byte-exact equality.
pub struct ContentDigest {
    bytes: Vec<u8>,
}

impl View for ContentDigest {
    type V = Seq<u8>;

    closed spec fn view(&self) -> Seq<u8> {
        self.bytes@
    }
}

impl ContentDigest {
    /// A digest always holds exactly 32 bytes.
    pub open spec fn wf(&self) -> bool {
        self@.len() == 32
    }

    /// Hashes a plaintext into its content digest.
    pub fn hash_content(data: &Vec<u8>) -> (d: ContentDigest)
        ensures
            d@ == blake3_of(data@),
            d.wf(),
    {
        ContentDigest { bytes: blake3_digest(data) }
    }

    /// Reconstructs a digest from raw bytes, as read back from a sidecar
    /// file.  The sidecar format is exactly 32 raw bytes: any other length is
    /// rejected, with no partial interpretation.
    pub fn from_bytes(bytes: Vec<u8>) -> (r: Option<ContentDigest>)
        ensures
            r is Some <==> bytes@.len() == 32,
            r matches Some(d) ==> d@ == bytes@ && d.wf(),
    {
        if bytes.len() == 32 {
            Some(ContentDigest { bytes })
        } else {
            None
        }
    }

    /// The digest's raw bytes, as written to a sidecar file.
    pub fn as_bytes(&self) -> (r: &Vec<u8>)
        ensures
            r@ == self@,
    {
        &self.bytes
    }

    /// Byte-exact equality of two digests.
    pub fn same_digest(&self, other: &ContentDigest) -> (r: bool)
        ensures
            r == (self@ == other@),
    {
        let r = self.bytes == other.bytes;
        proof {
            if r {
                assert(self.bytes@ =~= other.bytes@);
            }
        }
        r
    }

    /// An independent copy of the digest.
    pub fn duplicate(&self) -> (d: ContentDigest)
        ensures
            d@ == self@,
    {
        let mut bytes: Vec<u8> = Vec::new();
        let mut i: usize = 0;
        while i < self.bytes.len()
            invariant
                i <= self.bytes@.len(),
                bytes@ == self.bytes@.take(i as int),
            decreases self.bytes@.len() - i,
        {
            bytes.push(self.bytes[i]);
            i = i + 1;
            proof {
                assert(bytes@ =~= self.bytes@.take(i as int));
            }
        }
        proof {
            assert(bytes@ =~= self.bytes@);
        }
        ContentDigest { bytes }
    }
}

} // verus!
