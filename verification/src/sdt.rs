//! The system description table header shared by every table kind, and the
//! signature check that must succeed before any other header field is trusted.

use vstd::prelude::*;

use crate::AcpiError;

verus! {

/// The header common to all system description tables. Every field is read
/// once from the mapped table at parse time and never mutated.
#[derive(Clone, Copy, Debug, PartialEq, Eq)]
pub struct SdtHeader {
    /// 4-byte tag identifying the table kind.
    pub signature: [u8; 4],
    /// Length in bytes of the whole table, header included.
    pub length: u32,
    pub revision: u8,
    pub checksum: u8,
    pub oem_id: [u8; 6],
    pub oem_table_id: [u8; 8],
    pub oem_revision: u32,
    pub creator_id: u32,
    pub creator_revision: u32,
}

impl SdtHeader {
    /// Every field zero, the signature and vendor tags all zero bytes.
    pub open spec fn is_zeroed(self) -> bool {
        &&& self.signature@ == seq![0u8, 0u8, 0u8, 0u8]
        &&& self.length == 0
        &&& self.revision == 0
        &&& self.checksum == 0
        &&& self.oem_id@ == seq![0u8, 0u8, 0u8, 0u8, 0u8, 0u8]
        &&& self.oem_table_id@ == seq![0u8, 0u8, 0u8, 0u8, 0u8, 0u8, 0u8, 0u8]
        &&& self.oem_revision == 0
        &&& self.creator_id == 0
        &&& self.creator_revision == 0
    }
}

impl Default for SdtHeader {
    fn default() -> (r: SdtHeader)
        ensures
            r.is_zeroed(),
    {
        let r = SdtHeader {
            signature: [0; 4],
            length: 0,
            revision: 0,
            checksum: 0,
            oem_id: [0; 6],
            oem_table_id: [0; 8],
            oem_revision: 0,
            creator_id: 0,
            creator_revision: 0,
        };
        proof {
            assert(r.signature@ =~= seq![0u8, 0u8, 0u8, 0u8]);
            assert(r.oem_id@ =~= seq![0u8, 0u8, 0u8, 0u8, 0u8, 0u8]);
            assert(r.oem_table_id@ =~= seq![0u8, 0u8, 0u8, 0u8, 0u8, 0u8, 0u8, 0u8]);
        }
        r
    }
}

/// Whether a header carries the expected 4-byte tag. This is the only fact
/// about a header that validation depends on.
pub open spec fn signature_ok(header: SdtHeader, expected: Seq<u8>) -> bool {
    header.signature@ == expected
}

/// Validation depends on the signature alone: two headers that carry the
/// same tag are accepted or rejected alike, whatever their other fields
/// hold.
pub proof fn lemma_validation_reads_only_the_signature(
    h1: SdtHeader,
    h2: SdtHeader,
    expected: Seq<u8>,
)
    requires
        h1.signature == h2.signature,
    ensures
        signature_ok(h1, expected) == signature_ok(h2, expected),
{
}

/// A header whose signature differs from the expected tag in any single
/// byte fails validation.
pub proof fn lemma_corrupted_signature_rejected(header: SdtHeader, expected: Seq<u8>, i: int)
    requires
        0 <= i < expected.len(),
        i < header.signature@.len(),
        header.signature@[i] != expected[i],
    ensures
        !signature_ok(header, expected),
{
    assert(signature_ok(header, expected) ==> header.signature@[i] == expected[i]);
}

impl SdtHeader {
    /// Confirms that this header's signature equals the expected 4-byte tag
    /// for the table kind being parsed, and nothing else: no other field is
    /// consulted. Fails with `SignatureMismatch`, carrying the expected and
    /// actual tags, exactly when the tags differ.
    pub fn validate(&self, signature: &[u8; 4]) -> (r: Result<(), AcpiError>)
        ensures
            r is Ok <==> signature_ok(*self, signature@),
            r is Err ==> r == Err::<(), AcpiError>(AcpiError::SignatureMismatch {
                expected: *signature,
                found: self.signature,
            }),
    {
        let matches = self.signature[0] == signature[0]
            && self.signature[1] == signature[1]
            && self.signature[2] == signature[2]
            && self.signature[3] == signature[3];
        if matches {
            proof {
                assert(self.signature@ =~= signature@);
            }
            Ok(())
        } else {
            Err(AcpiError::SignatureMismatch { expected: *signature, found: self.signature })
        }
    }
}

} // verus!
