//! The handoff to the byte-code definition-block parser.
//!
//! A definition block is a table of interpreted byte-code describing the
//! platform's device tree. Interpreting that byte-code is the business of an
//! external interpreter and out of scope here: this module owns only the
//! handoff contract, which checks that the mapped block really is the kind of
//! definition block the caller asked for before anything downstream would
//! consume it.

use vstd::prelude::*;

use crate::Acpi;
use crate::AcpiError;
use crate::handler::AcpiHandler;
use crate::handler::PhysicalMapping;
use crate::sdt::SdtHeader;
use crate::sdt::signature_ok;

verus! {

/// The 4-byte tag identifying a Differentiated Definition Block.
pub open spec fn dsdt_tag_spec() -> Seq<u8> {
    seq![0x44u8, 0x53u8, 0x44u8, 0x54u8]  // "DSDT"
}

/// The differentiated definition block's tag, as validation consumes it.
pub fn dsdt_tag() -> (r: [u8; 4])
    ensures
        r@ == dsdt_tag_spec(),
{
    let r: [u8; 4] = [0x44, 0x53, 0x44, 0x54];
    proof {
        assert(r@ =~= dsdt_tag_spec());
    }
    r
}

/// A mapped byte-code definition block. The interpreted byte-code stream
/// follows the header in memory; only the header is modelled here, since the
/// handoff inspects nothing past it.
#[derive(Clone, Copy, Debug, PartialEq, Eq)]
pub struct AmlTable {
    pub header: SdtHeader,
}

/// Accepts a mapped definition block on behalf of the byte-code interpreter:
/// confirms that the block's own header carries the 4-byte tag the caller
/// expects for its role (differentiated or secondary) and reports a
/// `SignatureMismatch` otherwise. Takes the shared state and the mapping
/// capability because the interpretation it fronts consumes both; the
/// handoff itself leaves them untouched.
pub fn parse_aml_table<H: AcpiHandler>(
    acpi: &mut Acpi,
    handler: &mut H,
    mapping: &PhysicalMapping<AmlTable>,
    signature: &[u8; 4],
) -> (r: Result<(), AcpiError>)
    ensures
        r is Ok <==> signature_ok(mapping.value.header, signature@),
        r is Err ==> r == Err::<(), AcpiError>(AcpiError::SignatureMismatch {
            expected: *signature,
            found: mapping.value.header.signature,
        }),
        *final(acpi) == *old(acpi),
        *final(handler) == *old(handler),
{
    mapping.value.header.validate(signature)
}

} // verus!
