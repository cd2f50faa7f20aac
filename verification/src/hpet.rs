//! The High Precision Event Timer block table: a fixed-layout record
//! validated against its tag and returned to the caller, with no further
//! address resolution and no write to shared state.

use vstd::prelude::*;

use crate::AcpiError;
use crate::GenericAddress;
use crate::handler::PhysicalMapping;
use crate::sdt::SdtHeader;
use crate::sdt::signature_ok;

verus! {

/// The 4-byte tag of the timer block table.
pub open spec fn hpet_tag_spec() -> Seq<u8> {
    seq![0x48u8, 0x50u8, 0x45u8, 0x54u8]  // "HPET"
}

/// The expected timer block table header tag, as validation consumes it.
pub fn hpet_tag() -> (r: [u8; 4])
    ensures
        r@ == hpet_tag_spec(),
{
    let r: [u8; 4] = [0x48, 0x50, 0x45, 0x54];
    proof {
        assert(r@ =~= hpet_tag_spec());
    }
    r
}

/// The High Precision Event Timer block table: the timer's hardware
/// identifier, the register block's base address, an instance number, the
/// clock tick unit, and the OEM page-protection flag.
#[derive(Clone, Copy, Debug, PartialEq, Eq)]
pub struct Hpet {
    pub header: SdtHeader,

    pub event_timer_block_id: u32,
    pub base_address: GenericAddress,
    pub hpet_number: u8,
    pub clock_tick_unit: u16,
    pub page_protection_oem: u8,
}

impl Hpet {
    /// Every field zero: a zeroed header, a zeroed register base address,
    /// and every identifier and count zero.
    pub open spec fn is_zeroed(self) -> bool {
        &&& self.header.is_zeroed()
        &&& self.event_timer_block_id == 0
        &&& self.base_address.is_zeroed()
        &&& self.hpet_number == 0
        &&& self.clock_tick_unit == 0
        &&& self.page_protection_oem == 0
    }
}

impl Default for Hpet {
    fn default() -> (r: Hpet)
        ensures
            r.is_zeroed(),
    {
        Hpet {
            header: Default::default(),
            event_timer_block_id: 0,
            base_address: Default::default(),
            hpet_number: 0,
            clock_tick_unit: 0,
            page_protection_oem: 0,
        }
    }
}

/// Validates a mapped timer block table against the timer tag. On success
/// the validated view stays with the caller, who decides its retention:
/// nothing is mutated and no shared state is written. Fails with
/// `SignatureMismatch`, carrying the expected and actual tags, exactly when
/// the header's signature differs from the timer tag.
pub fn parse_hpet(mapping: &PhysicalMapping<Hpet>) -> (r: Result<(), AcpiError>)
    ensures
        r is Ok <==> signature_ok(mapping.value.header, hpet_tag_spec()),
        r is Err ==> ({
            &&& r matches Err(AcpiError::SignatureMismatch { expected, found })
            &&& expected@ == hpet_tag_spec()
            &&& found == mapping.value.header.signature
        }),
{
    mapping.value.header.validate(&hpet_tag())
}

} // verus!
