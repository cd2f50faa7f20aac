//! Parsing and validation of fixed-layout firmware description tables.
//!
//! Firmware exposes a set of fixed-offset tables describing hardware register
//! locations. Each table begins with a common header whose 4-byte signature
//! identifies the table kind; the signature is checked before any other field
//! is trusted. The Fixed ACPI Description Table (FADT) additionally carries
//! both legacy 32-bit and extended 64-bit addresses for the same resources,
//! reconciled by a single resolution rule.

use vstd::prelude::*;

pub mod aml;
pub mod fadt;
pub mod handler;
pub mod hpet;
pub mod sdt;

verus! {

/// A tagged hardware address usable across multiple address spaces (system
/// memory, system I/O, PCI configuration, ...). Immutable once read from a
/// table.
///
/// When `address_space` identifies functional fixed hardware, `address` is
/// not a literal memory or I/O address and must not be dereferenced
/// directly; consumers dispatch on the address space before use.
#[derive(Clone, Copy, Debug, PartialEq, Eq)]
pub struct GenericAddress {
    /// Identifier of the address space the address lives in.
    pub address_space: u8,
    /// Width in bits of the register being addressed.
    pub bit_width: u8,
    /// Offset in bits of the register within its enclosing region.
    pub bit_offset: u8,
    /// Access size the register must be read and written with.
    pub access_size: u8,
    /// The 64-bit address value, interpreted according to `address_space`.
    pub address: u64,
}

impl GenericAddress {
    /// Every field zero: a system-memory address of zero with no width,
    /// offset or access size.
    pub open spec fn is_zeroed(self) -> bool {
        &&& self.address_space == 0
        &&& self.bit_width == 0
        &&& self.bit_offset == 0
        &&& self.access_size == 0
        &&& self.address == 0
    }
}

impl Default for GenericAddress {
    fn default() -> (r: GenericAddress)
        ensures
            r.is_zeroed(),
    {
        GenericAddress { address_space: 0, bit_width: 0, bit_offset: 0, access_size: 0, address: 0 }
    }
}

/// The process-wide registry that receives parsed tables. It is passed to
/// the parsers as an injected, owned context object; during boot-time
/// parsing this crate is its sole writer.
pub struct Acpi {
    /// The current Fixed ACPI Description Table: a single slot with
    /// value-copy, last-write-wins semantics.
    pub fadt: Option<fadt::Fadt>,
}

/// The errors this crate raises. A signature mismatch carries both the tag
/// that was expected for the table kind and the tag actually found in the
/// header, for diagnosability.
#[derive(Clone, Copy, Debug, PartialEq, Eq)]
pub enum AcpiError {
    SignatureMismatch { expected: [u8; 4], found: [u8; 4] },
}

} // verus!
