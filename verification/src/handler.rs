//! The platform mapping capability: the injected interface through which a
//! physical address range becomes an accessible typed view, and the handle
//! type for one such mapped region.
//!
//! This crate never touches physical memory itself. It only requests scoped
//! mappings through an [`AcpiHandler`] supplied by the platform, and it
//! guarantees that every mapping it requests is released before it returns.

use vstd::prelude::*;

use crate::sdt::SdtHeader;

verus! {

/// A typed view of a mapped physical memory region. The platform handler
/// produces one per `map_physical_region` call and consumes it again in
/// `unmap_physical_region`; ownership of the handle stands for the mapping
/// being live.
pub struct PhysicalMapping<T> {
    /// Physical address at which the mapped region starts.
    pub physical_start: u64,
    /// The typed value read from the mapped region. Firmware memory is
    /// untrusted, so nothing is assumed about it: parsing is checked for
    /// every possible value.
    pub value: T,
    /// Length in bytes of the mapped region.
    pub region_length: usize,
}

/// The platform-supplied capability that maps and unmaps physical memory and
/// can peek at a table header without a full mapping. Implemented outside
/// this crate by the platform.
///
/// The two logs are the handler's accounting model: `mapped_regions` holds
/// the physical start address of every `map_physical_region` call so far, in
/// order, and `unmapped_regions` those of the `unmap_physical_region` calls.
/// A caller that extends both logs by the same one address has mapped
/// exactly one region there and released exactly that region again.
pub trait AcpiHandler: Sized {
    /// The physical start addresses of the regions this handler has been
    /// asked to map so far, in call order. The provided body is a
    /// placeholder for implementations that keep no accounting of their
    /// own; an implementation that does overrides it with its own log.
    open spec fn mapped_regions(&self) -> Seq<u64> {
        Seq::empty()
    }

    /// The physical start addresses of the regions this handler has been
    /// asked to unmap so far, in call order. A placeholder like
    /// [`AcpiHandler::mapped_regions`], overridden by implementations that
    /// account for their mappings.
    open spec fn unmapped_regions(&self) -> Seq<u64> {
        Seq::empty()
    }

    /// Reads only the fixed-size table header at the given physical address,
    /// without establishing a full mapping. The header's contents come from
    /// untrusted firmware memory, so nothing is promised about them.
    fn peek_at_sdt_header(&mut self, physical_address: u64) -> (header: SdtHeader)
        ensures
            final(self).mapped_regions() == old(self).mapped_regions(),
            final(self).unmapped_regions() == old(self).unmapped_regions(),
    ;

    /// Maps `region_length` bytes of physical memory starting at
    /// `physical_address` into a typed view of a definition block. The value
    /// behind the view comes from untrusted firmware memory, so nothing is
    /// promised about it.
    fn map_physical_region(
        &mut self,
        physical_address: u64,
        region_length: usize,
    ) -> (mapping: PhysicalMapping<crate::aml::AmlTable>)
        ensures
            mapping.physical_start == physical_address,
            mapping.region_length == region_length,
            final(self).mapped_regions() == old(self).mapped_regions().push(physical_address),
            final(self).unmapped_regions() == old(self).unmapped_regions(),
    ;

    /// Releases a mapping previously produced by `map_physical_region`.
    /// Consumes the handle, so a released mapping cannot be used or released
    /// again.
    fn unmap_physical_region(&mut self, region: PhysicalMapping<crate::aml::AmlTable>)
        ensures
            final(self).mapped_regions() == old(self).mapped_regions(),
            final(self).unmapped_regions() == old(self).unmapped_regions().push(
                region.physical_start,
            ),
    ;
}

} // verus!
