//! The Fixed ACPI Description Table (FADT): its fixed-layout record, the
//! legacy/extended address resolution rule, and the parser that validates
//! the table, hands its definition block to the byte-code parser, and
//! records the table in the shared state.

use vstd::prelude::*;

use crate::Acpi;
use crate::AcpiError;
use crate::GenericAddress;
use crate::aml::dsdt_tag;
use crate::aml::dsdt_tag_spec;
use crate::aml::parse_aml_table;
use crate::handler::AcpiHandler;
use crate::handler::PhysicalMapping;
use crate::sdt::SdtHeader;
use crate::sdt::signature_ok;

verus! {

/// The 4-byte tag of the Fixed ACPI Description Table.
pub open spec fn fadt_tag_spec() -> Seq<u8> {
    seq![0x46u8, 0x41u8, 0x43u8, 0x50u8]  // "FACP"
}

/// The expected FADT header tag, as validation consumes it.
pub fn fadt_tag() -> (r: [u8; 4])
    ensures
        r@ == fadt_tag_spec(),
{
    let r: [u8; 4] = [0x46, 0x41, 0x43, 0x50];
    proof {
        assert(r@ =~= fadt_tag_spec());
    }
    r
}

/// The Fixed ACPI Description Table (FADT): fixed hardware details such as
/// the addresses of the power-management register blocks, and a pointer to
/// the Differentiated Definition Block (DSDT).
///
/// Where the table carries both a 32-bit and a 64-bit field for the same
/// address, the 64-bit one is authoritative whenever the table's revision
/// exceeds 1 and the 64-bit field is non-zero; otherwise the 32-bit one is
/// used, widened without sign interpretation (see [`resolved_address`]).
/// The record is read once from a mapped table and immutable thereafter; at
/// most one live copy is the current table in [`crate::Acpi`].
#[derive(Clone, Copy, Debug, PartialEq, Eq)]
pub struct Fadt {
    pub header: SdtHeader,

    pub firmware_ctrl: u32,
    pub dsdt_address: u32,

    /// Used in the first revision of the interface; compatibility only,
    /// should be zero.
    pub reserved: u8,

    pub preferred_pm_profile: u8,
    pub sci_interrupt: u16,
    pub smi_cmd_port: u32,
    pub acpi_enable: u8,
    pub acpi_disable: u8,
    pub s4bios_req: u8,
    pub pstate_control: u8,
    pub pm1a_event_block: u32,
    pub pm1b_event_block: u32,
    pub pm1a_control_block: u32,
    pub pm1b_control_block: u32,
    pub pm2_control_block: u32,
    pub pm_timer_block: u32,
    pub gpe0_block: u32,
    pub gpe1_block: u32,
    pub pm1_event_length: u8,
    pub pm1_control_length: u8,
    pub pm2_control_length: u8,
    pub pm_timer_length: u8,
    pub gpe0_block_length: u8,
    pub gpe1_block_length: u8,
    pub gpe1_base: u8,
    pub c_state_control: u8,
    pub worst_c2_latency: u16,
    pub worst_c3_latency: u16,
    pub flush_size: u16,
    pub flush_stride: u16,
    pub duty_offset: u8,
    pub duty_width: u8,
    pub day_alarm: u8,
    pub month_alarm: u8,
    pub century: u8,
    pub iapc_boot_arch: u16,
    /// Must be zero.
    pub reserved2: u8,
    pub flags: u32,
    pub reset_reg: GenericAddress,
    pub reset_value: u8,
    pub arm_boot_arch: u16,
    pub fadt_minor_version: u8,
    pub x_firmware_control: u64,
    pub x_dsdt_address: u64,
    pub x_pm1a_event_block: GenericAddress,
    pub x_pm1b_event_block: GenericAddress,
    pub x_pm1a_control_block: GenericAddress,
    pub x_pm1b_control_block: GenericAddress,
    pub x_pm2_control_block: GenericAddress,
    pub x_pm_timer_block: GenericAddress,
    pub x_gpe0_block: GenericAddress,
    pub x_gpe1_block: GenericAddress,
    pub sleep_control_reg: GenericAddress,
    pub sleep_status_reg: GenericAddress,
    pub hypervisor_vendor_id: u64,
}

/// The resolution rule for a resource that a table exposes through both a
/// legacy 32-bit and an extended 64-bit field: the extended field is
/// authoritative whenever the table's revision exceeds 1 and the extended
/// field is non-zero; otherwise the legacy field is used, widened without
/// sign interpretation. The rule is applied per field pair, never cached
/// across unrelated fields.
pub open spec fn resolved_address(revision: u8, legacy: u32, extended: u64) -> u64 {
    if revision > 1 && extended != 0 {
        extended
    } else {
        legacy as u64
    }
}

/// Address resolution is total and admits no third outcome: for every
/// `(revision, legacy, extended)` triple, the resolved address is the
/// extended field exactly when `revision > 1` and the extended field is
/// non-zero, and the widened legacy field otherwise.
pub proof fn lemma_address_resolution_total(revision: u8, legacy: u32, extended: u64)
    ensures
        revision > 1 && extended != 0 ==> resolved_address(revision, legacy, extended) == extended,
        !(revision > 1 && extended != 0) ==> resolved_address(revision, legacy, extended)
            == legacy as u64,
        resolved_address(revision, legacy, extended) == extended || resolved_address(
            revision,
            legacy,
            extended,
        ) == legacy as u64,
{
}

impl Fadt {
    /// Every field zero: a zeroed header and every address, length, latency
    /// and flag field zero.
    pub open spec fn is_zeroed(self) -> bool {
        &&& self.header.is_zeroed()
        &&& self.firmware_ctrl == 0
        &&& self.dsdt_address == 0
        &&& self.reserved == 0
        &&& self.preferred_pm_profile == 0
        &&& self.sci_interrupt == 0
        &&& self.smi_cmd_port == 0
        &&& self.acpi_enable == 0
        &&& self.acpi_disable == 0
        &&& self.s4bios_req == 0
        &&& self.pstate_control == 0
        &&& self.pm1a_event_block == 0
        &&& self.pm1b_event_block == 0
        &&& self.pm1a_control_block == 0
        &&& self.pm1b_control_block == 0
        &&& self.pm2_control_block == 0
        &&& self.pm_timer_block == 0
        &&& self.gpe0_block == 0
        &&& self.gpe1_block == 0
        &&& self.pm1_event_length == 0
        &&& self.pm1_control_length == 0
        &&& self.pm2_control_length == 0
        &&& self.pm_timer_length == 0
        &&& self.gpe0_block_length == 0
        &&& self.gpe1_block_length == 0
        &&& self.gpe1_base == 0
        &&& self.c_state_control == 0
        &&& self.worst_c2_latency == 0
        &&& self.worst_c3_latency == 0
        &&& self.flush_size == 0
        &&& self.flush_stride == 0
        &&& self.duty_offset == 0
        &&& self.duty_width == 0
        &&& self.day_alarm == 0
        &&& self.month_alarm == 0
        &&& self.century == 0
        &&& self.iapc_boot_arch == 0
        &&& self.reserved2 == 0
        &&& self.flags == 0
        &&& self.reset_reg.is_zeroed()
        &&& self.reset_value == 0
        &&& self.arm_boot_arch == 0
        &&& self.fadt_minor_version == 0
        &&& self.x_firmware_control == 0
        &&& self.x_dsdt_address == 0
        &&& self.x_pm1a_event_block.is_zeroed()
        &&& self.x_pm1b_event_block.is_zeroed()
        &&& self.x_pm1a_control_block.is_zeroed()
        &&& self.x_pm1b_control_block.is_zeroed()
        &&& self.x_pm2_control_block.is_zeroed()
        &&& self.x_pm_timer_block.is_zeroed()
        &&& self.x_gpe0_block.is_zeroed()
        &&& self.x_gpe1_block.is_zeroed()
        &&& self.sleep_control_reg.is_zeroed()
        &&& self.sleep_status_reg.is_zeroed()
        &&& self.hypervisor_vendor_id == 0
    }

    /// The physical address of the Differentiated Definition Block, derived
    /// from the table's legacy and extended address fields by the
    /// [`resolved_address`] rule.
    pub fn dsdt_physical_address(&self) -> (address: u64)
        ensures
            address == resolved_address(self.header.revision, self.dsdt_address,
                self.x_dsdt_address),
    {
        if self.header.revision > 1 && self.x_dsdt_address != 0 {
            self.x_dsdt_address
        } else {
            self.dsdt_address as u64
        }
    }
}

impl Default for Fadt {
    fn default() -> (r: Fadt)
        ensures
            r.is_zeroed(),
    {
        Fadt {
            header: Default::default(),
            firmware_ctrl: 0,
            dsdt_address: 0,
            reserved: 0,
            preferred_pm_profile: 0,
            sci_interrupt: 0,
            smi_cmd_port: 0,
            acpi_enable: 0,
            acpi_disable: 0,
            s4bios_req: 0,
            pstate_control: 0,
            pm1a_event_block: 0,
            pm1b_event_block: 0,
            pm1a_control_block: 0,
            pm1b_control_block: 0,
            pm2_control_block: 0,
            pm_timer_block: 0,
            gpe0_block: 0,
            gpe1_block: 0,
            pm1_event_length: 0,
            pm1_control_length: 0,
            pm2_control_length: 0,
            pm_timer_length: 0,
            gpe0_block_length: 0,
            gpe1_block_length: 0,
            gpe1_base: 0,
            c_state_control: 0,
            worst_c2_latency: 0,
            worst_c3_latency: 0,
            flush_size: 0,
            flush_stride: 0,
            duty_offset: 0,
            duty_width: 0,
            day_alarm: 0,
            month_alarm: 0,
            century: 0,
            iapc_boot_arch: 0,
            reserved2: 0,
            flags: 0,
            reset_reg: Default::default(),
            reset_value: 0,
            arm_boot_arch: 0,
            fadt_minor_version: 0,
            x_firmware_control: 0,
            x_dsdt_address: 0,
            x_pm1a_event_block: Default::default(),
            x_pm1b_event_block: Default::default(),
            x_pm1a_control_block: Default::default(),
            x_pm1b_control_block: Default::default(),
            x_pm2_control_block: Default::default(),
            x_pm_timer_block: Default::default(),
            x_gpe0_block: Default::default(),
            x_gpe1_block: Default::default(),
            sleep_control_reg: Default::default(),
            sleep_status_reg: Default::default(),
            hypervisor_vendor_id: 0,
        }
    }
}

/// How a failure of the nested definition-block parse is treated.
///
/// The lenient policy matches the current behaviour: the failure is
/// tolerated and the outer table is still recorded, a transitional choice
/// expected to tighten once byte-code parsing matures. The strict policy is
/// that eventual tightening: the nested failure becomes fatal, without an
/// interface change.
#[derive(Clone, Copy, Debug, PartialEq, Eq)]
pub enum DsdtPolicy {
    Lenient,
    Strict,
}

/// Parses a mapped Fixed ACPI Description Table with the transitional
/// lenient policy for nested definition-block failures (see
/// [`parse_fadt_with_policy`]).
pub fn parse_fadt<H: AcpiHandler>(
    acpi: &mut Acpi,
    handler: &mut H,
    mapping: &PhysicalMapping<Fadt>,
) -> (r: Result<(), AcpiError>)
    ensures
        !signature_ok(mapping.value.header, fadt_tag_spec()) ==> ({
            &&& r matches Err(AcpiError::SignatureMismatch { expected, found })
            &&& expected@ == fadt_tag_spec()
            &&& found == mapping.value.header.signature
            &&& *final(acpi) == *old(acpi)
            &&& *final(handler) == *old(handler)
        }),
        signature_ok(mapping.value.header, fadt_tag_spec()) ==> ({
            let resolved = resolved_address(mapping.value.header.revision,
                mapping.value.dsdt_address, mapping.value.x_dsdt_address);
            &&& r is Ok
            &&& final(acpi).fadt == Some(mapping.value)
            &&& final(handler).mapped_regions() == old(handler).mapped_regions().push(resolved)
            &&& final(handler).unmapped_regions() == old(handler).unmapped_regions().push(resolved)
        }),
{
    parse_fadt_with_policy(acpi, handler, mapping, DsdtPolicy::Lenient)
}

/// Parses a mapped Fixed ACPI Description Table.
///
/// The table's header is validated against the FADT tag first; on a
/// mismatch the parse aborts with `SignatureMismatch` and no state is
/// touched. Otherwise the definition-block address is resolved by the
/// [`resolved_address`] rule, the block's own header is peeked at to learn
/// its declared length, a mapping of exactly that length is requested and
/// handed to the byte-code parser, and the mapping is released again on
/// every path. Finally a value copy of the table is recorded in the shared
/// state, overwriting any previous copy.
///
/// Once the header validation has succeeded, exactly one definition-block
/// mapping is created, at the resolved address, and exactly that one is
/// released again, whether or not the nested byte-code parse succeeds: the
/// handler's map and unmap logs each grow by that one address.
pub fn parse_fadt_with_policy<H: AcpiHandler>(
    acpi: &mut Acpi,
    handler: &mut H,
    mapping: &PhysicalMapping<Fadt>,
    policy: DsdtPolicy,
) -> (r: Result<(), AcpiError>)
    ensures
        !signature_ok(mapping.value.header, fadt_tag_spec()) ==> ({
            &&& r matches Err(AcpiError::SignatureMismatch { expected, found })
            &&& expected@ == fadt_tag_spec()
            &&& found == mapping.value.header.signature
            &&& *final(acpi) == *old(acpi)
            &&& *final(handler) == *old(handler)
        }),
        signature_ok(mapping.value.header, fadt_tag_spec()) ==> ({
            let resolved = resolved_address(mapping.value.header.revision,
                mapping.value.dsdt_address, mapping.value.x_dsdt_address);
            &&& final(handler).mapped_regions() == old(handler).mapped_regions().push(resolved)
            &&& final(handler).unmapped_regions() == old(handler).unmapped_regions().push(resolved)
        }),
        signature_ok(mapping.value.header, fadt_tag_spec()) && policy == DsdtPolicy::Lenient
            ==> r is Ok,
        r is Ok ==> final(acpi).fadt == Some(mapping.value) && signature_ok(mapping.value.header,
            fadt_tag_spec()),
        r is Err ==> *final(acpi) == *old(acpi),
        signature_ok(mapping.value.header, fadt_tag_spec()) ==> (match r {
            Err(AcpiError::SignatureMismatch { expected, found }) => expected@ == dsdt_tag_spec()
                && found@ != dsdt_tag_spec(),
            Ok(()) => true,
        }),
{
    let fadt = &mapping.value;
    if let Err(error) = fadt.header.validate(&fadt_tag()) {
        return Err(error);
    }
    let dsdt_physical_address: u64 = fadt.dsdt_physical_address();

    // Peek at the definition block's own header to learn its declared
    // length, so that only a bounded region is ever mapped.
    let dsdt_header = handler.peek_at_sdt_header(dsdt_physical_address);
    let dsdt_mapping = handler.map_physical_region(dsdt_physical_address,
        dsdt_header.length as usize);
    let aml_result = parse_aml_table(acpi, handler, &dsdt_mapping, &dsdt_tag());
    // Released on every path, whether or not the nested parse succeeded.
    handler.unmap_physical_region(dsdt_mapping);
    if let Err(error) = aml_result {
        match policy {
            DsdtPolicy::Strict => {
                return Err(error);
            },
            DsdtPolicy::Lenient => {
                // Transitional: a definition-block failure does not yet fail
                // the table that pointed at it.
            },
        }
    }
    acpi.fadt = Some(*fadt);
    Ok(())
}

} // verus!
