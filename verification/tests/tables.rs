use acpi::Acpi;
use acpi::AcpiError;
use acpi::aml::AmlTable;
use acpi::aml::parse_aml_table;
use acpi::fadt::DsdtPolicy;
use acpi::fadt::Fadt;
use acpi::fadt::parse_fadt;
use acpi::fadt::parse_fadt_with_policy;
use acpi::handler::AcpiHandler;
use acpi::handler::PhysicalMapping;
use acpi::hpet::Hpet;
use acpi::hpet::parse_hpet;
use acpi::sdt::SdtHeader;

/// An in-memory platform handler: hands out a fixed definition block and
/// header, and counts the map/unmap calls it receives.
struct TestHandler {
    dsdt: AmlTable,
    peeked_header: SdtHeader,
    mapped: u32,
    unmapped: u32,
    last_map_address: u64,
    last_map_length: usize,
    last_unmap_address: u64,
}

impl TestHandler {
    fn with_dsdt_signature(signature: [u8; 4]) -> TestHandler {
        let dsdt_header = SdtHeader {
            signature,
            length: 100,
            ..Default::default()
        };
        TestHandler {
            dsdt: AmlTable { header: dsdt_header },
            peeked_header: dsdt_header,
            mapped: 0,
            unmapped: 0,
            last_map_address: 0,
            last_map_length: 0,
            last_unmap_address: 0,
        }
    }
}

impl AcpiHandler for TestHandler {
    fn peek_at_sdt_header(&mut self, _physical_address: u64) -> SdtHeader {
        self.peeked_header
    }

    fn map_physical_region(
        &mut self,
        physical_address: u64,
        region_length: usize,
    ) -> PhysicalMapping<AmlTable> {
        self.mapped += 1;
        self.last_map_address = physical_address;
        self.last_map_length = region_length;
        PhysicalMapping {
            physical_start: physical_address,
            value: self.dsdt,
            region_length,
        }
    }

    fn unmap_physical_region(&mut self, region: PhysicalMapping<AmlTable>) {
        self.unmapped += 1;
        self.last_unmap_address = region.physical_start;
    }
}

fn fadt_with(revision: u8, dsdt_address: u32, x_dsdt_address: u64) -> Fadt {
    let mut fadt = Fadt {
        dsdt_address,
        x_dsdt_address,
        ..Default::default()
    };
    fadt.header.signature = *b"FACP";
    fadt.header.revision = revision;
    fadt
}

fn mapped<T>(value: T) -> PhysicalMapping<T> {
    PhysicalMapping {
        physical_start: 0x500,
        value,
        region_length: 276,
    }
}

#[test]
fn validate_accepts_matching_signature() {
    let header = SdtHeader {
        signature: *b"FACP",
        ..Default::default()
    };
    assert_eq!(header.validate(b"FACP"), Ok(()));
}

#[test]
fn validate_reports_expected_and_found_tags() {
    let header = SdtHeader {
        signature: *b"ABCD",
        ..Default::default()
    };
    assert_eq!(
        header.validate(b"FACP"),
        Err(AcpiError::SignatureMismatch {
            expected: *b"FACP",
            found: *b"ABCD",
        })
    );
}

#[test]
fn validate_ignores_every_field_but_the_signature() {
    let plain = SdtHeader {
        signature: *b"HPET",
        ..Default::default()
    };
    let noisy = SdtHeader {
        signature: *b"HPET",
        length: 0xFFFF_FFFF,
        revision: 0xFF,
        checksum: 0x13,
        oem_id: *b"NOISEY",
        oem_table_id: *b"NOISIEST",
        oem_revision: 7,
        creator_id: 8,
        creator_revision: 9,
    };
    assert_eq!(plain.validate(b"HPET"), Ok(()));
    assert_eq!(noisy.validate(b"HPET"), Ok(()));
    assert_eq!(
        plain.validate(b"FACP").is_err(),
        noisy.validate(b"FACP").is_err()
    );
}

#[test]
fn revision_one_resolves_to_legacy_address() {
    let fadt = fadt_with(1, 0x1000, 0x2000);
    assert_eq!(fadt.dsdt_physical_address(), 0x1000);
}

#[test]
fn zero_extended_address_falls_back_to_legacy() {
    let fadt = fadt_with(2, 0x1000, 0);
    assert_eq!(fadt.dsdt_physical_address(), 0x1000);
}

#[test]
fn later_revision_prefers_extended_address() {
    let fadt = fadt_with(2, 0x1000, 0x2000);
    assert_eq!(fadt.dsdt_physical_address(), 0x2000);
}

#[test]
fn hpet_with_matching_signature_parses() {
    let mut hpet = Hpet::default();
    hpet.header.signature = *b"HPET";
    hpet.clock_tick_unit = 0x0429;
    assert_eq!(parse_hpet(&mapped(hpet)), Ok(()));
}

#[test]
fn hpet_with_any_flipped_signature_byte_is_rejected() {
    for i in 0..4 {
        let mut signature = *b"HPET";
        signature[i] ^= 0x20;
        let mut hpet = Hpet::default();
        hpet.header.signature = signature;
        assert_eq!(
            parse_hpet(&mapped(hpet)),
            Err(AcpiError::SignatureMismatch {
                expected: *b"HPET",
                found: signature,
            })
        );
    }
}

#[test]
fn aml_handoff_accepts_the_requested_tag_only() {
    let mut acpi = Acpi { fadt: None };
    let mut handler = TestHandler::with_dsdt_signature(*b"DSDT");
    let good = AmlTable {
        header: SdtHeader {
            signature: *b"DSDT",
            ..Default::default()
        },
    };
    assert_eq!(
        parse_aml_table(&mut acpi, &mut handler, &mapped(good), b"DSDT"),
        Ok(())
    );
    assert_eq!(
        parse_aml_table(&mut acpi, &mut handler, &mapped(good), b"SSDT"),
        Err(AcpiError::SignatureMismatch {
            expected: *b"SSDT",
            found: *b"DSDT",
        })
    );
}

#[test]
fn fadt_parse_records_the_table() {
    let mut acpi = Acpi { fadt: None };
    let mut handler = TestHandler::with_dsdt_signature(*b"DSDT");
    let fadt = fadt_with(2, 0x1000, 0x2000);
    assert_eq!(parse_fadt(&mut acpi, &mut handler, &mapped(fadt)), Ok(()));
    assert_eq!(acpi.fadt, Some(fadt));
    // The definition block was mapped at the resolved address, for exactly
    // the length its own header declared, and released again.
    assert_eq!(handler.last_map_address, 0x2000);
    assert_eq!(handler.last_map_length, 100);
    assert_eq!(handler.mapped, 1);
    assert_eq!(handler.unmapped, 1);
    assert_eq!(handler.last_unmap_address, 0x2000);
}

#[test]
fn fadt_parse_maps_the_legacy_address_on_old_revisions() {
    let mut acpi = Acpi { fadt: None };
    let mut handler = TestHandler::with_dsdt_signature(*b"DSDT");
    let fadt = fadt_with(1, 0x1000, 0x2000);
    assert_eq!(parse_fadt(&mut acpi, &mut handler, &mapped(fadt)), Ok(()));
    assert_eq!(handler.last_map_address, 0x1000);
}

#[test]
fn fadt_signature_mismatch_is_fatal_and_touches_nothing() {
    let mut acpi = Acpi { fadt: None };
    let mut handler = TestHandler::with_dsdt_signature(*b"DSDT");
    let mut fadt = fadt_with(2, 0x1000, 0x2000);
    fadt.header.signature = *b"FACS";
    assert_eq!(
        parse_fadt(&mut acpi, &mut handler, &mapped(fadt)),
        Err(AcpiError::SignatureMismatch {
            expected: *b"FACP",
            found: *b"FACS",
        })
    );
    assert_eq!(acpi.fadt, None);
    assert_eq!(handler.mapped, 0);
    assert_eq!(handler.unmapped, 0);
}

#[test]
fn nested_definition_block_failure_is_tolerated_and_table_recorded() {
    let mut acpi = Acpi { fadt: None };
    // The handler hands back a block that is not a definition block at all,
    // so the nested parse fails; the table is still recorded.
    let mut handler = TestHandler::with_dsdt_signature(*b"XXXX");
    let fadt = fadt_with(2, 0x1000, 0x2000);
    assert_eq!(parse_fadt(&mut acpi, &mut handler, &mapped(fadt)), Ok(()));
    assert_eq!(acpi.fadt, Some(fadt));
    // The mapping is released exactly once even on the failure path.
    assert_eq!(handler.mapped, 1);
    assert_eq!(handler.unmapped, 1);
}

#[test]
fn strict_policy_makes_the_nested_failure_fatal() {
    let mut acpi = Acpi { fadt: None };
    let mut handler = TestHandler::with_dsdt_signature(*b"XXXX");
    let fadt = fadt_with(2, 0x1000, 0x2000);
    assert_eq!(
        parse_fadt_with_policy(&mut acpi, &mut handler, &mapped(fadt), DsdtPolicy::Strict),
        Err(AcpiError::SignatureMismatch {
            expected: *b"DSDT",
            found: *b"XXXX",
        })
    );
    assert_eq!(acpi.fadt, None);
    // The mapping is still released exactly once.
    assert_eq!(handler.mapped, 1);
    assert_eq!(handler.unmapped, 1);
}

#[test]
fn lenient_policy_matches_the_default_entry_point() {
    let mut acpi_default = Acpi { fadt: None };
    let mut acpi_lenient = Acpi { fadt: None };
    let mut handler_a = TestHandler::with_dsdt_signature(*b"XXXX");
    let mut handler_b = TestHandler::with_dsdt_signature(*b"XXXX");
    let fadt = fadt_with(2, 0, 0x2000);
    let by_default = parse_fadt(&mut acpi_default, &mut handler_a, &mapped(fadt));
    let by_policy = parse_fadt_with_policy(
        &mut acpi_lenient,
        &mut handler_b,
        &mapped(fadt),
        DsdtPolicy::Lenient,
    );
    assert_eq!(by_default, by_policy);
    assert_eq!(acpi_default.fadt, acpi_lenient.fadt);
}

#[test]
fn a_second_parse_overwrites_the_recorded_table() {
    let mut acpi = Acpi { fadt: None };
    let mut handler = TestHandler::with_dsdt_signature(*b"DSDT");
    let first = fadt_with(1, 0x1000, 0);
    let second = fadt_with(2, 0x1000, 0x2000);
    assert_eq!(parse_fadt(&mut acpi, &mut handler, &mapped(first)), Ok(()));
    assert_eq!(acpi.fadt, Some(first));
    assert_eq!(parse_fadt(&mut acpi, &mut handler, &mapped(second)), Ok(()));
    assert_eq!(acpi.fadt, Some(second));
}

#[test]
fn defaults_are_zeroed() {
    let fadt = Fadt::default();
    assert_eq!(fadt.header.signature, [0; 4]);
    assert_eq!(fadt.dsdt_address, 0);
    assert_eq!(fadt.x_dsdt_address, 0);
    assert_eq!(fadt.reset_reg.address, 0);
    let hpet = Hpet::default();
    assert_eq!(hpet.clock_tick_unit, 0);
    assert_eq!(hpet.base_address.address_space, 0);
}
