//! Tests of the checksum engine, the bytecode patcher, the root pointer
//! walker, and the layout parse/serialize pairs.

use acpi_tables::checksum::checksum8;
use acpi_tables::checksum::image_sum_is_zero;
use acpi_tables::codec::read_le32;
use acpi_tables::layout::DescriptionHeader;
use acpi_tables::layout::GenericAddressSpace;
use acpi_tables::layout::RootSystemDescriptionPointer3;
use acpi_tables::patch::patch_dword;
use acpi_tables::walker::find_config_entry;
use acpi_tables::walker::find_region;
use acpi_tables::walker::find_root_pointer_entry;
use acpi_tables::walker::next_probe_address;
use acpi_tables::walker::select_directory;
use acpi_tables::walker::AcpiError;
use acpi_tables::walker::ConfigTableEntry;
use acpi_tables::walker::MemoryRegion;

#[test]
fn checksum_cancels_byte_sum() {
    // (sum(b) + checksum8(b)) mod 256 == 0, on assorted buffers.
    let buffers: Vec<Vec<u8>> = vec![
        vec![],
        vec![0],
        vec![1, 2, 3],
        vec![0xff; 7],
        vec![0x80, 0x80],
        (0..=255).collect(),
    ];
    for b in buffers {
        let c = checksum8(&b);
        let sum: u32 = b.iter().map(|&x| x as u32).sum();
        assert_eq!((sum + c as u32) % 256, 0, "buffer {:?}", b);
    }
}

#[test]
fn checksum_exact_values() {
    assert_eq!(checksum8(&vec![]), 0);
    assert_eq!(checksum8(&vec![1, 2, 3]), 250);
    assert_eq!(checksum8(&vec![0x80, 0x80]), 0); // sum is already 0 mod 256
    assert_eq!(checksum8(&vec![0xff]), 1);
}

#[test]
fn empty_and_zero_images_sum_to_zero() {
    assert!(image_sum_is_zero(&vec![]));
    assert!(image_sum_is_zero(&vec![0u8; 36]));
    assert!(!image_sum_is_zero(&vec![1u8]));
}

#[test]
fn patch_preserves_length() {
    let cases: Vec<Vec<u8>> = vec![
        vec![],
        vec![1, 2, 3],
        vec![0x44, 0x33, 0x22, 0x11],
        vec![0u8; 100],
    ];
    for case in cases {
        let mut v = case.clone();
        patch_dword(&mut v, 0x11223344, 0xdeadbeef);
        assert_eq!(v.len(), case.len());
    }
}

#[test]
fn patch_rewrites_every_occurrence() {
    // Two disjoint occurrences of the placeholder.
    let mut v = vec![0x00, 0x44, 0x33, 0x22, 0x11, 0x55, 0x44, 0x33, 0x22, 0x11];
    patch_dword(&mut v, 0x11223344, 0xdeadbeef);
    assert_eq!(v, vec![0x00, 0xef, 0xbe, 0xad, 0xde, 0x55, 0xef, 0xbe, 0xad, 0xde]);
}

#[test]
fn patch_misses_partial_occurrences() {
    let mut v = vec![0x44, 0x33, 0x22, 0x10, 0x44, 0x33, 0x22];
    let before = v.clone();
    patch_dword(&mut v, 0x11223344, 0xdeadbeef);
    assert_eq!(v, before);
}

#[test]
fn patch_scans_overlapping_windows() {
    // The window keeps advancing one byte after a rewrite, so a window
    // formed out of a written byte and its neighbours is examined too:
    // here the rewrite at position 1 recreates the pattern at position 1's
    // successor windows only through the written bytes.
    let mut v = vec![0x01, 0x01, 0x02, 0x03, 0x04];
    // old 0x04030201 has little-endian bytes [01, 02, 03, 04]; the match
    // at position 1 is rewritten with [02, 03, 04, 05].
    patch_dword(&mut v, 0x04030201, 0x05040302);
    assert_eq!(v, vec![0x01, 0x02, 0x03, 0x04, 0x05]);
}

#[test]
fn patch_same_pair_twice_on_golden_blob() {
    // Re-application with the same (old, new) pair: once the placeholder
    // is gone, the second pass finds nothing (old != new).
    let golden = acpi_tables::builder::aml_template();
    let mut once = golden.clone();
    patch_dword(&mut once, 0x11223344, 0xfeaddead);
    assert_ne!(once, golden);
    let mut twice = once.clone();
    patch_dword(&mut twice, 0x11223344, 0xfeaddead);
    assert_eq!(twice, once);
}

#[test]
fn patch_with_equal_old_and_new_changes_nothing() {
    let golden = acpi_tables::builder::aml_template();
    let mut v = golden.clone();
    patch_dword(&mut v, 0x11223344, 0x11223344);
    assert_eq!(v, golden);
}

fn rsdp(revision: u8, rsdt: u32, xsdt: u64) -> RootSystemDescriptionPointer3 {
    RootSystemDescriptionPointer3 {
        signature: 0x2052_5450_2044_5352, // "RSD PTR "
        checksum: 0,
        oem_id: [b'A', b'B', b'C', b'D', b'E', b'F'],
        revision,
        rsdt_address: rsdt,
        length: 36,
        xsdt_address: xsdt,
        extended_checksum: 0,
        reserved: [0; 3],
    }
}

#[test]
fn directory_selection_prefers_newer() {
    // Revision 2 with a non-zero newer pointer selects the newer one.
    assert_eq!(select_directory(&rsdp(2, 0x1234, 0x9999)), Ok(0x9999));
    assert_eq!(select_directory(&rsdp(3, 0x1234, 0x9999)), Ok(0x9999));
}

#[test]
fn directory_selection_falls_back_to_older() {
    // Revision 1, or a zero newer pointer, selects the older 32-bit one.
    assert_eq!(select_directory(&rsdp(1, 0x1234, 0x9999)), Ok(0x1234));
    assert_eq!(select_directory(&rsdp(2, 0x1234, 0)), Ok(0x1234));
}

#[test]
fn directory_lookup_with_zero_pointers_fails_cleanly() {
    // Both pointers zero: a discovery failure, not a crash.
    assert_eq!(select_directory(&rsdp(2, 0, 0)), Err(AcpiError::DirectoryNotFound));
    assert_eq!(select_directory(&rsdp(1, 0, 0)), Err(AcpiError::DirectoryNotFound));
}

#[test]
fn header_serialize_parse_roundtrip() {
    let h = DescriptionHeader {
        signature: 0x5444_5353,
        length: 99,
        revision: 2,
        checksum: 0xab,
        oem_id: [1, 2, 3, 4, 5, 6],
        oem_table_id: 0xcafebabe_12345678,
        oem_revision: 42,
        creator_id: 9,
        creator_revision: 10,
    };
    let bytes = h.to_bytes();
    assert_eq!(bytes.len(), 36);
    let back = DescriptionHeader::parse(&bytes);
    assert_eq!(back, h);
    assert_eq!(back.to_bytes(), bytes);
}

#[test]
fn rsdp_parse_reads_documented_offsets() {
    let mut bytes = vec![0u8; 36];
    bytes[0..8].copy_from_slice(b"RSD PTR ");
    bytes[8] = 0x33; // checksum
    bytes[9..15].copy_from_slice(b"OEMIDX");
    bytes[15] = 2; // revision
    bytes[16..20].copy_from_slice(&0x11223344u32.to_le_bytes()); // older directory
    bytes[20..24].copy_from_slice(&36u32.to_le_bytes()); // length
    bytes[24..32].copy_from_slice(&0xa1b2c3d4e5f60718u64.to_le_bytes()); // newer directory
    bytes[32] = 0x44; // extended checksum
    let r = RootSystemDescriptionPointer3::parse(&bytes);
    assert_eq!(&r.signature.to_le_bytes(), b"RSD PTR ");
    assert_eq!(r.checksum, 0x33);
    assert_eq!(&r.oem_id, b"OEMIDX");
    assert_eq!(r.revision, 2);
    assert_eq!(r.rsdt_address, 0x11223344);
    assert_eq!(r.length, 36);
    assert_eq!(r.xsdt_address, 0xa1b2c3d4e5f60718);
    assert_eq!(r.extended_checksum, 0x44);
    assert_eq!(select_directory(&r), Ok(0xa1b2c3d4e5f60718));
}

#[test]
fn generic_address_space_zeroed() {
    let g = GenericAddressSpace::new();
    assert_eq!(g.to_bytes(), vec![0u8; 12]);
}

#[test]
fn config_entry_search_finds_first_match() {
    let g1 = [1u8; 16];
    let g2 = [2u8; 16];
    let entries = vec![
        ConfigTableEntry { guid: g1, address: 0x100 },
        ConfigTableEntry { guid: g2, address: 0x200 },
        ConfigTableEntry { guid: g2, address: 0x300 },
    ];
    assert_eq!(find_config_entry(&entries, &g2).unwrap().address, 0x200);
    assert_eq!(find_config_entry(&entries, &g1).unwrap().address, 0x100);
    assert_eq!(find_config_entry(&entries, &[3u8; 16]), Err(AcpiError::TableNotFound));
}

#[test]
fn root_pointer_entry_prefers_newer_guid() {
    let newer = [2u8; 16];
    let older = [1u8; 16];
    let both = vec![
        ConfigTableEntry { guid: older, address: 0x100 },
        ConfigTableEntry { guid: newer, address: 0x200 },
    ];
    assert_eq!(find_root_pointer_entry(&both, &newer, &older).unwrap().address, 0x200);
    let only_older = vec![ConfigTableEntry { guid: older, address: 0x100 }];
    assert_eq!(find_root_pointer_entry(&only_older, &newer, &older).unwrap().address, 0x100);
    let neither = vec![ConfigTableEntry { guid: [9u8; 16], address: 0x100 }];
    assert_eq!(find_root_pointer_entry(&neither, &newer, &older), Err(AcpiError::TableNotFound));
}

#[test]
fn region_search_checks_page_bounds() {
    let regions = vec![
        MemoryRegion { phys_start: 0x1000, page_count: 2 },
        MemoryRegion { phys_start: 0x10000, page_count: 1 },
    ];
    assert_eq!(find_region(&regions, 0x1000).unwrap().phys_start, 0x1000);
    assert_eq!(find_region(&regions, 0x2fff).unwrap().phys_start, 0x1000);
    assert_eq!(find_region(&regions, 0x3000), Err(AcpiError::RegionNotFound));
    assert_eq!(find_region(&regions, 0x10aaa).unwrap().phys_start, 0x10000);
    assert_eq!(find_region(&vec![], 0), Err(AcpiError::RegionNotFound));
}

#[test]
fn probe_schedule_is_page_aligned_and_bounded() {
    assert_eq!(next_probe_address(0), Some(0));
    assert_eq!(next_probe_address(1), Some(4096));
    assert_eq!(next_probe_address(255), Some(255 * 4096));
    assert_eq!(next_probe_address(256), None);
    assert_eq!(next_probe_address(10_000), None);
}

#[test]
fn length_field_matches_for_every_builder() {
    let oem = acpi_tables::layout::OemInfo {
        oem_id: [0; 6],
        oem_table_id: 0,
        oem_revision: 0,
    };
    let images = vec![
        acpi_tables::builder::build_fadt3_image(&oem),
        acpi_tables::builder::build_fadt1_image(&oem),
        acpi_tables::builder::build_vendor_table_image(&oem, 0, 0),
        acpi_tables::builder::build_ssdt_image(&oem, 0),
    ];
    for image in images {
        assert_eq!(read_le32(&image, 4) as usize, image.len());
        assert!(image_sum_is_zero(&image));
    }
}
