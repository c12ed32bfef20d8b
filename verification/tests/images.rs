//! Tests of the table builders: finished images, checksums, length
//! fields, and payload placement.

use acpi_tables::builder::build_fadt1_image;
use acpi_tables::builder::build_fadt3_image;
use acpi_tables::builder::build_ssdt_image;
use acpi_tables::builder::build_vendor_table_image;
use acpi_tables::builder::aml_template;
use acpi_tables::builder::RegionPayload;
use acpi_tables::builder::VendorDataTable;
use acpi_tables::checksum::image_sum_is_zero;
use acpi_tables::codec::read_le32;
use acpi_tables::codec::read_le64;
use acpi_tables::layout::DescriptionHeader;
use acpi_tables::layout::OemInfo;

fn sample_oem() -> OemInfo {
    OemInfo {
        oem_id: [b'A', b'B', b'C', b'D', b'E', b'F'],
        oem_table_id: 0x1122334455667788,
        oem_revision: 7,
    }
}

fn byte_sum(buf: &[u8]) -> u32 {
    buf.iter().map(|&b| b as u32).sum::<u32>() % 256
}

#[test]
fn vendor_table_end_to_end() {
    // The published payload: magic, physical address, byte length.
    let image = build_vendor_table_image(&sample_oem(), 0x1000000, 4096);
    assert_eq!(image.len(), 60);
    // Payload bytes are the little-endian encodings of the three values.
    let mut expected = Vec::new();
    expected.extend_from_slice(&0xfeeddead_u64.to_le_bytes());
    expected.extend_from_slice(&0x1000000_u64.to_le_bytes());
    expected.extend_from_slice(&4096_u64.to_le_bytes());
    assert_eq!(&image[36..60], &expected[..]);
    // The header checksum makes the whole image sum to 0.
    assert_eq!(byte_sum(&image), 0);
    assert!(image_sum_is_zero(&image));
}

#[test]
fn vendor_table_header_fields() {
    let image = build_vendor_table_image(&sample_oem(), 0x2000, 8192);
    // Signature "BPBT", little-endian 0x5442_5042.
    assert_eq!(&image[0..4], b"BPBT");
    // Length field equals the serialized size.
    assert_eq!(read_le32(&image, 4), 60);
    assert_eq!(image[8], 2); // revision
    assert_eq!(&image[10..16], b"ABCDEF");
    assert_eq!(read_le64(&image, 16), 0x1122334455667788);
    assert_eq!(read_le32(&image, 24), 7);
    assert_eq!(read_le32(&image, 28), 0); // creator id
    assert_eq!(read_le32(&image, 32), 0); // creator revision
}

#[test]
fn fadt3_image_layout() {
    let image = build_fadt3_image(&sample_oem());
    assert_eq!(image.len(), 244);
    assert_eq!(&image[0..4], b"FACP");
    assert_eq!(read_le32(&image, 4), 244); // length field == image length
    assert_eq!(image[8], 4); // revision
    assert_eq!(&image[10..16], b"ABCDEF");
    assert_eq!(read_le64(&image, 16), 0x1122334455667788);
    assert_eq!(read_le32(&image, 24), 7);
    // Everything after the vendor fields is zero: the creator fields
    // and the whole body.  (The checksum sits earlier, at offset 9.)
    for i in 28..244 {
        assert_eq!(image[i], 0, "byte {} not zero", i);
    }
    assert_eq!(byte_sum(&image), 0);
    assert!(image_sum_is_zero(&image));
}

#[test]
fn fadt1_image_layout() {
    let image = build_fadt1_image(&sample_oem());
    assert_eq!(image.len(), 116);
    assert_eq!(&image[0..4], b"FACP");
    assert_eq!(read_le32(&image, 4), 116);
    assert_eq!(image[8], 1); // revision
    assert_eq!(&image[10..16], b"ABCDEF");
    for i in 28..116 {
        assert_eq!(image[i], 0, "byte {} not zero", i);
    }
    assert_eq!(byte_sum(&image), 0);
    assert!(image_sum_is_zero(&image));
}

#[test]
fn fadt_images_differ_only_in_layout() {
    // The two variants are independent layouts, not revisions of one
    // structure: same signature, different revision and length.
    let oem = sample_oem();
    let newer = build_fadt3_image(&oem);
    let older = build_fadt1_image(&oem);
    assert_eq!(&newer[0..4], &older[0..4]);
    assert_ne!(newer.len(), older.len());
    assert_ne!(newer[8], older[8]);
}

#[test]
fn ssdt_image_layout() {
    // The vendor fields are inherited from the platform's table set,
    // exactly like the other builders.
    let image = build_ssdt_image(&sample_oem(), 0xfeaddead);
    assert_eq!(image.len(), 99);
    assert_eq!(&image[0..4], b"SSDT");
    assert_eq!(read_le32(&image, 4), 99);
    assert_eq!(image[8], 2); // revision
    assert_eq!(&image[10..16], b"ABCDEF");
    assert_eq!(read_le64(&image, 16), 0x1122334455667788);
    assert_eq!(read_le32(&image, 24), 7);
    assert_eq!(read_le32(&image, 28), 0); // creator id
    assert_eq!(read_le32(&image, 32), 0); // creator revision
    assert_eq!(byte_sum(&image), 0);
    assert!(image_sum_is_zero(&image));
}

#[test]
fn ssdt_image_carries_patched_template() {
    let image = build_ssdt_image(&sample_oem(), 0xdeadbeef);
    let template = aml_template();
    assert_eq!(template.len(), 63);
    // The template holds the placeholder exactly once, at offset 53.
    assert_eq!(&template[53..57], &[0x44, 0x33, 0x22, 0x11]);
    // The embedded payload is the template with that window rewritten.
    let mut expected = template.clone();
    expected[53..57].copy_from_slice(&[0xef, 0xbe, 0xad, 0xde]);
    assert_eq!(&image[36..99], &expected[..]);
}

#[test]
fn payload_record_serializes_little_endian() {
    let p = RegionPayload { magic: 0xfeeddead, physical_address: 0xabcd_0123, length_bytes: 4096 };
    let bytes = p.to_bytes();
    assert_eq!(bytes.len(), 24);
    assert_eq!(read_le64(&bytes, 0), 0xfeeddead);
    assert_eq!(read_le64(&bytes, 8), 0xabcd_0123);
    assert_eq!(read_le64(&bytes, 16), 4096);
}

#[test]
fn vendor_table_struct_roundtrips_through_header_parse() {
    let t = VendorDataTable::new(&sample_oem(), 0x77, 0x88);
    let bytes = t.to_bytes();
    let h = DescriptionHeader::parse(&bytes);
    assert_eq!(h.signature, 0x5442_5042);
    assert_eq!(h.length, 60);
    assert_eq!(h.revision, 2);
    assert_eq!(h.checksum, 0); // `new` leaves the checksum zero
    assert_eq!(h.oem_id, sample_oem().oem_id);
    assert_eq!(h.oem_table_id, 0x1122334455667788);
    assert_eq!(h.oem_revision, 7);
}

#[test]
fn corrupted_image_fails_verification() {
    let mut image = build_vendor_table_image(&sample_oem(), 0x1000, 4096);
    assert!(image_sum_is_zero(&image));
    image[40] = image[40].wrapping_add(1);
    assert!(!image_sum_is_zero(&image));
}
