//! The table builders: each produces a fully populated, checksummed byte
//! image, ready to be copied into firmware-provided memory and handed to
//! the table registry.

use vstd::prelude::*;
use vstd::bytes::*;
use crate::checksum::checksum8;
use crate::checksum::lemma_checksummed_sums_zero;
use crate::checksum::spec_checksum8;
use crate::checksum::spec_sum;
use crate::codec::push_bytes;
use crate::codec::push_le64;
use crate::layout::lemma_header_bytes;
use crate::layout::DescriptionHeader;
use crate::layout::FixedDescriptionTable1;
use crate::layout::FixedDescriptionTable3;
use crate::layout::OemInfo;
use crate::layout::DESCRIPTION_HEADER_SIZE;
use crate::layout::FADT1_SIZE;
use crate::layout::FADT3_SIZE;
use crate::patch::lemma_patch_preserves_len;
use crate::patch::patch_dword;
use crate::patch::spec_patch;

verus! {

broadcast use vstd::array::group_array_axioms;

/// Signature and revision of the bytecode-carrying table.
pub const SSDT_SIGNATURE: u32 = 0x5444_5353;

pub const SSDT_REVISION: u8 = 0x2;

/// Signature and revision of the vendor data table.
pub const VENDOR_TABLE_SIGNATURE: u32 = 0x5442_5042;

pub const VENDOR_TABLE_REVISION: u8 = 2;

/// The magic value opening the vendor data table's payload.
pub const VENDOR_MAGIC: u64 = 0xfeeddead;

/// The placeholder constant embedded once in the bytecode template.
pub const AML_PLACEHOLDER: u32 = 0x11223344;

/// Serialized sizes, in bytes.
pub const AML_TEMPLATE_SIZE: usize = 63;

pub const SSDT_SIZE: usize = 99;

pub const PAYLOAD_SIZE: usize = 24;

pub const VENDOR_TABLE_SIZE: usize = 60;

/// The canonical precompiled bytecode template: a device description
/// whose memory resource descriptor holds the placeholder address.
pub open spec fn spec_aml_template() -> Seq<u8> {
    seq![
            0x10u8, 0x3e, 0x5c, 0x5f, 0x53, 0x42, 0x5f, 0x5b, 0x82, 0x36, 0x42, 0x50,
            0x42, 0x30, 0x08, 0x5f, 0x41, 0x44, 0x52, 0x00, 0x08, 0x5f, 0x55, 0x49,
            0x44, 0x01, 0x08, 0x5f, 0x48, 0x49, 0x44, 0x0d, 0x42, 0x50, 0x42, 0x30,
            0x30, 0x30, 0x31, 0x00, 0x08, 0x5f, 0x43, 0x52, 0x53, 0x11, 0x11, 0x0a,
            0x0e, 0x86, 0x09, 0x00, 0x01, 0x44, 0x33, 0x22, 0x11, 0x00, 0x10, 0x00,
            0x00, 0x79, 0x00,
    ]
}

/// A private copy of the canonical bytecode template.
pub fn aml_template() -> (r: Vec<u8>)
    ensures
        r@ == spec_aml_template(),
        r@.len() == AML_TEMPLATE_SIZE,
{
    let r: Vec<u8> = vec![
        0x10u8, 0x3e, 0x5c, 0x5f, 0x53, 0x42, 0x5f, 0x5b, 0x82, 0x36, 0x42, 0x50,
        0x42, 0x30, 0x08, 0x5f, 0x41, 0x44, 0x52, 0x00, 0x08, 0x5f, 0x55, 0x49,
        0x44, 0x01, 0x08, 0x5f, 0x48, 0x49, 0x44, 0x0d, 0x42, 0x50, 0x42, 0x30,
        0x30, 0x30, 0x31, 0x00, 0x08, 0x5f, 0x43, 0x52, 0x53, 0x11, 0x11, 0x0a,
        0x0e, 0x86, 0x09, 0x00, 0x01, 0x44, 0x33, 0x22, 0x11, 0x00, 0x10, 0x00,
        0x00, 0x79, 0x00,
    ];
    proof {
        assert(r@ =~= spec_aml_template());
    }
    r
}

/// The finished image of a table whose zero-checksum wire image is
/// `base`: the checksum byte carries the value that makes the image sum
/// to zero modulo 256.
pub open spec fn spec_checksummed(base: Seq<u8>) -> Seq<u8> {
    base.update(9, spec_checksum8(base))
}

/// Compute the checksum over a zero-checksum image and store it in the
/// header's checksum byte, making the whole image sum to zero modulo 256.
fn finalize_checksum(image: &mut Vec<u8>)
    requires
        old(image)@.len() >= DESCRIPTION_HEADER_SIZE,
        old(image)@[9] == 0,
    ensures
        final(image)@ == spec_checksummed(old(image)@),
        final(image)@.len() == old(image)@.len(),
        spec_sum(final(image)@) % 256 == 0,
{
    let ghost pre = image@;
    let c = checksum8(image);
    image.set(9, c);
    proof {
        lemma_checksummed_sums_zero(pre, 9);
    }
}

/// The vendor data table's payload record: a magic value, a physical
/// address and a length in bytes, published so that later consumers can
/// find the memory region.
#[derive(Clone, Copy, PartialEq, Eq, Structural, Debug)]
pub struct RegionPayload {
    pub magic: u64,
    pub physical_address: u64,
    pub length_bytes: u64,
}

impl RegionPayload {
    /// Wire image: 24 bytes, fields in order, little-endian.
    pub open spec fn spec_bytes(self) -> Seq<u8> {
        spec_u64_to_le_bytes(self.magic) + spec_u64_to_le_bytes(self.physical_address)
            + spec_u64_to_le_bytes(self.length_bytes)
    }

    /// Serialize the payload record into a fresh 24-byte buffer.
    pub fn to_bytes(&self) -> (r: Vec<u8>)
        ensures
            r@ == self.spec_bytes(),
            r@.len() == PAYLOAD_SIZE,
    {
        let mut buf = u64_to_le_bytes(self.magic);
        push_le64(&mut buf, self.physical_address);
        push_le64(&mut buf, self.length_bytes);
        proof {
            lemma_auto_spec_u64_to_from_le_bytes();
        }
        buf
    }
}

/// The vendor data table: a description header followed by the payload
/// record.
#[derive(Clone, Copy, PartialEq, Eq, Debug)]
pub struct VendorDataTable {
    pub header: DescriptionHeader,
    pub payload: RegionPayload,
}

impl VendorDataTable {
    /// Wire image: 60 bytes, header then payload.
    pub open spec fn spec_bytes(self) -> Seq<u8> {
        self.header.spec_bytes() + self.payload.spec_bytes()
    }

    /// The table `new` constructs: inherited vendor fields, the exact
    /// serialized size in the length field, a still-zero checksum, and
    /// the payload publishing the given region.
    pub open spec fn spec_new(oem: OemInfo, physical_address: u64, length_bytes: u64) -> VendorDataTable {
        VendorDataTable {
            header: DescriptionHeader {
                signature: VENDOR_TABLE_SIGNATURE,
                length: VENDOR_TABLE_SIZE as u32,
                revision: VENDOR_TABLE_REVISION,
                checksum: 0,
                oem_id: oem.oem_id,
                oem_table_id: oem.oem_table_id,
                oem_revision: oem.oem_revision,
                creator_id: 0,
                creator_revision: 0,
            },
            payload: RegionPayload {
                magic: VENDOR_MAGIC,
                physical_address,
                length_bytes,
            },
        }
    }

    /// Construct the vendor data table, checksum still zero.
    pub fn new(oem: &OemInfo, physical_address: u64, length_bytes: u64) -> (r: VendorDataTable)
        ensures
            r == VendorDataTable::spec_new(*oem, physical_address, length_bytes),
    {
        VendorDataTable {
            header: DescriptionHeader {
                signature: VENDOR_TABLE_SIGNATURE,
                length: VENDOR_TABLE_SIZE as u32,
                revision: VENDOR_TABLE_REVISION,
                checksum: 0,
                oem_id: oem.oem_id,
                oem_table_id: oem.oem_table_id,
                oem_revision: oem.oem_revision,
                creator_id: 0,
                creator_revision: 0,
            },
            payload: RegionPayload {
                magic: VENDOR_MAGIC,
                physical_address,
                length_bytes,
            },
        }
    }

    /// Serialize the table into a fresh 60-byte buffer.
    pub fn to_bytes(&self) -> (r: Vec<u8>)
        ensures
            r@ == self.spec_bytes(),
            r@.len() == VENDOR_TABLE_SIZE,
    {
        let mut buf = self.header.to_bytes();
        let mut p = self.payload.to_bytes();
        buf.append(&mut p);
        buf
    }
}

/// Build the finished vendor data table image: header fields inherited
/// from `oem`, payload publishing the region, length field equal to the
/// image's byte length, and the whole image summing to zero modulo 256.
pub fn build_vendor_table_image(oem: &OemInfo, physical_address: u64, length_bytes: u64) -> (r:
    Vec<u8>)
    ensures
        r@ == spec_checksummed(
            VendorDataTable::spec_new(*oem, physical_address, length_bytes).spec_bytes(),
        ),
        r@.len() == VENDOR_TABLE_SIZE,
        spec_sum(r@) % 256 == 0,
        spec_u32_from_le_bytes(r@.subrange(4, 8)) == r@.len(),
        r@.subrange(36, 60) == spec_u64_to_le_bytes(VENDOR_MAGIC) + spec_u64_to_le_bytes(
            physical_address,
        ) + spec_u64_to_le_bytes(length_bytes),
{
    let t = VendorDataTable::new(oem, physical_address, length_bytes);
    let mut image = t.to_bytes();
    proof {
        lemma_header_bytes(t.header);
        assert(image@[9] == 0);
    }
    finalize_checksum(&mut image);
    proof {
        lemma_header_bytes(t.header);
        lemma_auto_spec_u32_to_from_le_bytes();
        assert(image@.subrange(4, 8) =~= t.header.spec_bytes().subrange(4, 8));
        assert(image@.subrange(36, 60) =~= t.payload.spec_bytes());
    }
    image
}

/// Build the finished newer fixed description table image: all body
/// fields zero, header fields inherited from `oem`, length field equal
/// to the image's byte length, and the whole image summing to zero
/// modulo 256.
pub fn build_fadt3_image(oem: &OemInfo) -> (r: Vec<u8>)
    ensures
        r@ == spec_checksummed(FixedDescriptionTable3::spec_new(*oem).spec_bytes()),
        r@.len() == FADT3_SIZE,
        spec_sum(r@) % 256 == 0,
        spec_u32_from_le_bytes(r@.subrange(4, 8)) == r@.len(),
{
    let t = FixedDescriptionTable3::new(oem);
    let mut image = t.to_bytes();
    proof {
        lemma_header_bytes(t.header);
        assert(image@[9] == 0);
    }
    finalize_checksum(&mut image);
    proof {
        lemma_header_bytes(t.header);
        lemma_auto_spec_u32_to_from_le_bytes();
        assert(image@.subrange(4, 8) =~= t.header.spec_bytes().subrange(4, 8));
    }
    image
}

/// Build the finished older fixed description table image: all body
/// fields zero, header fields inherited from `oem`, length field equal
/// to the image's byte length, and the whole image summing to zero
/// modulo 256.
pub fn build_fadt1_image(oem: &OemInfo) -> (r: Vec<u8>)
    ensures
        r@ == spec_checksummed(FixedDescriptionTable1::spec_new(*oem).spec_bytes()),
        r@.len() == FADT1_SIZE,
        spec_sum(r@) % 256 == 0,
        spec_u32_from_le_bytes(r@.subrange(4, 8)) == r@.len(),
{
    let t = FixedDescriptionTable1::new(oem);
    let mut image = t.to_bytes();
    proof {
        lemma_header_bytes(t.header);
        assert(image@[9] == 0);
    }
    finalize_checksum(&mut image);
    proof {
        lemma_header_bytes(t.header);
        lemma_auto_spec_u32_to_from_le_bytes();
        assert(image@.subrange(4, 8) =~= t.header.spec_bytes().subrange(4, 8));
    }
    image
}

/// Build the finished bytecode-carrying table image: a private copy of
/// the canonical template with every placeholder window rewritten to the
/// given physical address, prefixed by a header whose vendor fields are
/// inherited from `oem`, the length field equal to the image's byte
/// length, and the whole image summing to zero modulo 256.
pub fn build_ssdt_image(oem: &OemInfo, phys_addr: u32) -> (r: Vec<u8>)
    ensures
        r@.len() == SSDT_SIZE,
        spec_sum(r@) % 256 == 0,
        spec_u32_from_le_bytes(r@.subrange(4, 8)) == r@.len(),
        r@.subrange(0, 4) == spec_u32_to_le_bytes(SSDT_SIGNATURE),
        r@[8] == SSDT_REVISION,
        r@.subrange(10, 16) == oem.oem_id@,
        r@.subrange(16, 24) == spec_u64_to_le_bytes(oem.oem_table_id),
        r@.subrange(24, 28) == spec_u32_to_le_bytes(oem.oem_revision),
        r@.subrange(28, 32) == spec_u32_to_le_bytes(0),
        r@.subrange(32, 36) == spec_u32_to_le_bytes(0),
        r@.subrange(36, 99) == spec_patch(spec_aml_template(), AML_PLACEHOLDER, phys_addr),
{
    let mut aml = aml_template();
    patch_dword(&mut aml, AML_PLACEHOLDER, phys_addr);
    let header = DescriptionHeader {
        signature: SSDT_SIGNATURE,
        length: SSDT_SIZE as u32,
        revision: SSDT_REVISION,
        checksum: 0,
        oem_id: oem.oem_id,
        oem_table_id: oem.oem_table_id,
        oem_revision: oem.oem_revision,
        creator_id: 0,
        creator_revision: 0,
    };
    let mut image = header.to_bytes();
    push_bytes(&mut image, &aml);
    proof {
        lemma_header_bytes(header);
        lemma_patch_preserves_len(spec_aml_template(), AML_PLACEHOLDER, phys_addr);
        assert(image@[9] == 0);
    }
    finalize_checksum(&mut image);
    proof {
        lemma_header_bytes(header);
        lemma_auto_spec_u32_to_from_le_bytes();
        assert(image@.subrange(0, 4) =~= header.spec_bytes().subrange(0, 4));
        assert(image@.subrange(4, 8) =~= header.spec_bytes().subrange(4, 8));
        assert(image@.subrange(10, 16) =~= header.spec_bytes().subrange(10, 16));
        assert(image@.subrange(16, 24) =~= header.spec_bytes().subrange(16, 24));
        assert(image@.subrange(24, 28) =~= header.spec_bytes().subrange(24, 28));
        assert(image@.subrange(28, 32) =~= header.spec_bytes().subrange(28, 32));
        assert(image@.subrange(32, 36) =~= header.spec_bytes().subrange(32, 36));
        assert(image@.subrange(36, 99) =~= spec_patch(spec_aml_template(), AML_PLACEHOLDER, phys_addr));
    }
    image
}

} // verus!
