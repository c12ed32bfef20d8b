//! The binary layout catalog: packed, fixed-offset definitions of every
//! table shape the library emits or reads, together with bounds-checked
//! serialize and parse functions over byte buffers.
//!
//! Each structure's `spec_bytes` is its authoritative wire image: the
//! concatenation of its fields in declaration order, little-endian, with
//! no implicit padding.

use vstd::prelude::*;
use vstd::bytes::*;
use crate::codec::push_byte;
use crate::codec::push_bytes6;
use crate::codec::push_le16;
use crate::codec::push_le32;
use crate::codec::push_le64;
use crate::codec::read_bytes6;
use crate::codec::read_le32;
use crate::codec::read_le64;

verus! {

broadcast use vstd::array::group_array_axioms;

pub const ACPI_1_FADT_SIGNATURE: u32 = 0x50434146;

pub const ACPI_1_FADT_REVISION: u8 = 0x01;

pub const ACPI_3_FADT_SIGNATURE: u32 = 0x50434146;

pub const ACPI_3_FADT_REVISION: u8 = 0x04;

/// Root pointer structure revisions.
pub const ACPI_1_RSDP_REVISION: u8 = 0x01;

pub const ACPI_2_RSDP_REVISION: u8 = 0x02;

/// Generic address space address IDs.
pub const ACPI_3_SYSTEM_MEMORY: u8 = 0x0;

pub const ACPI_3_SYSTEM_IO: u8 = 0x1;

pub const ACPI_3_PCI_CONFIGURATION_SPACE: u8 = 0x2;

pub const ACPI_3_EMBEDDED_CONTROLLER: u8 = 0x3;

pub const ACPI_3_SMBUS: u8 = 0x4;

pub const ACPI_3_FUNCTIONAL_FIXED_HARDWARE: u8 = 0x7f;

/// Serialized sizes, in bytes.
pub const DESCRIPTION_HEADER_SIZE: usize = 36;

pub const RSDP_SIZE: usize = 36;

pub const GAS_SIZE: usize = 12;

pub const FADT1_SIZE: usize = 116;

pub const FADT3_SIZE: usize = 244;

/// The common description table header prefacing every table.
#[derive(Clone, Copy, PartialEq, Eq, Debug)]
pub struct DescriptionHeader {
    pub signature: u32,
    pub length: u32,
    pub revision: u8,
    pub checksum: u8,
    pub oem_id: [u8; 6],
    pub oem_table_id: u64,
    pub oem_revision: u32,
    pub creator_id: u32,
    pub creator_revision: u32,
}

/// The header fields a newly built table inherits from the platform's
/// existing table set.
#[derive(Clone, Copy, PartialEq, Eq, Debug)]
pub struct OemInfo {
    pub oem_id: [u8; 6],
    pub oem_table_id: u64,
    pub oem_revision: u32,
}

impl DescriptionHeader {
    /// Wire image: 36 bytes, fields in order, little-endian.
    pub open spec fn spec_bytes(self) -> Seq<u8> {
        spec_u32_to_le_bytes(self.signature) + spec_u32_to_le_bytes(self.length)
            + seq![self.revision] + seq![self.checksum] + self.oem_id@ + spec_u64_to_le_bytes(
            self.oem_table_id,
        ) + spec_u32_to_le_bytes(self.oem_revision) + spec_u32_to_le_bytes(self.creator_id)
            + spec_u32_to_le_bytes(self.creator_revision)
    }

    /// Serialize the header into a fresh 36-byte buffer.
    pub fn to_bytes(&self) -> (r: Vec<u8>)
        ensures
            r@ == self.spec_bytes(),
            r@.len() == DESCRIPTION_HEADER_SIZE,
    {
        let mut buf = u32_to_le_bytes(self.signature);
        push_le32(&mut buf, self.length);
        push_byte(&mut buf, self.revision);
        push_byte(&mut buf, self.checksum);
        push_bytes6(&mut buf, &self.oem_id);
        push_le64(&mut buf, self.oem_table_id);
        push_le32(&mut buf, self.oem_revision);
        push_le32(&mut buf, self.creator_id);
        push_le32(&mut buf, self.creator_revision);
        proof {
            lemma_auto_spec_u32_to_from_le_bytes();
            lemma_auto_spec_u64_to_from_le_bytes();
        }
        buf
    }

    /// Parse the 36-byte header at the front of a buffer.  The parsed
    /// value re-serializes to exactly the bytes it was read from.
    pub fn parse(buf: &Vec<u8>) -> (r: DescriptionHeader)
        requires
            buf@.len() >= DESCRIPTION_HEADER_SIZE,
        ensures
            r.spec_bytes() == buf@.subrange(0, DESCRIPTION_HEADER_SIZE as int),
    {
        let r = DescriptionHeader {
            signature: read_le32(buf, 0),
            length: read_le32(buf, 4),
            revision: buf[8],
            checksum: buf[9],
            oem_id: read_bytes6(buf, 10),
            oem_table_id: read_le64(buf, 16),
            oem_revision: read_le32(buf, 24),
            creator_id: read_le32(buf, 28),
            creator_revision: read_le32(buf, 32),
        };
        proof {
            lemma_auto_spec_u32_to_from_le_bytes();
            lemma_auto_spec_u64_to_from_le_bytes();
            assert(r.spec_bytes() =~= buf@.subrange(0, DESCRIPTION_HEADER_SIZE as int));
        }
        r
    }

    /// The inheritable vendor fields of this header.
    pub fn oem_info(&self) -> (r: OemInfo)
        ensures
            r.oem_id == self.oem_id,
            r.oem_table_id == self.oem_table_id,
            r.oem_revision == self.oem_revision,
    {
        OemInfo { oem_id: self.oem_id, oem_table_id: self.oem_table_id, oem_revision: self.oem_revision }
    }
}

/// Where each header field lands inside the 36-byte wire image.
pub proof fn lemma_header_bytes(h: DescriptionHeader)
    ensures
        h.spec_bytes().len() == DESCRIPTION_HEADER_SIZE,
        h.spec_bytes().subrange(0, 4) == spec_u32_to_le_bytes(h.signature),
        h.spec_bytes().subrange(4, 8) == spec_u32_to_le_bytes(h.length),
        h.spec_bytes()[8] == h.revision,
        h.spec_bytes()[9] == h.checksum,
        h.spec_bytes().subrange(10, 16) == h.oem_id@,
        h.spec_bytes().subrange(16, 24) == spec_u64_to_le_bytes(h.oem_table_id),
        h.spec_bytes().subrange(24, 28) == spec_u32_to_le_bytes(h.oem_revision),
        h.spec_bytes().subrange(28, 32) == spec_u32_to_le_bytes(h.creator_id),
        h.spec_bytes().subrange(32, 36) == spec_u32_to_le_bytes(h.creator_revision),
{
    lemma_auto_spec_u32_to_from_le_bytes();
    lemma_auto_spec_u64_to_from_le_bytes();
    assert(h.spec_bytes().subrange(0, 4) =~= spec_u32_to_le_bytes(h.signature));
    assert(h.spec_bytes().subrange(4, 8) =~= spec_u32_to_le_bytes(h.length));
    assert(h.spec_bytes().subrange(10, 16) =~= h.oem_id@);
    assert(h.spec_bytes().subrange(16, 24) =~= spec_u64_to_le_bytes(h.oem_table_id));
    assert(h.spec_bytes().subrange(24, 28) =~= spec_u32_to_le_bytes(h.oem_revision));
    assert(h.spec_bytes().subrange(28, 32) =~= spec_u32_to_le_bytes(h.creator_id));
    assert(h.spec_bytes().subrange(32, 36) =~= spec_u32_to_le_bytes(h.creator_revision));
}

/// The firmware-supplied root pointer structure.  Read-only: this system
/// consumes it and never constructs one.
#[derive(Clone, Copy, PartialEq, Eq, Debug)]
pub struct RootSystemDescriptionPointer3 {
    pub signature: u64,
    pub checksum: u8,
    pub oem_id: [u8; 6],
    pub revision: u8,
    pub rsdt_address: u32,
    pub length: u32,
    pub xsdt_address: u64,
    pub extended_checksum: u8,
    pub reserved: [u8; 3],
}

impl RootSystemDescriptionPointer3 {
    /// Wire image: 36 bytes, fields in order, little-endian.
    pub open spec fn spec_bytes(self) -> Seq<u8> {
        spec_u64_to_le_bytes(self.signature) + seq![self.checksum] + self.oem_id@
            + seq![self.revision] + spec_u32_to_le_bytes(self.rsdt_address) + spec_u32_to_le_bytes(
            self.length,
        ) + spec_u64_to_le_bytes(self.xsdt_address) + seq![self.extended_checksum]
            + self.reserved@
    }

    /// Parse the 36-byte root pointer at the front of a buffer.  The
    /// parsed value re-serializes to exactly the bytes it was read from.
    pub fn parse(buf: &Vec<u8>) -> (r: RootSystemDescriptionPointer3)
        requires
            buf@.len() >= RSDP_SIZE,
        ensures
            r.spec_bytes() == buf@.subrange(0, RSDP_SIZE as int),
    {
        let reserved: [u8; 3] = [buf[33], buf[34], buf[35]];
        let r = RootSystemDescriptionPointer3 {
            signature: read_le64(buf, 0),
            checksum: buf[8],
            oem_id: read_bytes6(buf, 9),
            revision: buf[15],
            rsdt_address: read_le32(buf, 16),
            length: read_le32(buf, 20),
            xsdt_address: read_le64(buf, 24),
            extended_checksum: buf[32],
            reserved,
        };
        proof {
            lemma_auto_spec_u32_to_from_le_bytes();
            lemma_auto_spec_u64_to_from_le_bytes();
            assert(r.spec_bytes() =~= buf@.subrange(0, RSDP_SIZE as int));
        }
        r
    }
}

/// A 12-byte descriptor of a hardware register block; zero-valued when a
/// register block is unsupported.
#[derive(Clone, Copy, PartialEq, Eq, Structural, Debug)]
pub struct GenericAddressSpace {
    pub address_space_id: u8,
    pub register_bit_width: u8,
    pub register_bit_offset: u8,
    pub access_size: u8,
    pub address: u64,
}

impl GenericAddressSpace {
    /// A zero-valued descriptor: no register block.
    pub fn new() -> (r: GenericAddressSpace)
        ensures
            r == (GenericAddressSpace {
                address_space_id: 0,
                register_bit_width: 0,
                register_bit_offset: 0,
                access_size: 0,
                address: 0,
            }),
    {
        GenericAddressSpace {
            address_space_id: 0,
            register_bit_width: 0,
            register_bit_offset: 0,
            access_size: 0,
            address: 0,
        }
    }

    /// The zero-valued descriptor, as a specification value.
    pub open spec fn spec_zero() -> GenericAddressSpace {
        GenericAddressSpace {
            address_space_id: 0,
            register_bit_width: 0,
            register_bit_offset: 0,
            access_size: 0,
            address: 0,
        }
    }

    /// Wire image: 12 bytes, fields in order, little-endian.
    pub open spec fn spec_bytes(self) -> Seq<u8> {
        seq![
            self.address_space_id,
            self.register_bit_width,
            self.register_bit_offset,
            self.access_size,
        ] + spec_u64_to_le_bytes(self.address)
    }

    /// Serialize the descriptor into a fresh 12-byte buffer.
    pub fn to_bytes(&self) -> (r: Vec<u8>)
        ensures
            r@ == self.spec_bytes(),
            r@.len() == GAS_SIZE,
    {
        let mut buf: Vec<u8> = Vec::new();
        push_byte(&mut buf, self.address_space_id);
        push_byte(&mut buf, self.register_bit_width);
        push_byte(&mut buf, self.register_bit_offset);
        push_byte(&mut buf, self.access_size);
        proof {
            assert(buf@ =~= seq![
                self.address_space_id,
                self.register_bit_width,
                self.register_bit_offset,
                self.access_size,
            ]);
        }
        push_le64(&mut buf, self.address);
        proof {
            lemma_auto_spec_u64_to_from_le_bytes();
        }
        buf
    }
}

/// The newer fixed description table variant: a complete, independently-serialized 244-byte layout.
#[derive(Clone, Copy, PartialEq, Eq, Debug)]
pub struct FixedDescriptionTable3 {
    pub header: DescriptionHeader,
    pub firmware_ctrl: u32,
    pub dsdt: u32,
    pub reserved0: u8,
    pub preferred_pm_profile: u8,
    pub sci_int: u16,
    pub smi_cmd: u32,
    pub acpi_enable: u8,
    pub acpi_disable: u8,
    pub s4_bios_req: u8,
    pub pstate_cnt: u8,
    pub pm1a_evt_blk: u32,
    pub pm1b_evt_blk: u32,
    pub pm1a_cnt_blk: u32,
    pub pm1b_cnt_blk: u32,
    pub pm2_cnt_blk: u32,
    pub pm_tmr_blk: u32,
    pub gpe0_blk: u32,
    pub gpe1_blk: u32,
    pub pm1_evt_len: u8,
    pub pm1_cnt_len: u8,
    pub pm2_cnt_len: u8,
    pub pm_tm_len: u8,
    pub gpe0_blk_len: u8,
    pub gpe1_blk_len: u8,
    pub gpe1_base: u8,
    pub cst_cnt: u8,
    pub p_lvl2_lat: u16,
    pub p_lvl3_lat: u16,
    pub flush_size: u16,
    pub flush_stride: u16,
    pub duty_offset: u8,
    pub duty_width: u8,
    pub day_alrm: u8,
    pub mon_alrm: u8,
    pub century: u8,
    pub iapc_boot_arch: u16,
    pub reserved1: u8,
    pub flags: u32,
    pub reset_reg: GenericAddressSpace,
    pub reset_value: u8,
    pub reserved2: u8,
    pub reserved3: u8,
    pub reserved4: u8,
    pub x_firmware_ctrl: u64,
    pub x_dsdt: u64,
    pub x_pm1a_evt_blk: GenericAddressSpace,
    pub x_pm1b_evt_blk: GenericAddressSpace,
    pub x_pm1a_cnt_blk: GenericAddressSpace,
    pub x_pm1b_cnt_blk: GenericAddressSpace,
    pub x_pm2_cnt_blk: GenericAddressSpace,
    pub x_pm_tmr_blk: GenericAddressSpace,
    pub x_gpe0_blk: GenericAddressSpace,
    pub x_gpe1_blk: GenericAddressSpace,
}

impl FixedDescriptionTable3 {
    /// Wire image: 244 bytes, fields in order, little-endian.
    pub open spec fn spec_bytes(self) -> Seq<u8> {
        self.header.spec_bytes() + spec_u32_to_le_bytes(self.firmware_ctrl) + spec_u32_to_le_bytes(self.dsdt) + seq![self.reserved0] + seq![self.preferred_pm_profile] + spec_u16_to_le_bytes(self.sci_int) + spec_u32_to_le_bytes(self.smi_cmd) + seq![self.acpi_enable] + seq![self.acpi_disable] + seq![self.s4_bios_req] + seq![self.pstate_cnt] + spec_u32_to_le_bytes(self.pm1a_evt_blk) + spec_u32_to_le_bytes(self.pm1b_evt_blk) + spec_u32_to_le_bytes(self.pm1a_cnt_blk) + spec_u32_to_le_bytes(self.pm1b_cnt_blk) + spec_u32_to_le_bytes(self.pm2_cnt_blk) + spec_u32_to_le_bytes(self.pm_tmr_blk) + spec_u32_to_le_bytes(self.gpe0_blk) + spec_u32_to_le_bytes(self.gpe1_blk) + seq![self.pm1_evt_len] + seq![self.pm1_cnt_len] + seq![self.pm2_cnt_len] + seq![self.pm_tm_len] + seq![self.gpe0_blk_len] + seq![self.gpe1_blk_len] + seq![self.gpe1_base] + seq![self.cst_cnt] + spec_u16_to_le_bytes(self.p_lvl2_lat) + spec_u16_to_le_bytes(self.p_lvl3_lat) + spec_u16_to_le_bytes(self.flush_size) + spec_u16_to_le_bytes(self.flush_stride) + seq![self.duty_offset] + seq![self.duty_width] + seq![self.day_alrm] + seq![self.mon_alrm] + seq![self.century] + spec_u16_to_le_bytes(self.iapc_boot_arch) + seq![self.reserved1] + spec_u32_to_le_bytes(self.flags) + self.reset_reg.spec_bytes() + seq![self.reset_value] + seq![self.reserved2] + seq![self.reserved3] + seq![self.reserved4] + spec_u64_to_le_bytes(self.x_firmware_ctrl) + spec_u64_to_le_bytes(self.x_dsdt) + self.x_pm1a_evt_blk.spec_bytes() + self.x_pm1b_evt_blk.spec_bytes() + self.x_pm1a_cnt_blk.spec_bytes() + self.x_pm1b_cnt_blk.spec_bytes() + self.x_pm2_cnt_blk.spec_bytes() + self.x_pm_tmr_blk.spec_bytes() + self.x_gpe0_blk.spec_bytes() + self.x_gpe1_blk.spec_bytes()
    }

    /// A fully zeroed table carrying the inherited vendor fields:
    /// every reserved and body field is zero, the length field is the
    /// exact serialized size, and the checksum field is still zero.
    pub fn new(oem: &OemInfo) -> (r: FixedDescriptionTable3)
        ensures
            r == FixedDescriptionTable3::spec_new(*oem),
    {
        FixedDescriptionTable3 {
            header: DescriptionHeader {
                signature: ACPI_3_FADT_SIGNATURE,
                length: FADT3_SIZE as u32,
                revision: ACPI_3_FADT_REVISION,
                checksum: 0,
                oem_id: oem.oem_id,
                oem_table_id: oem.oem_table_id,
                oem_revision: oem.oem_revision,
                creator_id: 0,
                creator_revision: 0,
            },
            firmware_ctrl: 0,
            dsdt: 0,
            reserved0: 0,
            preferred_pm_profile: 0,
            sci_int: 0,
            smi_cmd: 0,
            acpi_enable: 0,
            acpi_disable: 0,
            s4_bios_req: 0,
            pstate_cnt: 0,
            pm1a_evt_blk: 0,
            pm1b_evt_blk: 0,
            pm1a_cnt_blk: 0,
            pm1b_cnt_blk: 0,
            pm2_cnt_blk: 0,
            pm_tmr_blk: 0,
            gpe0_blk: 0,
            gpe1_blk: 0,
            pm1_evt_len: 0,
            pm1_cnt_len: 0,
            pm2_cnt_len: 0,
            pm_tm_len: 0,
            gpe0_blk_len: 0,
            gpe1_blk_len: 0,
            gpe1_base: 0,
            cst_cnt: 0,
            p_lvl2_lat: 0,
            p_lvl3_lat: 0,
            flush_size: 0,
            flush_stride: 0,
            duty_offset: 0,
            duty_width: 0,
            day_alrm: 0,
            mon_alrm: 0,
            century: 0,
            iapc_boot_arch: 0,
            reserved1: 0,
            flags: 0,
            reset_reg: GenericAddressSpace::new(),
            reset_value: 0,
            reserved2: 0,
            reserved3: 0,
            reserved4: 0,
            x_firmware_ctrl: 0,
            x_dsdt: 0,
            x_pm1a_evt_blk: GenericAddressSpace::new(),
            x_pm1b_evt_blk: GenericAddressSpace::new(),
            x_pm1a_cnt_blk: GenericAddressSpace::new(),
            x_pm1b_cnt_blk: GenericAddressSpace::new(),
            x_pm2_cnt_blk: GenericAddressSpace::new(),
            x_pm_tmr_blk: GenericAddressSpace::new(),
            x_gpe0_blk: GenericAddressSpace::new(),
            x_gpe1_blk: GenericAddressSpace::new(),
        }
    }

    /// The value `new` constructs.
    pub open spec fn spec_new(oem: OemInfo) -> FixedDescriptionTable3 {
        FixedDescriptionTable3 {
            header: DescriptionHeader {
                signature: ACPI_3_FADT_SIGNATURE,
                length: FADT3_SIZE as u32,
                revision: ACPI_3_FADT_REVISION,
                checksum: 0,
                oem_id: oem.oem_id,
                oem_table_id: oem.oem_table_id,
                oem_revision: oem.oem_revision,
                creator_id: 0,
                creator_revision: 0,
            },
            firmware_ctrl: 0,
            dsdt: 0,
            reserved0: 0,
            preferred_pm_profile: 0,
            sci_int: 0,
            smi_cmd: 0,
            acpi_enable: 0,
            acpi_disable: 0,
            s4_bios_req: 0,
            pstate_cnt: 0,
            pm1a_evt_blk: 0,
            pm1b_evt_blk: 0,
            pm1a_cnt_blk: 0,
            pm1b_cnt_blk: 0,
            pm2_cnt_blk: 0,
            pm_tmr_blk: 0,
            gpe0_blk: 0,
            gpe1_blk: 0,
            pm1_evt_len: 0,
            pm1_cnt_len: 0,
            pm2_cnt_len: 0,
            pm_tm_len: 0,
            gpe0_blk_len: 0,
            gpe1_blk_len: 0,
            gpe1_base: 0,
            cst_cnt: 0,
            p_lvl2_lat: 0,
            p_lvl3_lat: 0,
            flush_size: 0,
            flush_stride: 0,
            duty_offset: 0,
            duty_width: 0,
            day_alrm: 0,
            mon_alrm: 0,
            century: 0,
            iapc_boot_arch: 0,
            reserved1: 0,
            flags: 0,
            reset_reg: GenericAddressSpace::spec_zero(),
            reset_value: 0,
            reserved2: 0,
            reserved3: 0,
            reserved4: 0,
            x_firmware_ctrl: 0,
            x_dsdt: 0,
            x_pm1a_evt_blk: GenericAddressSpace::spec_zero(),
            x_pm1b_evt_blk: GenericAddressSpace::spec_zero(),
            x_pm1a_cnt_blk: GenericAddressSpace::spec_zero(),
            x_pm1b_cnt_blk: GenericAddressSpace::spec_zero(),
            x_pm2_cnt_blk: GenericAddressSpace::spec_zero(),
            x_pm_tmr_blk: GenericAddressSpace::spec_zero(),
            x_gpe0_blk: GenericAddressSpace::spec_zero(),
            x_gpe1_blk: GenericAddressSpace::spec_zero(),
        }
    }

    /// Serialize the table into a fresh 244-byte buffer.
    pub fn to_bytes(&self) -> (r: Vec<u8>)
        ensures
            r@ == self.spec_bytes(),
            r@.len() == FADT3_SIZE,
    {
        let mut buf = self.header.to_bytes();
        push_le32(&mut buf, self.firmware_ctrl);
        push_le32(&mut buf, self.dsdt);
        push_byte(&mut buf, self.reserved0);
        push_byte(&mut buf, self.preferred_pm_profile);
        push_le16(&mut buf, self.sci_int);
        push_le32(&mut buf, self.smi_cmd);
        push_byte(&mut buf, self.acpi_enable);
        push_byte(&mut buf, self.acpi_disable);
        push_byte(&mut buf, self.s4_bios_req);
        push_byte(&mut buf, self.pstate_cnt);
        push_le32(&mut buf, self.pm1a_evt_blk);
        push_le32(&mut buf, self.pm1b_evt_blk);
        push_le32(&mut buf, self.pm1a_cnt_blk);
        push_le32(&mut buf, self.pm1b_cnt_blk);
        push_le32(&mut buf, self.pm2_cnt_blk);
        push_le32(&mut buf, self.pm_tmr_blk);
        push_le32(&mut buf, self.gpe0_blk);
        push_le32(&mut buf, self.gpe1_blk);
        push_byte(&mut buf, self.pm1_evt_len);
        push_byte(&mut buf, self.pm1_cnt_len);
        push_byte(&mut buf, self.pm2_cnt_len);
        push_byte(&mut buf, self.pm_tm_len);
        push_byte(&mut buf, self.gpe0_blk_len);
        push_byte(&mut buf, self.gpe1_blk_len);
        push_byte(&mut buf, self.gpe1_base);
        push_byte(&mut buf, self.cst_cnt);
        push_le16(&mut buf, self.p_lvl2_lat);
        push_le16(&mut buf, self.p_lvl3_lat);
        push_le16(&mut buf, self.flush_size);
        push_le16(&mut buf, self.flush_stride);
        push_byte(&mut buf, self.duty_offset);
        push_byte(&mut buf, self.duty_width);
        push_byte(&mut buf, self.day_alrm);
        push_byte(&mut buf, self.mon_alrm);
        push_byte(&mut buf, self.century);
        push_le16(&mut buf, self.iapc_boot_arch);
        push_byte(&mut buf, self.reserved1);
        push_le32(&mut buf, self.flags);
        let mut g0 = self.reset_reg.to_bytes();
        buf.append(&mut g0);
        push_byte(&mut buf, self.reset_value);
        push_byte(&mut buf, self.reserved2);
        push_byte(&mut buf, self.reserved3);
        push_byte(&mut buf, self.reserved4);
        push_le64(&mut buf, self.x_firmware_ctrl);
        push_le64(&mut buf, self.x_dsdt);
        let mut g1 = self.x_pm1a_evt_blk.to_bytes();
        buf.append(&mut g1);
        let mut g2 = self.x_pm1b_evt_blk.to_bytes();
        buf.append(&mut g2);
        let mut g3 = self.x_pm1a_cnt_blk.to_bytes();
        buf.append(&mut g3);
        let mut g4 = self.x_pm1b_cnt_blk.to_bytes();
        buf.append(&mut g4);
        let mut g5 = self.x_pm2_cnt_blk.to_bytes();
        buf.append(&mut g5);
        let mut g6 = self.x_pm_tmr_blk.to_bytes();
        buf.append(&mut g6);
        let mut g7 = self.x_gpe0_blk.to_bytes();
        buf.append(&mut g7);
        let mut g8 = self.x_gpe1_blk.to_bytes();
        buf.append(&mut g8);
        proof {
            lemma_auto_spec_u16_to_from_le_bytes();
            lemma_auto_spec_u32_to_from_le_bytes();
            lemma_auto_spec_u64_to_from_le_bytes();
        }
        buf
    }
}

/// The older fixed description table variant: a complete, independently-serialized 116-byte layout.
#[derive(Clone, Copy, PartialEq, Eq, Debug)]
pub struct FixedDescriptionTable1 {
    pub header: DescriptionHeader,
    pub firmware_ctrl: u32,
    pub dsdt: u32,
    pub int_model: u8,
    pub reserved0: u8,
    pub sci_int: u16,
    pub smi_cmd: u32,
    pub acpi_enable: u8,
    pub acpi_disable: u8,
    pub s4_bios_req: u8,
    pub reserved1: u8,
    pub pm1a_evt_blk: u32,
    pub pm1b_evt_blk: u32,
    pub pm1a_cnt_blk: u32,
    pub pm1b_cnt_blk: u32,
    pub pm2_cnt_blk: u32,
    pub pm_tmr_blk: u32,
    pub gpe0_blk: u32,
    pub gpe1_blk: u32,
    pub pm1_evt_len: u8,
    pub pm1_cnt_len: u8,
    pub pm2_cnt_len: u8,
    pub pm_tm_len: u8,
    pub gpe0_blk_len: u8,
    pub gpe1_blk_len: u8,
    pub gpe1_base: u8,
    pub reserved2: u8,
    pub p_lvl2_lat: u16,
    pub p_lvl3_lat: u16,
    pub flush_size: u16,
    pub flush_stride: u16,
    pub duty_offset: u8,
    pub duty_width: u8,
    pub day_alrm: u8,
    pub mon_alrm: u8,
    pub century: u8,
    pub reserved3: u8,
    pub reserved4: u8,
    pub reserved5: u8,
    pub flags: u32,
}

impl FixedDescriptionTable1 {
    /// Wire image: 116 bytes, fields in order, little-endian.
    pub open spec fn spec_bytes(self) -> Seq<u8> {
        self.header.spec_bytes() + spec_u32_to_le_bytes(self.firmware_ctrl) + spec_u32_to_le_bytes(self.dsdt) + seq![self.int_model] + seq![self.reserved0] + spec_u16_to_le_bytes(self.sci_int) + spec_u32_to_le_bytes(self.smi_cmd) + seq![self.acpi_enable] + seq![self.acpi_disable] + seq![self.s4_bios_req] + seq![self.reserved1] + spec_u32_to_le_bytes(self.pm1a_evt_blk) + spec_u32_to_le_bytes(self.pm1b_evt_blk) + spec_u32_to_le_bytes(self.pm1a_cnt_blk) + spec_u32_to_le_bytes(self.pm1b_cnt_blk) + spec_u32_to_le_bytes(self.pm2_cnt_blk) + spec_u32_to_le_bytes(self.pm_tmr_blk) + spec_u32_to_le_bytes(self.gpe0_blk) + spec_u32_to_le_bytes(self.gpe1_blk) + seq![self.pm1_evt_len] + seq![self.pm1_cnt_len] + seq![self.pm2_cnt_len] + seq![self.pm_tm_len] + seq![self.gpe0_blk_len] + seq![self.gpe1_blk_len] + seq![self.gpe1_base] + seq![self.reserved2] + spec_u16_to_le_bytes(self.p_lvl2_lat) + spec_u16_to_le_bytes(self.p_lvl3_lat) + spec_u16_to_le_bytes(self.flush_size) + spec_u16_to_le_bytes(self.flush_stride) + seq![self.duty_offset] + seq![self.duty_width] + seq![self.day_alrm] + seq![self.mon_alrm] + seq![self.century] + seq![self.reserved3] + seq![self.reserved4] + seq![self.reserved5] + spec_u32_to_le_bytes(self.flags)
    }

    /// A fully zeroed table carrying the inherited vendor fields:
    /// every reserved and body field is zero, the length field is the
    /// exact serialized size, and the checksum field is still zero.
    pub fn new(oem: &OemInfo) -> (r: FixedDescriptionTable1)
        ensures
            r == FixedDescriptionTable1::spec_new(*oem),
    {
        FixedDescriptionTable1 {
            header: DescriptionHeader {
                signature: ACPI_1_FADT_SIGNATURE,
                length: FADT1_SIZE as u32,
                revision: ACPI_1_FADT_REVISION,
                checksum: 0,
                oem_id: oem.oem_id,
                oem_table_id: oem.oem_table_id,
                oem_revision: oem.oem_revision,
                creator_id: 0,
                creator_revision: 0,
            },
            firmware_ctrl: 0,
            dsdt: 0,
            int_model: 0,
            reserved0: 0,
            sci_int: 0,
            smi_cmd: 0,
            acpi_enable: 0,
            acpi_disable: 0,
            s4_bios_req: 0,
            reserved1: 0,
            pm1a_evt_blk: 0,
            pm1b_evt_blk: 0,
            pm1a_cnt_blk: 0,
            pm1b_cnt_blk: 0,
            pm2_cnt_blk: 0,
            pm_tmr_blk: 0,
            gpe0_blk: 0,
            gpe1_blk: 0,
            pm1_evt_len: 0,
            pm1_cnt_len: 0,
            pm2_cnt_len: 0,
            pm_tm_len: 0,
            gpe0_blk_len: 0,
            gpe1_blk_len: 0,
            gpe1_base: 0,
            reserved2: 0,
            p_lvl2_lat: 0,
            p_lvl3_lat: 0,
            flush_size: 0,
            flush_stride: 0,
            duty_offset: 0,
            duty_width: 0,
            day_alrm: 0,
            mon_alrm: 0,
            century: 0,
            reserved3: 0,
            reserved4: 0,
            reserved5: 0,
            flags: 0,
        }
    }

    /// The value `new` constructs.
    pub open spec fn spec_new(oem: OemInfo) -> FixedDescriptionTable1 {
        FixedDescriptionTable1 {
            header: DescriptionHeader {
                signature: ACPI_1_FADT_SIGNATURE,
                length: FADT1_SIZE as u32,
                revision: ACPI_1_FADT_REVISION,
                checksum: 0,
                oem_id: oem.oem_id,
                oem_table_id: oem.oem_table_id,
                oem_revision: oem.oem_revision,
                creator_id: 0,
                creator_revision: 0,
            },
            firmware_ctrl: 0,
            dsdt: 0,
            int_model: 0,
            reserved0: 0,
            sci_int: 0,
            smi_cmd: 0,
            acpi_enable: 0,
            acpi_disable: 0,
            s4_bios_req: 0,
            reserved1: 0,
            pm1a_evt_blk: 0,
            pm1b_evt_blk: 0,
            pm1a_cnt_blk: 0,
            pm1b_cnt_blk: 0,
            pm2_cnt_blk: 0,
            pm_tmr_blk: 0,
            gpe0_blk: 0,
            gpe1_blk: 0,
            pm1_evt_len: 0,
            pm1_cnt_len: 0,
            pm2_cnt_len: 0,
            pm_tm_len: 0,
            gpe0_blk_len: 0,
            gpe1_blk_len: 0,
            gpe1_base: 0,
            reserved2: 0,
            p_lvl2_lat: 0,
            p_lvl3_lat: 0,
            flush_size: 0,
            flush_stride: 0,
            duty_offset: 0,
            duty_width: 0,
            day_alrm: 0,
            mon_alrm: 0,
            century: 0,
            reserved3: 0,
            reserved4: 0,
            reserved5: 0,
            flags: 0,
        }
    }

    /// Serialize the table into a fresh 116-byte buffer.
    pub fn to_bytes(&self) -> (r: Vec<u8>)
        ensures
            r@ == self.spec_bytes(),
            r@.len() == FADT1_SIZE,
    {
        let mut buf = self.header.to_bytes();
        push_le32(&mut buf, self.firmware_ctrl);
        push_le32(&mut buf, self.dsdt);
        push_byte(&mut buf, self.int_model);
        push_byte(&mut buf, self.reserved0);
        push_le16(&mut buf, self.sci_int);
        push_le32(&mut buf, self.smi_cmd);
        push_byte(&mut buf, self.acpi_enable);
        push_byte(&mut buf, self.acpi_disable);
        push_byte(&mut buf, self.s4_bios_req);
        push_byte(&mut buf, self.reserved1);
        push_le32(&mut buf, self.pm1a_evt_blk);
        push_le32(&mut buf, self.pm1b_evt_blk);
        push_le32(&mut buf, self.pm1a_cnt_blk);
        push_le32(&mut buf, self.pm1b_cnt_blk);
        push_le32(&mut buf, self.pm2_cnt_blk);
        push_le32(&mut buf, self.pm_tmr_blk);
        push_le32(&mut buf, self.gpe0_blk);
        push_le32(&mut buf, self.gpe1_blk);
        push_byte(&mut buf, self.pm1_evt_len);
        push_byte(&mut buf, self.pm1_cnt_len);
        push_byte(&mut buf, self.pm2_cnt_len);
        push_byte(&mut buf, self.pm_tm_len);
        push_byte(&mut buf, self.gpe0_blk_len);
        push_byte(&mut buf, self.gpe1_blk_len);
        push_byte(&mut buf, self.gpe1_base);
        push_byte(&mut buf, self.reserved2);
        push_le16(&mut buf, self.p_lvl2_lat);
        push_le16(&mut buf, self.p_lvl3_lat);
        push_le16(&mut buf, self.flush_size);
        push_le16(&mut buf, self.flush_stride);
        push_byte(&mut buf, self.duty_offset);
        push_byte(&mut buf, self.duty_width);
        push_byte(&mut buf, self.day_alrm);
        push_byte(&mut buf, self.mon_alrm);
        push_byte(&mut buf, self.century);
        push_byte(&mut buf, self.reserved3);
        push_byte(&mut buf, self.reserved4);
        push_byte(&mut buf, self.reserved5);
        push_le32(&mut buf, self.flags);
        proof {
            lemma_auto_spec_u16_to_from_le_bytes();
            lemma_auto_spec_u32_to_from_le_bytes();
            lemma_auto_spec_u64_to_from_le_bytes();
        }
        buf
    }
}

} // verus!
