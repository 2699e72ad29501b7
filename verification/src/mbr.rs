//! MBR partition table entries.
//!
//! An entry is 16 bytes: a status byte, the CHS address of the first
//! sector, the partition type, the CHS address of the last sector, the LBA
//! of the first sector and the number of sectors (both little-endian).

use vstd::prelude::*;
use crate::text::{hex_string, hex_text};

verus! {

/// The sector number (6 bits) held in the low bits of a CHS sector byte.
pub open spec fn chs_sector(sector_byte: u8) -> nat {
    (sector_byte as nat) % 64
}

/// The cylinder number (10 bits): the two high bits of the sector byte
/// followed by the eight bits of the cylinder byte.
pub open spec fn chs_cylinder(sector_byte: u8, cylinder_byte: u8) -> nat {
    ((sector_byte as nat) / 64) * 256 + cylinder_byte as nat
}

/// The little-endian 32-bit number stored at `offset` of `bytes`.
pub open spec fn le_u32(bytes: Seq<u8>, offset: int) -> nat {
    bytes[offset] as nat + bytes[offset + 1] as nat * 0x100 + bytes[offset + 2] as nat * 0x1_0000
        + bytes[offset + 3] as nat * 0x100_0000
}

/// One 16-byte entry of an MBR partition table.
#[derive(Clone, Copy)]
pub struct MbrPartition {
    data: [u8; 16],
}

impl View for MbrPartition {
    type V = Seq<u8>;

    closed spec fn view(&self) -> Seq<u8> {
        self.data@
    }
}

impl Default for MbrPartition {
    fn default() -> (p: Self)
        ensures
            p@ == Seq::new(16, |i: int| 0u8),
    {
        let p = MbrPartition { data: [0u8; 16] };
        assert(p@ =~= Seq::new(16, |i: int| 0u8));
        p
    }
}

impl MbrPartition {
    /// Parse a partition entry from the given data.
    pub fn parse(data: &[u8; 16]) -> (p: MbrPartition)
        ensures
            p@ == data@,
    {
        MbrPartition { data: *data }
    }

    /// The status byte (offset 0x00).
    pub fn status(&self) -> (r: u8)
        ensures
            r == self@[0],
    {
        self.data[0]
    }

    /// Whether bit 7 of the status byte (active / bootable) is set.
    pub fn is_active(&self) -> (r: bool)
        ensures
            r == (self@[0] >= 0x80),
    {
        let s = self.status();
        assert((s & 0x80u8 != 0) == (s >= 0x80)) by (bit_vector);
        s & 0x80 != 0
    }

    /// The head of the first sector (offset 0x01).
    pub fn begin_head(&self) -> (r: u8)
        ensures
            r == self@[1],
    {
        self.data[1]
    }

    /// The sector of the first sector (low 6 bits of offset 0x02).
    pub fn begin_sector(&self) -> (r: u8)
        ensures
            r == chs_sector(self@[2]),
            r < 64,
    {
        Self::sector_of(self.data[2])
    }

    /// The cylinder of the first sector (offsets 0x02 and 0x03).
    pub fn begin_cylinder(&self) -> (r: u16)
        ensures
            r == chs_cylinder(self@[2], self@[3]),
            r < 1024,
    {
        Self::cylinder_of(self.data[2], self.data[3])
    }

    /// The partition type (offset 0x04).
    pub fn partition_type(&self) -> (r: u8)
        ensures
            r == self@[4],
    {
        self.data[4]
    }

    /// The head of the last sector (offset 0x05).
    pub fn end_head(&self) -> (r: u8)
        ensures
            r == self@[5],
    {
        self.data[5]
    }

    /// The sector of the last sector (low 6 bits of offset 0x06).
    pub fn end_sector(&self) -> (r: u8)
        ensures
            r == chs_sector(self@[6]),
            r < 64,
    {
        Self::sector_of(self.data[6])
    }

    /// The cylinder of the last sector (offsets 0x06 and 0x07).
    pub fn end_cylinder(&self) -> (r: u16)
        ensures
            r == chs_cylinder(self@[6], self@[7]),
            r < 1024,
    {
        Self::cylinder_of(self.data[6], self.data[7])
    }

    /// The LBA of the first sector (offset 0x08, little-endian).
    pub fn begin_lba(&self) -> (r: u32)
        ensures
            r == le_u32(self@, 8),
    {
        Self::le_u32_at(&self.data, 8)
    }

    /// The number of sectors in the partition (offset 0x0C, little-endian).
    pub fn total_lba(&self) -> (r: u32)
        ensures
            r == le_u32(self@, 12),
    {
        Self::le_u32_at(&self.data, 12)
    }

    /// The fields as the partition's debug view shows them, in order, each
    /// a name and the text of its value: whether it is active, then the
    /// numbers in hexadecimal with a `0x` prefix, two digits for heads and
    /// the type, four for sectors and cylinders, eight for LBAs.
    pub fn describe(&self) -> (fields: Vec<(String, String)>)
        ensures
            fields@.len() == 10,
            fields@[0].0@ == "Active"@,
            fields@[0].1@ == (if self@[0] >= 0x80 { "true"@ } else { "false"@ }),
            fields@[1].0@ == "Begin Head"@,
            fields@[1].1@ == hex_text(self@[1] as nat, 2),
            fields@[2].0@ == "Begin Sector"@,
            fields@[2].1@ == hex_text(chs_sector(self@[2]), 4),
            fields@[3].0@ == "Begin Cylinder"@,
            fields@[3].1@ == hex_text(chs_cylinder(self@[2], self@[3]), 4),
            fields@[4].0@ == "Partition Type"@,
            fields@[4].1@ == hex_text(self@[4] as nat, 2),
            fields@[5].0@ == "End Head"@,
            fields@[5].1@ == hex_text(self@[5] as nat, 2),
            fields@[6].0@ == "End Sector"@,
            fields@[6].1@ == hex_text(chs_sector(self@[6]), 4),
            fields@[7].0@ == "End Cylinder"@,
            fields@[7].1@ == hex_text(chs_cylinder(self@[6], self@[7]), 4),
            fields@[8].0@ == "Begin LBA"@,
            fields@[8].1@ == hex_text(le_u32(self@, 8), 8),
            fields@[9].0@ == "Total LBA"@,
            fields@[9].1@ == hex_text(le_u32(self@, 12), 8),
    {
        let mut fields: Vec<(String, String)> = Vec::new();
        let active = if self.is_active() {
            "true".to_owned()
        } else {
            "false".to_owned()
        };
        fields.push(("Active".to_owned(), active));
        fields.push(("Begin Head".to_owned(), hex_string(self.begin_head() as u64, 2)));
        fields.push(("Begin Sector".to_owned(), hex_string(self.begin_sector() as u64, 4)));
        fields.push(("Begin Cylinder".to_owned(), hex_string(self.begin_cylinder() as u64, 4)));
        fields.push(("Partition Type".to_owned(), hex_string(self.partition_type() as u64, 2)));
        fields.push(("End Head".to_owned(), hex_string(self.end_head() as u64, 2)));
        fields.push(("End Sector".to_owned(), hex_string(self.end_sector() as u64, 4)));
        fields.push(("End Cylinder".to_owned(), hex_string(self.end_cylinder() as u64, 4)));
        fields.push(("Begin LBA".to_owned(), hex_string(self.begin_lba() as u64, 8)));
        fields.push(("Total LBA".to_owned(), hex_string(self.total_lba() as u64, 8)));
        fields
    }

    fn sector_of(b: u8) -> (r: u8)
        ensures
            r == chs_sector(b),
            r < 64,
    {
        assert((b & 0x3fu8) == b % 64) by (bit_vector);
        b & 0x3f
    }

    fn cylinder_of(sector_byte: u8, cylinder_byte: u8) -> (r: u16)
        ensures
            r == chs_cylinder(sector_byte, cylinder_byte),
            r < 1024,
    {
        let high: u16 = ((sector_byte & 0xc0) as u16) << 2;
        assert(high == (sector_byte / 64) * 256) by (bit_vector)
            requires
                high == ((sector_byte & 0xc0u8) as u16) << 2u16,
        ;
        assert(high + cylinder_byte as u16 == high | cylinder_byte as u16) by (bit_vector)
            requires
                high == ((sector_byte & 0xc0u8) as u16) << 2u16,
        ;
        high | cylinder_byte as u16
    }

    fn le_u32_at(data: &[u8; 16], offset: usize) -> (r: u32)
        requires
            offset + 4 <= 16,
        ensures
            r == le_u32(data@, offset as int),
    {
        data[offset] as u32 + data[offset + 1] as u32 * 0x100 + data[offset + 2] as u32 * 0x1_0000
            + data[offset + 3] as u32 * 0x100_0000
    }
}

/// A CHS sector byte and cylinder byte are determined by the sector and
/// cylinder numbers they encode.
pub proof fn lemma_chs_determines_bytes(s1: u8, c1: u8, s2: u8, c2: u8)
    requires
        chs_sector(s1) == chs_sector(s2),
        chs_cylinder(s1, c1) == chs_cylinder(s2, c2),
    ensures
        s1 == s2,
        c1 == c2,
{
    assert(c1 == c2 && s1 / 64 == s2 / 64) by (nonlinear_arith)
        requires
            (s1 / 64) * 256 + c1 == (s2 / 64) * 256 + c2,
            c1 < 256,
            c2 < 256,
    ;
    assert(s1 == (s1 / 64) * 64 + s1 % 64) by (nonlinear_arith);
    assert(s2 == (s2 / 64) * 64 + s2 % 64) by (nonlinear_arith);
}

/// Four bytes are determined by the little-endian number they encode.
pub proof fn lemma_le_u32_determines_bytes(a: Seq<u8>, b: Seq<u8>, offset: int)
    requires
        0 <= offset,
        offset + 4 <= a.len(),
        offset + 4 <= b.len(),
        le_u32(a, offset) == le_u32(b, offset),
    ensures
        a[offset] == b[offset],
        a[offset + 1] == b[offset + 1],
        a[offset + 2] == b[offset + 2],
        a[offset + 3] == b[offset + 3],
{
    let (a0, a1, a2, a3) = (a[offset], a[offset + 1], a[offset + 2], a[offset + 3]);
    let (b0, b1, b2, b3) = (b[offset], b[offset + 1], b[offset + 2], b[offset + 3]);
    assert(a0 == b0 && a1 == b1 && a2 == b2 && a3 == b3) by (nonlinear_arith)
        requires
            a0 + a1 * 0x100 + a2 * 0x1_0000 + a3 * 0x100_0000 == b0 + b1 * 0x100 + b2 * 0x1_0000
                + b3 * 0x100_0000,
            a0 < 256,
            a1 < 256,
            a2 < 256,
            a3 < 256,
            b0 < 256,
            b1 < 256,
            b2 < 256,
            b3 < 256,
    ;
}

/// Parsing loses nothing: two entries whose fields all agree (status,
/// both CHS addresses, type and both LBA numbers) hold the same 16 bytes.
pub proof fn lemma_fields_determine_entry(p: MbrPartition, q: MbrPartition)
    requires
        p@[0] == q@[0],
        p@[1] == q@[1],
        chs_sector(p@[2]) == chs_sector(q@[2]),
        chs_cylinder(p@[2], p@[3]) == chs_cylinder(q@[2], q@[3]),
        p@[4] == q@[4],
        p@[5] == q@[5],
        chs_sector(p@[6]) == chs_sector(q@[6]),
        chs_cylinder(p@[6], p@[7]) == chs_cylinder(q@[6], q@[7]),
        le_u32(p@, 8) == le_u32(q@, 8),
        le_u32(p@, 12) == le_u32(q@, 12),
    ensures
        p@ == q@,
{
    lemma_chs_determines_bytes(p@[2], p@[3], q@[2], q@[3]);
    lemma_chs_determines_bytes(p@[6], p@[7], q@[6], q@[7]);
    lemma_le_u32_determines_bytes(p@, q@, 8);
    lemma_le_u32_determines_bytes(p@, q@, 12);
    assert(p@ =~= q@);
}

} // verus!
