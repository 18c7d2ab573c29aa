//! What holds of every image that [`build_eif`](crate::eif::build_eif) builds.

use crate::big_endian::{be_bytes, be_value, law_be_round_trip, lemma_be_bytes_len, lemma_be_limits};
use crate::checksum::crc32;
use crate::eif::{
    image_len, lemma_lengths, lemma_parts, lemma_table_len, section_bytes,
    table_bytes, without_crc, ImageContents, DEFAULT_PCIE_FLAGS, EIF_CRC32_OFFSET,
    EIF_HDR_FLAG_PCIE, EIF_HDR_FLAG_PCIE_VIRTIO, EIF_HDR_VERSION, EIF_HEADER_SIZE, EIF_MAGIC,
    EIF_SECTION_HEADER_SIZE, MAX_NUM_SECTIONS, NUM_SECTIONS,
};
use vstd::prelude::*;
use vstd::utf8::{decode_utf8, encode_utf8, encode_utf8_decode_utf8};

verus! {

/// Where the table of section offsets starts.
pub const OFFSET_TABLE_START: usize = 28;

/// Where the table of section sizes starts.
pub const SIZE_TABLE_START: usize = 284;

/// The number in the `width` bytes of an image from `start` on.
pub open spec fn field(eif: Seq<u8>, start: int, width: int) -> nat {
    be_value(eif.subrange(start, start + width))
}

/// Entry `slot` of the table of section offsets.
pub open spec fn offset_entry(eif: Seq<u8>, slot: int) -> nat {
    field(eif, OFFSET_TABLE_START + 8 * slot, 8)
}

/// Entry `slot` of the table of section sizes.
pub open spec fn size_entry(eif: Seq<u8>, slot: int) -> nat {
    field(eif, SIZE_TABLE_START + 8 * slot, 8)
}

/// The data of a section, found through the two tables.
pub open spec fn section_at(eif: Seq<u8>, slot: int) -> Seq<u8> {
    let start = offset_entry(eif, slot) + EIF_SECTION_HEADER_SIZE;
    eif.subrange(start, start + size_entry(eif, slot))
}

/// Whether the image is small enough for its lengths to fit in their fields.
pub open spec fn fits(contents: ImageContents) -> bool {
    image_len(contents.kernel.len(), contents.cmdline.len()) <= u64::MAX
}

/// The checksum field of an image holds the checksum of all its other bytes.
pub proof fn law_crc_verifies(contents: ImageContents)
    ensures
        field(contents.image(), EIF_CRC32_OFFSET as int, 4) == crc32(
            without_crc(contents.image()),
        ),
{
    lemma_parts(contents, contents.checksum());
    lemma_be_limits();
    law_be_round_trip(contents.checksum() as nat, 4);
}

/// An image is as long as its header, its four section headers, the kernel,
/// the command line and the metadata together.
pub proof fn law_image_length(contents: ImageContents)
    ensures
        contents.image().len() == 548 + 4 * 12 + contents.kernel.len() + contents.cmdline.len()
            + 111,
{
    lemma_lengths(contents);
}

/// Entry `slot` of a table stands at eight times `slot`.
proof fn lemma_table_entry(values: Seq<nat>, slots: nat, slot: int)
    requires
        0 <= slot < slots,
    ensures
        table_bytes(values, slots).subrange(8 * slot, 8 * slot + 8) == be_bytes(
            if slot < values.len() {
                values[slot]
            } else {
                0
            },
            8,
        ),
    decreases slots,
{
    broadcast use {lemma_be_bytes_len, lemma_table_len};

    let shorter = table_bytes(values, (slots - 1) as nat);
    if slot == slots - 1 {
        assert(table_bytes(values, slots).subrange(8 * slot, 8 * slot + 8) =~= be_bytes(
            if slot < values.len() {
                values[slot]
            } else {
                0
            },
            8,
        ));
    } else {
        lemma_table_entry(values, (slots - 1) as nat, slot);
        assert(table_bytes(values, slots).subrange(8 * slot, 8 * slot + 8) =~= shorter.subrange(
            8 * slot,
            8 * slot + 8,
        ));
    }
}

/// The fixed fields of the header hold what the image was built from.
pub proof fn law_header_fields(contents: ImageContents)
    ensures
        contents.image().take(4) == EIF_MAGIC@,
        field(contents.image(), 4, 2) == EIF_HDR_VERSION,
        field(contents.image(), 6, 2) == contents.arch_flags | contents.pcie_flags,
        field(contents.image(), 8, 8) == contents.default_mem,
        field(contents.image(), 16, 8) == contents.default_cpus,
        field(contents.image(), 24, 2) == 0,
        field(contents.image(), 26, 2) == NUM_SECTIONS,
        field(contents.image(), 540, 4) == 0,
{
    broadcast use {lemma_be_bytes_len, lemma_table_len};

    lemma_lengths(contents);
    lemma_be_limits();
    let eif = contents.image();
    let flags = contents.arch_flags | contents.pcie_flags;
    law_be_round_trip(EIF_HDR_VERSION as nat, 2);
    law_be_round_trip(flags as nat, 2);
    law_be_round_trip(contents.default_mem as nat, 8);
    law_be_round_trip(contents.default_cpus as nat, 8);
    law_be_round_trip(0, 2);
    law_be_round_trip(NUM_SECTIONS as nat, 2);
    law_be_round_trip(0, 4);
    assert(eif.take(4) =~= EIF_MAGIC@);
    assert(eif.subrange(4, 6) =~= be_bytes(EIF_HDR_VERSION as nat, 2));
    assert(eif.subrange(6, 8) =~= be_bytes(flags as nat, 2));
    assert(eif.subrange(8, 16) =~= be_bytes(contents.default_mem as nat, 8));
    assert(eif.subrange(16, 24) =~= be_bytes(contents.default_cpus as nat, 8));
    assert(eif.subrange(24, 26) =~= be_bytes(0, 2));
    assert(eif.subrange(26, 28) =~= be_bytes(NUM_SECTIONS as nat, 2));
    assert(eif.subrange(540, 544) =~= be_bytes(0, 4));
}

/// The two tables list the sections' offsets and the lengths of their data;
/// the slots past the last section hold zero.
pub proof fn law_tables(contents: ImageContents, slot: int)
    requires
        fits(contents),
        0 <= slot < MAX_NUM_SECTIONS,
    ensures
        offset_entry(contents.image(), slot) == if slot < NUM_SECTIONS {
            contents.section_offset(slot as nat)
        } else {
            0
        },
        size_entry(contents.image(), slot) == if slot < NUM_SECTIONS {
            contents.section_data(slot).len()
        } else {
            0
        },
{
    broadcast use {lemma_be_bytes_len, lemma_table_len};

    lemma_lengths(contents);
    lemma_be_limits();
    let eif = contents.image();
    let offsets = table_bytes(contents.offsets(), MAX_NUM_SECTIONS as nat);
    let sizes = table_bytes(contents.sizes(), MAX_NUM_SECTIONS as nat);
    lemma_table_entry(contents.offsets(), MAX_NUM_SECTIONS as nat, slot);
    lemma_table_entry(contents.sizes(), MAX_NUM_SECTIONS as nat, slot);
    assert(eif.subrange(OFFSET_TABLE_START + 8 * slot, OFFSET_TABLE_START + 8 * slot + 8)
        =~= offsets.subrange(8 * slot, 8 * slot + 8));
    assert(eif.subrange(SIZE_TABLE_START + 8 * slot, SIZE_TABLE_START + 8 * slot + 8)
        =~= sizes.subrange(8 * slot, 8 * slot + 8));
    let offset = if slot < NUM_SECTIONS {
        contents.section_offset(slot as nat)
    } else {
        0
    };
    let size = if slot < NUM_SECTIONS {
        contents.section_data(slot).len()
    } else {
        0
    };
    assert(contents.sections(slot as nat).len() <= contents.sections(4).len() || slot >= 4) by {
        assert(slot == 0 || slot == 1 || slot == 2 || slot == 3 || slot >= 4);
    }
    law_be_round_trip(offset, 8);
    law_be_round_trip(size, 8);
}

/// The first section follows the header, every other one follows the section
/// before it, and the last one ends where the image ends.
pub proof fn law_sections_adjoin(contents: ImageContents)
    requires
        fits(contents),
    ensures
        offset_entry(contents.image(), 0) == EIF_HEADER_SIZE,
        forall|i: int|
            0 <= i < NUM_SECTIONS - 1 ==> offset_entry(contents.image(), i + 1) == offset_entry(
                contents.image(),
                i,
            ) + EIF_SECTION_HEADER_SIZE + #[trigger] size_entry(contents.image(), i),
        offset_entry(contents.image(), NUM_SECTIONS - 1) + EIF_SECTION_HEADER_SIZE + size_entry(
            contents.image(),
            NUM_SECTIONS - 1,
        ) == contents.image().len(),
{
    lemma_lengths(contents);
    law_tables(contents, 0);
    law_tables(contents, 1);
    law_tables(contents, 2);
    law_tables(contents, 3);
}

/// Section `n` stands behind the sections before it.
proof fn lemma_sections_prefix(contents: ImageContents, n: nat, m: nat)
    requires
        n < m,
    ensures
        contents.sections(n).len() + section_bytes(
            contents.section_type(n as int),
            contents.section_data(n as int),
        ).len() <= contents.sections(m).len(),
        contents.sections(m).subrange(
            contents.sections(n).len() as int,
            contents.sections(n).len() as int + section_bytes(
                contents.section_type(n as int),
                contents.section_data(n as int),
            ).len(),
        ) == section_bytes(contents.section_type(n as int), contents.section_data(n as int)),
    decreases m,
{
    let section = section_bytes(
        contents.section_type(n as int),
        contents.section_data(n as int),
    );
    let start = contents.sections(n).len() as int;
    if m == n + 1 {
        assert(contents.sections(m).subrange(start, start + section.len()) =~= section);
    } else {
        lemma_sections_prefix(contents, n, (m - 1) as nat);
        assert(contents.sections(m).subrange(start, start + section.len()) =~= contents.sections(
            (m - 1) as nat,
        ).subrange(start, start + section.len()));
    }
}

/// A section stands in an image at its offset.
proof fn lemma_section_in_image(contents: ImageContents, slot: int, crc: u32)
    requires
        0 <= slot < NUM_SECTIONS,
    ensures
        ({
            let section = section_bytes(contents.section_type(slot), contents.section_data(slot));
            let start = contents.section_offset(slot as nat) as int;
            &&& start + section.len() <= contents.image_with_crc(crc).len()
            &&& contents.image_with_crc(crc).subrange(start, start + section.len()) == section
        }),
{
    lemma_lengths(contents);
    lemma_sections_prefix(contents, slot as nat, 4);
    lemma_parts(contents, crc);
    let eif = contents.image_with_crc(crc);
    let section = section_bytes(contents.section_type(slot), contents.section_data(slot));
    let start = contents.section_offset(slot as nat) as int;
    assert(eif.subrange(start, start + section.len()) =~= eif.skip(
        EIF_HEADER_SIZE as int,
    ).subrange(start - EIF_HEADER_SIZE, start - EIF_HEADER_SIZE + section.len()));
}

/// The parts of a section that stands in a byte string at `start`.
pub(crate) proof fn lemma_section_fields(eif: Seq<u8>, start: int, kind: u16, data: Seq<u8>)
    requires
        0 <= start,
        start + 12 + data.len() <= eif.len(),
        data.len() <= u64::MAX,
        eif.subrange(start, start + 12 + data.len()) == section_bytes(kind, data),
    ensures
        field(eif, start, 2) == kind,
        field(eif, start + 2, 2) == 0,
        field(eif, start + 4, 8) == data.len(),
        eif.subrange(start + 12, start + 12 + data.len()) == data,
{
    broadcast use lemma_be_bytes_len;

    lemma_be_limits();
    let section = section_bytes(kind, data);
    assert(eif.subrange(start, start + 2) =~= section.subrange(0, 2));
    assert(section.subrange(0, 2) =~= be_bytes(kind as nat, 2));
    assert(eif.subrange(start + 2, start + 4) =~= section.subrange(2, 4));
    assert(section.subrange(2, 4) =~= be_bytes(0, 2));
    assert(eif.subrange(start + 4, start + 12) =~= section.subrange(4, 12));
    assert(section.subrange(4, 12) =~= be_bytes(data.len(), 8));
    assert(eif.subrange(start + 12, start + 12 + data.len()) =~= section.subrange(
        12,
        12 + data.len() as int,
    ));
    assert(section.subrange(12, 12 + data.len() as int) =~= data);
    law_be_round_trip(kind as nat, 2);
    law_be_round_trip(0, 2);
    law_be_round_trip(data.len(), 8);
}

/// At the offset that the table gives for a section stands its header, of the
/// section's type, without flags and with the length that the other table
/// gives; behind it stand the section's data, byte for byte.
pub proof fn law_section_read_back(contents: ImageContents, slot: int)
    requires
        fits(contents),
        0 <= slot < NUM_SECTIONS,
    ensures
        ({
            let eif = contents.image();
            let start = offset_entry(eif, slot) as int;
            &&& field(eif, start, 2) == contents.section_type(slot)
            &&& field(eif, start + 2, 2) == 0
            &&& field(eif, start + 4, 8) == size_entry(eif, slot)
            &&& start + EIF_SECTION_HEADER_SIZE + size_entry(eif, slot) <= eif.len()
            &&& section_at(eif, slot) == contents.section_data(slot)
        }),
{
    broadcast use lemma_be_bytes_len;

    lemma_lengths(contents);
    law_tables(contents, slot);
    lemma_section_in_image(contents, slot, contents.checksum());
    lemma_section_fields(
        contents.image(),
        contents.section_offset(slot as nat) as int,
        contents.section_type(slot),
        contents.section_data(slot),
    );
}

/// An image determines the kernel, the command line, the memory and the number
/// of processors that it was built from, and the union of its flags.
pub proof fn law_image_determines_contents(a: ImageContents, b: ImageContents)
    requires
        fits(a),
        fits(b),
        a.image() == b.image(),
    ensures
        a.kernel == b.kernel,
        a.cmdline == b.cmdline,
        a.default_mem == b.default_mem,
        a.default_cpus == b.default_cpus,
        a.arch_flags | a.pcie_flags == b.arch_flags | b.pcie_flags,
{
    law_header_fields(a);
    law_header_fields(b);
    law_section_read_back(a, 0);
    law_section_read_back(b, 0);
    law_section_read_back(a, 1);
    law_section_read_back(b, 1);
}

/// The command line can be read back from an image as text.
pub proof fn law_cmdline_text_read_back(contents: ImageContents, cmdline: Seq<char>)
    requires
        fits(contents),
        contents.cmdline == encode_utf8(cmdline),
    ensures
        decode_utf8(section_at(contents.image(), 1)) == cmdline,
{
    law_section_read_back(contents, 1);
    encode_utf8_decode_utf8(cmdline);
}

/// Beside the default flags, the two PCIE bits, the architecture bit of the
/// header can still be told: it is set for one architecture and clear for the
/// other.
pub proof fn law_default_flags(arch: u16)
    requires
        arch <= 1,
    ensures
        DEFAULT_PCIE_FLAGS == 0x0240,
        (arch | DEFAULT_PCIE_FLAGS) & 1 == arch,
        (arch | DEFAULT_PCIE_FLAGS) & EIF_HDR_FLAG_PCIE == EIF_HDR_FLAG_PCIE,
        (arch | DEFAULT_PCIE_FLAGS) & EIF_HDR_FLAG_PCIE_VIRTIO == EIF_HDR_FLAG_PCIE_VIRTIO,
{
    assert((1u16 << 6) | (1u16 << 9) == 0x0240) by (bit_vector);
    assert(1u16 << 6 == 0x40) by (bit_vector);
    assert(1u16 << 9 == 0x200) by (bit_vector);
    assert((arch | 0x0240u16) & 1 == arch) by (bit_vector)
        requires
            arch <= 1,
    ;
    assert((arch | 0x0240u16) & 0x40 == 0x40) by (bit_vector);
    assert((arch | 0x0240u16) & 0x200 == 0x200) by (bit_vector);
}

} // verus!
