//! EIF (Enclave Image Format) builder.
//!
//! Builds a minimal sidecar EIF: kernel, command line, empty ramdisk and
//! metadata. The root file system is a separate artifact that is attached as a
//! block device at launch.
//!
//! All multi-byte fields are big-endian.

use crate::big_endian::{be_bytes, lemma_be_bytes_len, push_be};
use crate::checksum::{crc32, crc32_of_parts};
use vstd::prelude::*;
use vstd::string::StringSliceAdditionalSpecFns;

verus! {

/// The four bytes `.eif`, with which every image starts.
pub const EIF_MAGIC: [u8; 4] = [0x2e, 0x65, 0x69, 0x66];

pub const EIF_HDR_VERSION: u16 = 4;

pub const EIF_SECTION_KERNEL: u16 = 1;

pub const EIF_SECTION_CMDLINE: u16 = 2;

pub const EIF_SECTION_RAMDISK: u16 = 3;

pub const EIF_SECTION_METADATA: u16 = 5;

pub const EIF_ARCH_X86_64: u16 = 0;

pub const EIF_ARCH_AARCH64: u16 = 1;

pub const MAX_NUM_SECTIONS: usize = 32;

pub const EIF_HEADER_SIZE: usize = 548;

pub const EIF_CRC32_OFFSET: usize = EIF_HEADER_SIZE - 4;

pub const EIF_SECTION_HEADER_SIZE: usize = 12;

/// How many sections a sidecar image has.
pub const NUM_SECTIONS: u16 = 4;

/// PCIE flag constants.
pub const EIF_HDR_FLAG_PCIE: u16 = 1 << 6;

pub const EIF_HDR_FLAG_PCIE_VIRTIO: u16 = 1 << 9;

/// Default PCIE flags for sidecar mode.
pub const DEFAULT_PCIE_FLAGS: u16 = EIF_HDR_FLAG_PCIE | EIF_HDR_FLAG_PCIE_VIRTIO;

/// Default kernel command line for block device boot.
pub const DEFAULT_CMDLINE: &'static str = "initcall_blacklist=i8042_init console=ttyS0 root=/dev/vda rw";

/// The metadata section of every sidecar image.
pub const METADATA: &'static str = r#"{"ImageName":"bottlerocket-sidecar","ImageVersion":"","BuildMetadata":{},"DockerInfo":{},"CustomMetadata":null}"#;

/// How many bytes the metadata section holds.
pub const METADATA_SIZE: usize = 111;

/// Why no image was built. The text is what the file system reported.
#[derive(Debug)]
pub enum EifError {
    ReadKernel(String),
    WriteOutput(String),
    EmptyKernel,
}

/// The architecture bits of the header's flags, for a target of that name.
pub fn eif_arch_flags(target_arch: &str) -> (flags: u16)
    ensures
        flags == arch_flags(target_arch@),
{
    if target_arch.to_owned() == "aarch64".to_owned() {
        EIF_ARCH_AARCH64
    } else {
        EIF_ARCH_X86_64
    }
}

/// Only the name `aarch64` selects that architecture's flag.
pub open spec fn arch_flags(target_arch: Seq<char>) -> u16 {
    if target_arch == "aarch64"@ {
        EIF_ARCH_AARCH64
    } else {
        EIF_ARCH_X86_64
    }
}

/// The text of the metadata section.
pub fn build_metadata() -> (metadata: String)
    ensures
        metadata@ == METADATA@,
{
    METADATA.to_string()
}

/// A section as it stands in an image: its type, no flags, the length of its
/// data, and the data.
pub open spec fn section_bytes(section_type: u16, data: Seq<u8>) -> Seq<u8> {
    be_bytes(section_type as nat, 2) + be_bytes(0, 2) + be_bytes(data.len(), 8) + data
}

/// Appends a section to the image.
pub fn write_section(eif: &mut Vec<u8>, section_type: u16, data: &[u8])
    ensures
        final(eif)@ == old(eif)@ + section_bytes(section_type, data@),
{
    push_be(eif, section_type as u64, 2);
    push_be(eif, 0, 2);  // flags
    push_be(eif, data.len() as u64, 8);
    eif.extend_from_slice(data);
    assert(eif@ =~= old(eif)@ + section_bytes(section_type, data@));
}

/// The bytes of the metadata section.
pub open spec fn metadata_bytes() -> Seq<u8> {
    METADATA.spec_bytes()
}

/// The metadata are plain ASCII, of the length that the constant gives.
pub proof fn lemma_metadata_len()
    ensures
        metadata_bytes().len() == METADATA_SIZE,
{
    reveal_strlit(
        r#"{"ImageName":"bottlerocket-sidecar","ImageVersion":"","BuildMetadata":{},"DockerInfo":{},"CustomMetadata":null}"#,
    );
    assert(METADATA.is_ascii());
    assert(METADATA.spec_bytes().len() == METADATA@.len());
}

/// What an image holds, beside what is the same in all of them.
pub struct ImageContents {
    pub kernel: Seq<u8>,
    pub cmdline: Seq<u8>,
    pub arch_flags: u16,
    pub pcie_flags: u16,
    pub default_mem: u64,
    pub default_cpus: u64,
}

impl ImageContents {
    /// The type of section `i`.
    pub open spec fn section_type(self, i: int) -> u16 {
        if i == 0 {
            EIF_SECTION_KERNEL
        } else if i == 1 {
            EIF_SECTION_CMDLINE
        } else if i == 2 {
            EIF_SECTION_RAMDISK
        } else {
            EIF_SECTION_METADATA
        }
    }

    /// The data of section `i`. The ramdisk is empty.
    pub open spec fn section_data(self, i: int) -> Seq<u8> {
        if i == 0 {
            self.kernel
        } else if i == 1 {
            self.cmdline
        } else if i == 2 {
            Seq::empty()
        } else {
            metadata_bytes()
        }
    }

    /// The first `n` sections, one right behind the other.
    pub open spec fn sections(self, n: nat) -> Seq<u8>
        decreases n,
    {
        if n == 0 {
            Seq::empty()
        } else {
            self.sections((n - 1) as nat) + section_bytes(
                self.section_type(n - 1),
                self.section_data(n - 1),
            )
        }
    }

    /// Where section `i` starts: behind the header and the sections before it.
    pub open spec fn section_offset(self, i: nat) -> nat {
        EIF_HEADER_SIZE as nat + self.sections(i).len()
    }

    /// The sections' offsets.
    pub open spec fn offsets(self) -> Seq<nat> {
        Seq::new(NUM_SECTIONS as nat, |i: int| self.section_offset(i as nat))
    }

    /// The lengths of the sections' data.
    pub open spec fn sizes(self) -> Seq<nat> {
        Seq::new(NUM_SECTIONS as nat, |i: int| self.section_data(i).len())
    }

    /// The header up to the checksum.
    pub open spec fn header(self) -> Seq<u8> {
        EIF_MAGIC@ + be_bytes(EIF_HDR_VERSION as nat, 2) + be_bytes(
            (self.arch_flags | self.pcie_flags) as nat,
            2,
        ) + be_bytes(self.default_mem as nat, 8) + be_bytes(self.default_cpus as nat, 8)
            + be_bytes(0, 2) + be_bytes(NUM_SECTIONS as nat, 2) + table_bytes(
            self.offsets(),
            MAX_NUM_SECTIONS as nat,
        ) + table_bytes(self.sizes(), MAX_NUM_SECTIONS as nat) + be_bytes(0, 4)
    }

    /// The sections of the image.
    pub open spec fn body(self) -> Seq<u8> {
        self.sections(NUM_SECTIONS as nat)
    }

    /// The checksum of the whole image but for the checksum field.
    pub open spec fn checksum(self) -> u32 {
        crc32(self.header() + self.body())
    }

    /// The image with `crc` in its checksum field.
    pub open spec fn image_with_crc(self, crc: u32) -> Seq<u8> {
        self.header() + be_bytes(crc as nat, 4) + self.body()
    }

    /// The image.
    pub open spec fn image(self) -> Seq<u8> {
        self.image_with_crc(self.checksum())
    }
}

/// A table of `slots` eight-byte entries: the values, then zeros.
pub open spec fn table_bytes(values: Seq<nat>, slots: nat) -> Seq<u8>
    decreases slots,
{
    if slots == 0 {
        Seq::empty()
    } else {
        table_bytes(values, (slots - 1) as nat) + be_bytes(
            if slots <= values.len() {
                values[slots - 1]
            } else {
                0
            },
            8,
        )
    }
}

/// A table is eight bytes a slot.
pub broadcast proof fn lemma_table_len(values: Seq<nat>, slots: nat)
    ensures
        #[trigger] table_bytes(values, slots).len() == 8 * slots,
    decreases slots,
{
    broadcast use lemma_be_bytes_len;

    if slots > 0 {
        lemma_table_len(values, (slots - 1) as nat);
    }
}

/// The length of the image of a kernel and a command line of these lengths.
pub open spec fn image_len(kernel_len: nat, cmdline_len: nat) -> nat {
    EIF_HEADER_SIZE as nat + EIF_SECTION_HEADER_SIZE as nat * NUM_SECTIONS as nat + kernel_len
        + cmdline_len + METADATA_SIZE as nat
}

/// Appends a table with an entry for each of the values to the header.
fn write_table(eif: &mut Vec<u8>, values: &[u64])
    ensures
        final(eif)@ == old(eif)@ + table_bytes(
            Seq::new(values@.len(), |i: int| values@[i] as nat),
            MAX_NUM_SECTIONS as nat,
        ),
{
    let ghost entries = Seq::new(values@.len(), |i: int| values@[i] as nat);
    let mut slot: usize = 0;
    assert(eif@ =~= old(eif)@ + table_bytes(entries, 0));
    while slot < MAX_NUM_SECTIONS
        invariant
            slot <= MAX_NUM_SECTIONS,
            entries == Seq::new(values@.len(), |i: int| values@[i] as nat),
            eif@ == old(eif)@ + table_bytes(entries, slot as nat),
        decreases MAX_NUM_SECTIONS - slot,
    {
        let entry: u64 = if slot < values.len() {
            values[slot]
        } else {
            0
        };
        push_be(eif, entry, 8);
        slot += 1;
        assert(eif@ =~= old(eif)@ + table_bytes(entries, slot as nat));
    }
}

/// The lengths of the header, of the sections and of the whole image.
pub proof fn lemma_lengths(contents: ImageContents)
    ensures
        contents.header().len() == EIF_CRC32_OFFSET,
        contents.sections(0).len() == 0,
        contents.sections(1).len() == EIF_SECTION_HEADER_SIZE + contents.kernel.len(),
        contents.sections(2).len() == contents.sections(1).len() + EIF_SECTION_HEADER_SIZE
            + contents.cmdline.len(),
        contents.sections(3).len() == contents.sections(2).len() + EIF_SECTION_HEADER_SIZE,
        contents.sections(4).len() == contents.sections(3).len() + EIF_SECTION_HEADER_SIZE
            + metadata_bytes().len(),
        metadata_bytes().len() == METADATA_SIZE,
        forall|crc: u32|
            #[trigger] contents.image_with_crc(crc).len() == image_len(
                contents.kernel.len(),
                contents.cmdline.len(),
            ),
{
    broadcast use {lemma_be_bytes_len, lemma_table_len};

    lemma_metadata_len();
    reveal_with_fuel(ImageContents::sections, 5);
}

/// The length of an image, where it fits in memory.
pub fn image_size(kernel_len: usize, cmdline_len: usize) -> (size: Option<usize>)
    ensures
        size == if image_len(kernel_len as nat, cmdline_len as nat) <= usize::MAX {
            Some(image_len(kernel_len as nat, cmdline_len as nat) as usize)
        } else {
            None
        },
{
    let fixed: usize = EIF_HEADER_SIZE + EIF_SECTION_HEADER_SIZE * NUM_SECTIONS as usize;
    match kernel_len.checked_add(cmdline_len) {
        None => None,
        Some(variable) => match variable.checked_add(METADATA_SIZE) {
            None => None,
            Some(data) => data.checked_add(fixed),
        },
    }
}

/// What the image for these inputs holds.
pub open spec fn contents_of(
    kernel_data: Seq<u8>,
    cmdline: Seq<u8>,
    default_mem: u64,
    default_cpus: u64,
    pcie_flags: u16,
    target_arch: Seq<char>,
) -> ImageContents {
    ImageContents {
        kernel: kernel_data,
        cmdline,
        arch_flags: arch_flags(target_arch),
        pcie_flags,
        default_mem,
        default_cpus,
    }
}

/// Lays an image out, with zeros in its checksum field.
pub fn assemble(
    kernel_data: &[u8],
    cmdline: &str,
    default_mem: u64,
    default_cpus: u64,
    pcie_flags: u16,
    target_arch: &str,
) -> (eif: Vec<u8>)
    requires
        image_len(kernel_data@.len(), cmdline.spec_bytes().len()) <= usize::MAX,
    ensures
        eif@ == contents_of(
            kernel_data@,
            cmdline.spec_bytes(),
            default_mem,
            default_cpus,
            pcie_flags,
            target_arch@,
        ).image_with_crc(0),
{
    let ghost contents = contents_of(
        kernel_data@,
        cmdline.spec_bytes(),
        default_mem,
        default_cpus,
        pcie_flags,
        target_arch@,
    );
    proof {
        lemma_lengths(contents);
    }
    let cmdline_data = cmdline.as_bytes();
    let ramdisk_data: Vec<u8> = Vec::new();  // Empty for block device boot
    let metadata = build_metadata();
    let metadata_data = metadata.as_str().as_bytes();

    let total_size: usize = EIF_HEADER_SIZE + EIF_SECTION_HEADER_SIZE * NUM_SECTIONS as usize
        + kernel_data.len() + cmdline_data.len() + ramdisk_data.len() + metadata_data.len();
    let mut eif: Vec<u8> = Vec::with_capacity(total_size);

    // Header
    eif.extend_from_slice(&EIF_MAGIC);
    push_be(&mut eif, EIF_HDR_VERSION as u64, 2);
    push_be(&mut eif, (eif_arch_flags(target_arch) | pcie_flags) as u64, 2);
    push_be(&mut eif, default_mem, 8);
    push_be(&mut eif, default_cpus, 8);
    push_be(&mut eif, 0, 2);  // reserved
    push_be(&mut eif, NUM_SECTIONS as u64, 2);

    let kernel_offset: u64 = EIF_HEADER_SIZE as u64;
    let cmdline_offset: u64 = kernel_offset + EIF_SECTION_HEADER_SIZE as u64
        + kernel_data.len() as u64;
    let ramdisk_offset: u64 = cmdline_offset + EIF_SECTION_HEADER_SIZE as u64
        + cmdline_data.len() as u64;
    let metadata_offset: u64 = ramdisk_offset + EIF_SECTION_HEADER_SIZE as u64
        + ramdisk_data.len() as u64;

    let offsets: [u64; 4] = [kernel_offset, cmdline_offset, ramdisk_offset, metadata_offset];
    write_table(&mut eif, &offsets);
    let sizes: [u64; 4] = [
        kernel_data.len() as u64,
        cmdline_data.len() as u64,
        ramdisk_data.len() as u64,
        metadata_data.len() as u64,
    ];
    write_table(&mut eif, &sizes);
    assert(Seq::new(offsets@.len(), |i: int| offsets@[i] as nat) =~= contents.offsets());
    assert(Seq::new(sizes@.len(), |i: int| sizes@[i] as nat) =~= contents.sizes());

    push_be(&mut eif, 0, 4);  // unused
    assert(eif@ =~= contents.header());
    push_be(&mut eif, 0, 4);  // checksum, filled in later

    // Sections
    write_section(&mut eif, EIF_SECTION_KERNEL, kernel_data);
    write_section(&mut eif, EIF_SECTION_CMDLINE, cmdline_data);
    write_section(&mut eif, EIF_SECTION_RAMDISK, ramdisk_data.as_slice());
    write_section(&mut eif, EIF_SECTION_METADATA, metadata_data);
    proof {
        reveal_with_fuel(ImageContents::sections, 5);
        assert(eif@ =~= contents.image_with_crc(0));
    }
    eif
}

/// An image without its checksum field.
pub open spec fn without_crc(eif: Seq<u8>) -> Seq<u8> {
    eif.take(EIF_CRC32_OFFSET as int) + eif.skip(EIF_HEADER_SIZE as int)
}

/// The checksum of an image, which leaves out the checksum field itself.
pub fn image_checksum(eif: &[u8]) -> (crc: u32)
    requires
        eif@.len() >= EIF_HEADER_SIZE,
    ensures
        crc == crc32(without_crc(eif@)),
{
    let (head, rest) = eif.split_at(EIF_CRC32_OFFSET);
    let (_field, tail) = rest.split_at(4);
    assert(head@ + tail@ =~= without_crc(eif@));
    crc32_of_parts(head, tail)
}

/// Puts `crc` into the checksum field of an image.
pub fn seal(eif: &mut Vec<u8>, crc: u32)
    requires
        old(eif)@.len() >= EIF_HEADER_SIZE,
    ensures
        final(eif)@ == old(eif)@.take(EIF_CRC32_OFFSET as int) + be_bytes(crc as nat, 4)
            + old(eif)@.skip(EIF_HEADER_SIZE as int),
{
    broadcast use lemma_be_bytes_len;

    let mut field: Vec<u8> = Vec::with_capacity(4);
    push_be(&mut field, crc as u64, 4);
    assert(field@ =~= be_bytes(crc as nat, 4));
    eif.set(EIF_CRC32_OFFSET, field[0]);
    eif.set(EIF_CRC32_OFFSET + 1, field[1]);
    eif.set(EIF_CRC32_OFFSET + 2, field[2]);
    eif.set(EIF_CRC32_OFFSET + 3, field[3]);
    assert(eif@ =~= old(eif)@.take(EIF_CRC32_OFFSET as int) + be_bytes(crc as nat, 4)
        + old(eif)@.skip(EIF_HEADER_SIZE as int));
}

/// Builds an EIF from the bytes of a kernel and a command line. An empty
/// kernel is refused.
pub fn build_eif(
    kernel_data: &[u8],
    cmdline: &str,
    default_mem: u64,
    default_cpus: u64,
    pcie_flags: u16,
    target_arch: &str,
) -> (result: Result<Vec<u8>, EifError>)
    requires
        kernel_data@.len() > 0 ==> image_len(kernel_data@.len(), cmdline.spec_bytes().len())
            <= usize::MAX,
    ensures
        match result {
            Ok(eif) => kernel_data@.len() > 0 && eif@ == contents_of(
                kernel_data@,
                cmdline.spec_bytes(),
                default_mem,
                default_cpus,
                pcie_flags,
                target_arch@,
            ).image(),
            Err(e) => kernel_data@.len() == 0 && e == EifError::EmptyKernel,
        },
{
    if kernel_data.is_empty() {
        return Err(EifError::EmptyKernel);
    }
    let ghost contents = contents_of(
        kernel_data@,
        cmdline.spec_bytes(),
        default_mem,
        default_cpus,
        pcie_flags,
        target_arch@,
    );
    let mut eif = assemble(
        kernel_data,
        cmdline,
        default_mem,
        default_cpus,
        pcie_flags,
        target_arch,
    );
    proof {
        lemma_parts(contents, 0);
    }
    let crc: u32 = image_checksum(eif.as_slice());
    seal(&mut eif, crc);
    Ok(eif)
}

/// Cutting an image at the checksum field gives the header and the sections.
pub proof fn lemma_parts(contents: ImageContents, crc: u32)
    ensures
        ({
            let eif = contents.image_with_crc(crc);
            &&& eif.len() >= EIF_HEADER_SIZE
            &&& eif.take(EIF_CRC32_OFFSET as int) == contents.header()
            &&& eif.subrange(EIF_CRC32_OFFSET as int, EIF_HEADER_SIZE as int) == be_bytes(
                crc as nat,
                4,
            )
            &&& eif.skip(EIF_HEADER_SIZE as int) == contents.body()
            &&& without_crc(eif) == contents.header() + contents.body()
        }),
{
    broadcast use lemma_be_bytes_len;

    lemma_lengths(contents);
    let eif = contents.image_with_crc(crc);
    assert(eif.take(EIF_CRC32_OFFSET as int) =~= contents.header());
    assert(eif.subrange(EIF_CRC32_OFFSET as int, EIF_HEADER_SIZE as int) =~= be_bytes(
        crc as nat,
        4,
    ));
    assert(eif.skip(EIF_HEADER_SIZE as int) =~= contents.body());
}

impl EifError {
    /// What is shown to the user.
    pub open spec fn message_text(self) -> Seq<char> {
        match self {
            EifError::ReadKernel(e) => "failed to read kernel: "@ + e@,
            EifError::WriteOutput(e) => "failed to write EIF: "@ + e@,
            EifError::EmptyKernel => "kernel image is empty"@,
        }
    }

    /// What is shown to the user.
    pub fn message(&self) -> (text: String)
        ensures
            text@ == self.message_text(),
    {
        match self {
            EifError::ReadKernel(e) => "failed to read kernel: ".to_string().concat(e.as_str()),
            EifError::WriteOutput(e) => "failed to write EIF: ".to_string().concat(e.as_str()),
            EifError::EmptyKernel => "kernel image is empty".to_string(),
        }
    }
}

} // verus!
