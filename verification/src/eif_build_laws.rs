//! What can be read from the image that [`build_eif`](crate::eif::build_eif)
//! builds, in terms of what it was given.

use crate::big_endian::{be_bytes, be_value, law_be_byte, lemma_be_bytes_len};
use crate::checksum::crc32;
use crate::eif::{
    arch_flags, contents_of, image_len, lemma_lengths, lemma_parts, section_bytes, without_crc,
    EifError,
};
use crate::eif_laws::{
    law_crc_verifies, law_header_fields, law_section_read_back, law_tables, lemma_section_fields,
};
use vstd::arithmetic::power::pow;
use vstd::prelude::*;
use vstd::string::StringSliceAdditionalSpecFns;
use vstd::utf8::{decode_utf8, encode_utf8, encode_utf8_decode_utf8};

verus! {

/// The header of an image names the format and its version, holds the memory,
/// the number of processors and the flags that were asked for, with the lowest
/// flag set for `aarch64`, and announces four sections.
pub proof fn law_built_header(
    kernel: Seq<u8>,
    cmdline: &str,
    mem: u64,
    cpus: u64,
    flags: u16,
    target_arch: &str,
)
    ensures
        ({
            let eif = contents_of(
                kernel,
                cmdline.spec_bytes(),
                mem,
                cpus,
                flags,
                target_arch@,
            ).image();
            &&& eif.len() == 548 + 4 * 12 + kernel.len() + encode_utf8(cmdline@).len() + 111
            &&& eif.take(4) == seq![0x2eu8, 0x65u8, 0x69u8, 0x66u8]
            &&& be_value(eif.subrange(4, 6)) == 4
            &&& be_value(eif.subrange(6, 8)) == flags | if target_arch@ == "aarch64"@ {
                1u16
            } else {
                0u16
            }
            &&& be_value(eif.subrange(8, 16)) == mem
            &&& be_value(eif.subrange(16, 24)) == cpus
            &&& be_value(eif.subrange(24, 26)) == 0
            &&& be_value(eif.subrange(26, 28)) == 4
            &&& be_value(eif.subrange(540, 544)) == 0
        }),
{
    let contents = contents_of(
        kernel,
        cmdline.spec_bytes(),
        mem,
        cpus,
        flags,
        target_arch@,
    );
    lemma_lengths(contents);
    law_header_fields(contents);
    let arch = arch_flags(target_arch@);
    assert(arch | flags == flags | arch) by (bit_vector);
    assert(contents.image().take(4) =~= seq![0x2eu8, 0x65u8, 0x69u8, 0x66u8]);
}

/// The two tables of an image have an entry for each of the four sections, with
/// its offset and the length of its data, and zeros in all other slots.
pub proof fn law_built_tables(
    kernel: Seq<u8>,
    cmdline: &str,
    mem: u64,
    cpus: u64,
    flags: u16,
    target_arch: &str,
    slot: int,
)
    requires
        548 + 4 * 12 + kernel.len() + encode_utf8(cmdline@).len() + 111 <= u64::MAX,
        0 <= slot < 32,
    ensures
        ({
            let eif = contents_of(
                kernel,
                cmdline.spec_bytes(),
                mem,
                cpus,
                flags,
                target_arch@,
            ).image();
            let kernel_len = kernel.len();
            let cmdline_len = encode_utf8(cmdline@).len();
            &&& be_value(eif.subrange(28 + 8 * slot, 36 + 8 * slot)) == if slot == 0 {
                548
            } else if slot == 1 {
                560 + kernel_len
            } else if slot == 2 {
                572 + kernel_len + cmdline_len
            } else if slot == 3 {
                584 + kernel_len + cmdline_len
            } else {
                0
            }
            &&& be_value(eif.subrange(284 + 8 * slot, 292 + 8 * slot)) == if slot == 0 {
                kernel_len
            } else if slot == 1 {
                cmdline_len
            } else if slot == 3 {
                111
            } else {
                0
            }
        }),
{
    let contents = contents_of(
        kernel,
        cmdline.spec_bytes(),
        mem,
        cpus,
        flags,
        target_arch@,
    );
    lemma_lengths(contents);
    law_tables(contents, slot);
}

/// Read through its two tables, an image has four sections: the kernel, the
/// command line, an empty ramdisk and the metadata, each byte for byte what was
/// given. Each stands behind a header with its type, no flags and its length.
pub proof fn law_built_sections(
    kernel: Seq<u8>,
    cmdline: &str,
    mem: u64,
    cpus: u64,
    flags: u16,
    target_arch: &str,
    slot: int,
)
    requires
        548 + 4 * 12 + kernel.len() + encode_utf8(cmdline@).len() + 111 <= u64::MAX,
        0 <= slot < 4,
    ensures
        ({
            let eif = contents_of(
                kernel,
                cmdline.spec_bytes(),
                mem,
                cpus,
                flags,
                target_arch@,
            ).image();
            let start = be_value(eif.subrange(28 + 8 * slot, 36 + 8 * slot)) as int;
            let size = be_value(eif.subrange(284 + 8 * slot, 292 + 8 * slot)) as int;
            &&& 548 <= start
            &&& start + 12 + size <= eif.len()
            &&& be_value(eif.subrange(start, start + 2)) == seq![1int, 2, 3, 5][slot]
            &&& be_value(eif.subrange(start + 2, start + 4)) == 0
            &&& be_value(eif.subrange(start + 4, start + 12)) == size
            &&& eif.subrange(start + 12, start + 12 + size) == if slot == 0 {
                kernel
            } else if slot == 1 {
                encode_utf8(cmdline@)
            } else if slot == 2 {
                Seq::empty()
            } else {
                encode_utf8(
                    r#"{"ImageName":"bottlerocket-sidecar","ImageVersion":"","BuildMetadata":{},"DockerInfo":{},"CustomMetadata":null}"#@,
                )
            }
        }),
{
    let contents = contents_of(
        kernel,
        cmdline.spec_bytes(),
        mem,
        cpus,
        flags,
        target_arch@,
    );
    lemma_lengths(contents);
    law_tables(contents, slot);
    law_section_read_back(contents, slot);
}

/// The text in the second section of an image is the command line.
pub proof fn law_built_cmdline(
    kernel: Seq<u8>,
    cmdline: &str,
    mem: u64,
    cpus: u64,
    flags: u16,
    target_arch: &str,
)
    requires
        548 + 4 * 12 + kernel.len() + encode_utf8(cmdline@).len() + 111 <= u64::MAX,
    ensures
        ({
            let eif = contents_of(
                kernel,
                cmdline.spec_bytes(),
                mem,
                cpus,
                flags,
                target_arch@,
            ).image();
            let start = be_value(eif.subrange(36, 44)) as int;
            let size = be_value(eif.subrange(292, 300)) as int;
            decode_utf8(eif.subrange(start + 12, start + 12 + size)) == cmdline@
        }),
{
    law_built_sections(kernel, cmdline, mem, cpus, flags, target_arch, 1);
    encode_utf8_decode_utf8(cmdline@);
}

/// The last field of the header holds the checksum of all the other bytes.
pub proof fn law_built_checksum(
    kernel: Seq<u8>,
    cmdline: &str,
    mem: u64,
    cpus: u64,
    flags: u16,
    target_arch: &str,
)
    ensures
        ({
            let eif = contents_of(
                kernel,
                cmdline.spec_bytes(),
                mem,
                cpus,
                flags,
                target_arch@,
            ).image();
            be_value(eif.subrange(544, 548)) == crc32(eif.take(544) + eif.skip(548))
        }),
{
    let contents = contents_of(
        kernel,
        cmdline.spec_bytes(),
        mem,
        cpus,
        flags,
        target_arch@,
    );
    law_crc_verifies(contents);
}

/// An image before it is sealed differs from the sealed one in the checksum
/// field only, in which it has zeros.
pub proof fn law_assembled(
    kernel: Seq<u8>,
    cmdline: &str,
    mem: u64,
    cpus: u64,
    flags: u16,
    target_arch: &str,
)
    ensures
        ({
            let contents = contents_of(
                kernel,
                cmdline.spec_bytes(),
                mem,
                cpus,
                flags,
                target_arch@,
            );
            let eif = contents.image_with_crc(0);
            &&& eif.len() == contents.image().len()
            &&& eif.take(544) == contents.image().take(544)
            &&& eif.subrange(544, 548) == seq![0u8, 0u8, 0u8, 0u8]
            &&& eif.skip(548) == contents.image().skip(548)
        }),
{
    broadcast use lemma_be_bytes_len;

    let contents = contents_of(
        kernel,
        cmdline.spec_bytes(),
        mem,
        cpus,
        flags,
        target_arch@,
    );
    lemma_lengths(contents);
    lemma_parts(contents, 0);
    lemma_parts(contents, contents.checksum());
    assert forall|i: int| 0 <= i < 4 implies #[trigger] be_bytes(0, 4)[i] == 0 by {
        law_be_byte(0, 4, i);
        let place = pow(256, (4 - 1 - i) as nat);
        vstd::arithmetic::power::lemma_pow_positive(256, (4 - 1 - i) as nat);
        vstd::arithmetic::div_mod::lemma_div_of0(place);
    }
    assert(be_bytes(0, 4) =~= seq![0u8, 0u8, 0u8, 0u8]);
}

/// A section has a header of twelve bytes with its type, no flags and its
/// length, and its data behind it.
pub proof fn law_section_bytes(section_type: u16, data: Seq<u8>)
    requires
        data.len() <= u64::MAX,
    ensures
        ({
            let section = section_bytes(section_type, data);
            &&& section.len() == 12 + data.len()
            &&& be_value(section.subrange(0, 2)) == section_type
            &&& be_value(section.subrange(2, 4)) == 0
            &&& be_value(section.subrange(4, 12)) == data.len()
            &&& section.skip(12) == data
        }),
{
    broadcast use lemma_be_bytes_len;

    let section = section_bytes(section_type, data);
    assert(section.subrange(0, 12 + data.len() as int) =~= section);
    lemma_section_fields(section, 0, section_type, data);
    assert(section.skip(12) =~= section.subrange(12, 12 + data.len() as int));
}

/// The checksum covers every byte of an image but the four of its own field,
/// and those in their order.
pub proof fn law_checksum_covers(eif: Seq<u8>, i: int)
    requires
        eif.len() >= 548,
        0 <= i < eif.len() - 4,
    ensures
        without_crc(eif).len() == eif.len() - 4,
        without_crc(eif)[i] == if i < 544 {
            eif[i]
        } else {
            eif[i + 4]
        },
{
}

/// The flag of the architecture is one for `aarch64` and nothing for any other
/// name.
pub proof fn law_arch_flags(target_arch: Seq<char>)
    ensures
        arch_flags("aarch64"@) == 1,
        target_arch != "aarch64"@ ==> arch_flags(target_arch) == 0,
{
}

/// An image of a kernel and a command line of these lengths has so many bytes.
pub proof fn law_image_len(kernel_len: nat, cmdline_len: nat)
    ensures
        image_len(kernel_len, cmdline_len) == 707 + kernel_len + cmdline_len,
{
}

/// A message names the step that failed, and ends in what was reported of it.
pub proof fn law_messages(source: String)
    ensures
        EifError::ReadKernel(source).message_text() == "failed to read kernel: "@ + source@,
        EifError::WriteOutput(source).message_text() == "failed to write EIF: "@ + source@,
        EifError::EmptyKernel.message_text() == "kernel image is empty"@,
{
}

} // verus!
