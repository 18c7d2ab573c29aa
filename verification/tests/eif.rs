use twoliter_tools::eif::{
    assemble, build_eif, build_metadata, eif_arch_flags, image_checksum, image_size, seal,
    write_section, EifError, DEFAULT_CMDLINE, DEFAULT_PCIE_FLAGS, EIF_CRC32_OFFSET,
    EIF_HDR_FLAG_PCIE, EIF_HDR_FLAG_PCIE_VIRTIO, EIF_HDR_VERSION, EIF_HEADER_SIZE, EIF_MAGIC,
};

fn u64_at(eif: &[u8], start: usize) -> u64 {
    u64::from_be_bytes(eif[start..start + 8].try_into().unwrap())
}

fn sidecar() -> Vec<u8> {
    build_eif(b"FAKE_KERNEL", "console=ttyS0", 512 << 20, 2, DEFAULT_PCIE_FLAGS, "x86_64").unwrap()
}

#[test]
fn test_build_eif() {
    let eif = sidecar();
    assert_eq!(&eif[0..4], &EIF_MAGIC);
    assert_eq!(u16::from_be_bytes([eif[4], eif[5]]), EIF_HDR_VERSION);

    // Verify CRC
    let stored_crc =
        u32::from_be_bytes(eif[EIF_CRC32_OFFSET..EIF_CRC32_OFFSET + 4].try_into().unwrap());
    let mut hasher = crc32fast::Hasher::new();
    hasher.update(&eif[..EIF_CRC32_OFFSET]);
    hasher.update(&eif[EIF_CRC32_OFFSET + 4..]);
    assert_eq!(hasher.finalize(), stored_crc);
}

#[test]
fn test_empty_kernel_error() {
    let result = build_eif(b"", "", 512 << 20, 2, 0, "x86_64");
    assert!(matches!(result, Err(EifError::EmptyKernel)));
}

#[test]
fn checksum_has_the_known_value() {
    let eif = sidecar();
    assert_eq!(eif.len(), 731);
    assert_eq!(&eif[544..548], &CRC_X86_64.to_be_bytes());
    let arm =
        build_eif(b"FAKE_KERNEL", "console=ttyS0", 512 << 20, 2, DEFAULT_PCIE_FLAGS, "aarch64")
            .unwrap();
    assert_eq!(&arm[544..548], &CRC_AARCH64.to_be_bytes());
}

const CRC_X86_64: u32 = 0x9b80875d;
const CRC_AARCH64: u32 = 0xd2f449d9;

#[test]
fn checksum_leaves_its_own_field_out() {
    let mut eif = vec![0u8; 548];
    eif.extend_from_slice(b"123456789");
    let mut data = vec![0u8; 544];
    data.extend_from_slice(b"123456789");
    assert_eq!(image_checksum(&eif), crc32fast::hash(&data));
    eif[544] = 0xff;
    eif[547] = 0x01;
    assert_eq!(image_checksum(&eif), crc32fast::hash(&data));
    eif[548] = b'0';
    assert_ne!(image_checksum(&eif), crc32fast::hash(&data));
}

/// The checksum by its definition, one bit at a time.
fn crc_by_bits(data: &[u8]) -> u32 {
    let mut state: u32 = 0xffff_ffff;
    for byte in data {
        state ^= *byte as u32;
        for _ in 0..8 {
            state = if state & 1 == 1 { (state >> 1) ^ 0xedb8_8320 } else { state >> 1 };
        }
    }
    !state
}

#[test]
fn checksum_is_the_ieee_one() {
    assert_eq!(crc_by_bits(b"123456789"), 0xcbf4_3926);
    let mut eif = vec![0u8; 548];
    eif.extend_from_slice(b"123456789");
    assert_eq!(image_checksum(&eif), 0x202b_495e);
    // Lengths around the block sizes that the checksum is computed in, and a large one.
    for extra in [0usize, 1, 3, 4, 7, 8, 15, 16, 17, 63, 64, 65, 127, 128, 255, 256, 1023, 4096, 70000] {
        let eif: Vec<u8> = (0..548 + extra).map(|i| (i * 37 + i / 256) as u8).collect();
        let mut data = eif[..544].to_vec();
        data.extend_from_slice(&eif[548..]);
        assert_eq!(image_checksum(&eif), crc_by_bits(&data), "{}", extra);
    }
}

#[test]
fn header_fields_stand_where_they_belong() {
    let eif = build_eif(b"K", "", 0x0102030405060708, 0x1112131415161718, 0x0240, "aarch64").unwrap();
    assert_eq!(
        &eif[..28],
        &[
            0x2e, 0x65, 0x69, 0x66, 0x00, 0x04, 0x02, 0x41, 1, 2, 3, 4, 5, 6, 7, 8, 0x11, 0x12, 0x13,
            0x14, 0x15, 0x16, 0x17, 0x18, 0, 0, 0, 4
        ]
    );
    assert_eq!(&eif[540..544], &[0, 0, 0, 0]);
}

#[test]
fn sections_are_found_through_the_tables() {
    let eif = sidecar();
    let metadata = build_metadata();
    let data: [&[u8]; 4] = [b"FAKE_KERNEL", b"console=ttyS0", b"", metadata.as_bytes()];
    let types: [u8; 4] = [1, 2, 3, 5];
    let offsets: [u64; 4] = [548, 571, 596, 608];
    for i in 0..4 {
        let offset = u64_at(&eif, 28 + 8 * i);
        let size = u64_at(&eif, 284 + 8 * i);
        assert_eq!(offset, offsets[i]);
        assert_eq!(size as usize, data[i].len());
        let start = offset as usize;
        assert_eq!(&eif[start..start + 4], &[0, types[i], 0, 0]);
        assert_eq!(u64_at(&eif, start + 4), size);
        assert_eq!(&eif[start + 12..start + 12 + size as usize], data[i]);
    }
    for i in 4..32 {
        assert_eq!(u64_at(&eif, 28 + 8 * i), 0);
        assert_eq!(u64_at(&eif, 284 + 8 * i), 0);
    }
}

#[test]
fn command_line_is_stored_as_utf8() {
    let eif = build_eif(b"K", "caf\u{e9}", 1, 1, 0, "x86_64").unwrap();
    assert_eq!(u64_at(&eif, 284 + 8), 5);
    let start = u64_at(&eif, 28 + 8) as usize + 12;
    assert_eq!(std::str::from_utf8(&eif[start..start + 5]).unwrap(), "caf\u{e9}");
}

#[test]
fn different_inputs_give_different_images() {
    let base = build_eif(b"K", "c", 1, 1, 0, "x86_64").unwrap();
    assert_ne!(base, build_eif(b"L", "c", 1, 1, 0, "x86_64").unwrap());
    assert_ne!(base, build_eif(b"K", "d", 1, 1, 0, "x86_64").unwrap());
    assert_ne!(base, build_eif(b"K", "c", 2, 1, 0, "x86_64").unwrap());
    assert_ne!(base, build_eif(b"K", "c", 1, 2, 0, "x86_64").unwrap());
    assert_ne!(base, build_eif(b"K", "c", 1, 1, 64, "x86_64").unwrap());
    assert_ne!(base, build_eif(b"K", "c", 1, 1, 0, "aarch64").unwrap());
    // An architecture bit among the other flags cannot be told from the architecture's own.
    assert_eq!(
        build_eif(b"K", "c", 1, 1, 1, "x86_64").unwrap(),
        build_eif(b"K", "c", 1, 1, 0, "aarch64").unwrap()
    );
}

#[test]
fn an_assembled_image_lacks_only_its_checksum() {
    let sealed = sidecar();
    let mut eif =
        assemble(b"FAKE_KERNEL", "console=ttyS0", 512 << 20, 2, DEFAULT_PCIE_FLAGS, "x86_64");
    assert_eq!(&eif[544..548], &[0, 0, 0, 0]);
    let crc = image_checksum(&eif);
    seal(&mut eif, crc);
    assert_eq!(eif, sealed);
}

#[test]
fn seal_writes_four_bytes() {
    let mut eif = vec![7u8; 550];
    seal(&mut eif, 0x01020304);
    assert_eq!(&eif[543..549], &[7, 1, 2, 3, 4, 7]);
    assert_eq!(eif.len(), 550);
}

#[test]
fn write_section_appends_header_and_data() {
    let mut eif = vec![9u8];
    write_section(&mut eif, 0x0102, b"abc");
    assert_eq!(eif, vec![9, 1, 2, 0, 0, 0, 0, 0, 0, 0, 0, 0, 3, b'a', b'b', b'c']);
}

#[test]
fn only_aarch64_has_its_own_flag() {
    assert_eq!(eif_arch_flags("aarch64"), 1);
    assert_eq!(eif_arch_flags("x86_64"), 0);
    assert_eq!(eif_arch_flags("riscv64"), 0);
    assert_eq!(eif_arch_flags(""), 0);
}

#[test]
fn metadata_names_the_image() {
    assert_eq!(
        build_metadata(),
        "{\"ImageName\":\"bottlerocket-sidecar\",\"ImageVersion\":\"\",\"BuildMetadata\":{},\
         \"DockerInfo\":{},\"CustomMetadata\":null}"
    );
}

#[test]
fn image_size_is_the_length_or_nothing() {
    assert_eq!(image_size(11, 13), Some(731));
    assert_eq!(image_size(0, 0), Some(707));
    assert_eq!(image_size(usize::MAX - 707, 0), Some(usize::MAX));
    assert_eq!(image_size(usize::MAX - 706, 0), None);
    assert_eq!(image_size(usize::MAX, usize::MAX), None);
    assert_eq!(EIF_HEADER_SIZE, 548);
}

#[test]
fn errors_have_messages() {
    assert_eq!(
        EifError::ReadKernel("no such file".to_string()).message(),
        "failed to read kernel: no such file"
    );
    assert_eq!(
        EifError::WriteOutput("disk full".to_string()).message(),
        "failed to write EIF: disk full"
    );
    assert_eq!(EifError::EmptyKernel.message(), "kernel image is empty");
}

#[test]
fn defaults_are_those_of_the_sidecar() {
    assert_eq!(EIF_HDR_FLAG_PCIE, 0x0040);
    assert_eq!(EIF_HDR_FLAG_PCIE_VIRTIO, 0x0200);
    assert_eq!(DEFAULT_PCIE_FLAGS, 0x0240);
    assert_eq!(
        DEFAULT_CMDLINE,
        "initcall_blacklist=i8042_init console=ttyS0 root=/dev/vda rw"
    );
}
