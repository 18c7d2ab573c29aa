# twoliter_tools

Two steps of an image build, with their logic verified by Verus.

- `src/eif.rs` assembles a sidecar EIF (Enclave Image Format) image: header,
  kernel, command line, empty ramdisk and metadata, under a CRC-32.
  `src/eif_laws.rs` proves what holds of every image.
- `src/hex.rs` reads the hexadecimal flags of the command line.
- `src/vendor/` vendors the dependencies of an upstream Go or Rust archive: it
  plans a run, renders its script and decides which operation comes next.
  `laws.rs` and `script_laws.rs` prove what holds of every run and script.
- `src/big_endian.rs`, `src/checksum.rs`, `src/path.rs` and `src/text.rs` are
  what these rest on.
- `app/` holds the command line and the file, environment and process access.

The library trusts `crc32fast` for CRC-32 checksums and `reqwest`'s `Url` for parsing
URLs; both stand behind one function each, whose contract says what is taken on
trust.
