use inquire::FileData;
use inquire::Lstat;
use inquire::read_dynamic_dependencies;

fn put_u16(v: &mut Vec<u8>, at: usize, x: u16) {
    v[at..at + 2].copy_from_slice(&x.to_le_bytes());
}

fn put_u32(v: &mut Vec<u8>, at: usize, x: u32) {
    v[at..at + 4].copy_from_slice(&x.to_le_bytes());
}

fn put_u64(v: &mut Vec<u8>, at: usize, x: u64) {
    v[at..at + 8].copy_from_slice(&x.to_le_bytes());
}

/// A minimal 64-bit little-endian ELF with one loadable segment and a
/// dynamic section whose single DT_NEEDED entry names `libc.so.6`.
fn minimal_elf() -> Vec<u8> {
    let total: usize = 251;
    let mut v = vec![0u8; total];
    // identification: magic, 64-bit, little endian, version 1
    v[0] = 0x7F;
    v[1] = b'E';
    v[2] = b'L';
    v[3] = b'F';
    v[4] = 2;
    v[5] = 1;
    v[6] = 1;
    put_u16(&mut v, 16, 2); // e_type: executable
    put_u16(&mut v, 18, 62); // e_machine: x86-64
    put_u32(&mut v, 20, 1); // e_version
    put_u64(&mut v, 32, 64); // e_phoff: right after the header
    put_u16(&mut v, 52, 64); // e_ehsize
    put_u16(&mut v, 54, 56); // e_phentsize
    put_u16(&mut v, 56, 2); // e_phnum
    // program header 0 at 64: PT_LOAD mapping the file at address zero
    put_u32(&mut v, 64, 1); // p_type
    put_u32(&mut v, 68, 5); // p_flags: read + execute
    put_u64(&mut v, 72, 0); // p_offset
    put_u64(&mut v, 80, 0); // p_vaddr
    put_u64(&mut v, 88, 0); // p_paddr
    put_u64(&mut v, 96, total as u64); // p_filesz
    put_u64(&mut v, 104, total as u64); // p_memsz
    put_u64(&mut v, 112, 0x1000); // p_align
    // program header 1 at 120: PT_DYNAMIC over the dynamic entries
    put_u32(&mut v, 120, 2); // p_type
    put_u32(&mut v, 124, 6); // p_flags: read + write
    put_u64(&mut v, 128, 176); // p_offset
    put_u64(&mut v, 136, 176); // p_vaddr
    put_u64(&mut v, 144, 176); // p_paddr
    put_u64(&mut v, 152, 64); // p_filesz: four entries
    put_u64(&mut v, 160, 64); // p_memsz
    put_u64(&mut v, 168, 8); // p_align
    // dynamic entries at 176: NEEDED, STRTAB, STRSZ, NULL
    put_u64(&mut v, 176, 1); // DT_NEEDED
    put_u64(&mut v, 184, 1); // offset of "libc.so.6" in the string table
    put_u64(&mut v, 192, 5); // DT_STRTAB
    put_u64(&mut v, 200, 240); // its address
    put_u64(&mut v, 208, 10); // DT_STRSZ
    put_u64(&mut v, 216, 11);
    put_u64(&mut v, 224, 0); // DT_NULL
    put_u64(&mut v, 232, 0);
    // string table at 240
    v[240..251].copy_from_slice(b"\0libc.so.6\0");
    v
}

fn file_with(mode: u32, size: u64) -> FileData {
    let stat = Lstat::new(size, mode, 1000, 1000, 0, 0, 8, 4096);
    FileData::new(String::from("/tmp/binary"), stat, None)
}

#[test]
fn elf_needed_entry_is_extracted() {
    let elf = minimal_elf();
    let fd = file_with(0o100755, elf.len() as u64);
    assert_eq!(
        fd.read_dynamic_dependencies(&elf),
        Some(vec![String::from("libc.so.6")])
    );
}

#[test]
fn parser_lists_needed_entries_in_table_order() {
    // The parsing wrapper alone, without the mode and size gate.
    let elf = minimal_elf();
    assert_eq!(
        read_dynamic_dependencies(&elf),
        Some(vec![String::from("libc.so.6")])
    );
}

#[test]
fn non_executable_file_yields_none() {
    let elf = minimal_elf();
    let fd = file_with(0o100644, elf.len() as u64);
    assert_eq!(fd.read_dynamic_dependencies(&elf), None);
}

#[test]
fn plain_text_yields_none() {
    let text = b"#!/bin/sh\necho hello\n";
    let fd = file_with(0o100755, text.len() as u64);
    assert_eq!(fd.read_dynamic_dependencies(text), None);
}

#[test]
fn truncated_magic_yields_none() {
    // A valid ELF magic over a corrupt, truncated body: none, not an error.
    let mut corrupt = minimal_elf();
    corrupt.truncate(40);
    let fd = file_with(0o100755, corrupt.len() as u64);
    assert_eq!(fd.read_dynamic_dependencies(&corrupt), None);
    assert_eq!(read_dynamic_dependencies(&corrupt), None);
}

#[test]
fn size_ceiling_blocks_extraction() {
    // The status size meets the ceiling, so even valid content is never
    // parsed.
    let elf = minimal_elf();
    let fd = file_with(0o100755, 100_000_000);
    assert!(!fd.wants_dependency_scan());
    assert_eq!(fd.read_dynamic_dependencies(&elf), None);
}

#[test]
fn size_just_under_ceiling_is_allowed() {
    let elf = minimal_elf();
    let fd = file_with(0o100755, 99_999_999);
    assert!(fd.wants_dependency_scan());
    assert_eq!(
        fd.read_dynamic_dependencies(&elf),
        Some(vec![String::from("libc.so.6")])
    );
}
