//! End-to-end tests over crafted ELF core images and note descriptors.

use coredump_notes::parse_backtrace_notes;
use coredump_notes::parse_coredump_bytes;
use coredump_notes::symbolicate_notes;
use coredump_notes::CoredumpError;
use coredump_notes::CoredumpNotesHeader;
use coredump_notes::Stackframe;
use coredump_notes::SymbolProvider;

const NT_FILE: u32 = 0x46494c45;
const NT_PRSTATUS: u32 = 1;
const PT_NOTE: u32 = 4;
const ET_CORE: u16 = 4;
const ET_EXEC: u16 = 2;

/// One note record: 12-byte header, name, then descriptor, both padded to 4.
fn build_note(n_type: u32, name: &[u8], desc: &[u8]) -> Vec<u8> {
    let mut v = Vec::new();
    v.extend_from_slice(&(name.len() as u32).to_le_bytes());
    v.extend_from_slice(&(desc.len() as u32).to_le_bytes());
    v.extend_from_slice(&n_type.to_le_bytes());
    v.extend_from_slice(name);
    while v.len() % 4 != 0 {
        v.push(0);
    }
    v.extend_from_slice(desc);
    while v.len() % 4 != 0 {
        v.push(0);
    }
    v
}

/// A little-endian 64-bit ELF image with the given file type and segments.
fn build_elf64(e_type: u16, segments: &[(u32, Vec<u8>)]) -> Vec<u8> {
    let phnum = segments.len();
    let mut image = Vec::new();
    image.extend_from_slice(&[0x7f, b'E', b'L', b'F', 2, 1, 1, 0]);
    image.extend_from_slice(&[0u8; 8]);
    image.extend_from_slice(&e_type.to_le_bytes());
    image.extend_from_slice(&62u16.to_le_bytes()); // e_machine
    image.extend_from_slice(&1u32.to_le_bytes()); // e_version
    image.extend_from_slice(&0u64.to_le_bytes()); // e_entry
    image.extend_from_slice(&64u64.to_le_bytes()); // e_phoff
    image.extend_from_slice(&0u64.to_le_bytes()); // e_shoff
    image.extend_from_slice(&0u32.to_le_bytes()); // e_flags
    image.extend_from_slice(&64u16.to_le_bytes()); // e_ehsize
    image.extend_from_slice(&56u16.to_le_bytes()); // e_phentsize
    image.extend_from_slice(&(phnum as u16).to_le_bytes());
    image.extend_from_slice(&0u16.to_le_bytes()); // e_shentsize
    image.extend_from_slice(&0u16.to_le_bytes()); // e_shnum
    image.extend_from_slice(&0u16.to_le_bytes()); // e_shstrndx
    let mut data_off = (64 + 56 * phnum) as u64;
    for (p_type, seg) in segments {
        image.extend_from_slice(&p_type.to_le_bytes());
        image.extend_from_slice(&4u32.to_le_bytes()); // p_flags
        image.extend_from_slice(&data_off.to_le_bytes()); // p_offset
        image.extend_from_slice(&0u64.to_le_bytes()); // p_vaddr
        image.extend_from_slice(&0u64.to_le_bytes()); // p_paddr
        image.extend_from_slice(&(seg.len() as u64).to_le_bytes()); // p_filesz
        image.extend_from_slice(&(seg.len() as u64).to_le_bytes()); // p_memsz
        image.extend_from_slice(&4u64.to_le_bytes()); // p_align
        data_off += seg.len() as u64;
    }
    for (_, seg) in segments {
        image.extend_from_slice(seg);
    }
    image
}

/// A little-endian 32-bit ELF image with the given file type and segments.
fn build_elf32(e_type: u16, segments: &[(u32, Vec<u8>)]) -> Vec<u8> {
    let phnum = segments.len();
    let mut image = Vec::new();
    image.extend_from_slice(&[0x7f, b'E', b'L', b'F', 1, 1, 1, 0]);
    image.extend_from_slice(&[0u8; 8]);
    image.extend_from_slice(&e_type.to_le_bytes());
    image.extend_from_slice(&3u16.to_le_bytes()); // e_machine
    image.extend_from_slice(&1u32.to_le_bytes()); // e_version
    image.extend_from_slice(&0u32.to_le_bytes()); // e_entry
    image.extend_from_slice(&52u32.to_le_bytes()); // e_phoff
    image.extend_from_slice(&0u32.to_le_bytes()); // e_shoff
    image.extend_from_slice(&0u32.to_le_bytes()); // e_flags
    image.extend_from_slice(&52u16.to_le_bytes()); // e_ehsize
    image.extend_from_slice(&32u16.to_le_bytes()); // e_phentsize
    image.extend_from_slice(&(phnum as u16).to_le_bytes());
    image.extend_from_slice(&0u16.to_le_bytes()); // e_shentsize
    image.extend_from_slice(&0u16.to_le_bytes()); // e_shnum
    image.extend_from_slice(&0u16.to_le_bytes()); // e_shstrndx
    let mut data_off = (52 + 32 * phnum) as u32;
    for (p_type, seg) in segments {
        image.extend_from_slice(&p_type.to_le_bytes());
        image.extend_from_slice(&data_off.to_le_bytes()); // p_offset
        image.extend_from_slice(&0u32.to_le_bytes()); // p_vaddr
        image.extend_from_slice(&0u32.to_le_bytes()); // p_paddr
        image.extend_from_slice(&(seg.len() as u32).to_le_bytes()); // p_filesz
        image.extend_from_slice(&(seg.len() as u32).to_le_bytes()); // p_memsz
        image.extend_from_slice(&4u32.to_le_bytes()); // p_flags
        image.extend_from_slice(&4u32.to_le_bytes()); // p_align
        data_off += seg.len() as u32;
    }
    for (_, seg) in segments {
        image.extend_from_slice(seg);
    }
    image
}

/// The descriptor of a mapped-file note, little-endian.
fn mapped_desc_le(page_size: u64, entries: &[(u64, u64, u64)], paths: &[&str]) -> Vec<u8> {
    let mut v = Vec::new();
    v.extend_from_slice(&(entries.len() as u64).to_le_bytes());
    v.extend_from_slice(&page_size.to_le_bytes());
    for (start, end, offset) in entries {
        v.extend_from_slice(&start.to_le_bytes());
        v.extend_from_slice(&end.to_le_bytes());
        v.extend_from_slice(&offset.to_le_bytes());
    }
    for p in paths {
        v.extend_from_slice(p.as_bytes());
        v.push(0);
    }
    v
}

fn sample_desc() -> Vec<u8> {
    mapped_desc_le(
        0x1000,
        &[(0x1000, 0x2000, 0x0), (0x5000, 0x6000, 0x500)],
        &["/bin/a", "/lib/b.so"],
    )
}

fn assert_sample_table(table: &CoredumpNotesHeader) {
    assert_eq!(table.page_size, 0x1000);
    assert_eq!(table.frames.len(), 2);
    assert_eq!(table.frames[0].start, 0x1000);
    assert_eq!(table.frames[0].end, 0x2000);
    assert_eq!(table.frames[0].offset, 0x0);
    assert_eq!(table.frames[0].name, "/bin/a");
    assert_eq!(table.frames[1].start, 0x5000);
    assert_eq!(table.frames[1].end, 0x6000);
    assert_eq!(table.frames[1].offset, 0x500);
    assert_eq!(table.frames[1].name, "/lib/b.so");
}

struct NoSymbols;

impl SymbolProvider for NoSymbols {
    fn resolve(&self, _module: &str, _module_offset: u64) -> Option<String> {
        None
    }
}

struct OneSymbol {
    module: String,
    module_offset: u64,
    name: String,
}

impl SymbolProvider for OneSymbol {
    fn resolve(&self, module: &str, module_offset: u64) -> Option<String> {
        if module == self.module && module_offset == self.module_offset {
            Some(self.name.clone())
        } else {
            None
        }
    }
}

#[test]
fn non_elf_bytes_rejected() {
    let r = parse_coredump_bytes(b"this is not an elf file at all..");
    assert_eq!(r.unwrap_err(), CoredumpError::FileFormatNotSupported);
}

#[test]
fn empty_bytes_rejected() {
    let r = parse_coredump_bytes(&[]);
    assert_eq!(r.unwrap_err(), CoredumpError::FileFormatNotSupported);
}

#[test]
fn truncated_elf_header_rejected() {
    // Recognized as 64-bit ELF by its magic, but too short for a header.
    let r = parse_coredump_bytes(&[0x7f, b'E', b'L', b'F', 2, 1, 1, 0]);
    assert_eq!(r.unwrap_err(), CoredumpError::FileFormatNotSupported);
}

#[test]
fn executable_elf_rejected() {
    let note = build_note(NT_FILE, b"CORE\0", &sample_desc());
    let image = build_elf64(ET_EXEC, &[(PT_NOTE, note)]);
    let r = parse_coredump_bytes(&image);
    assert_eq!(r.unwrap_err(), CoredumpError::NotCoreFile);
}

#[test]
fn core_without_note_segments() {
    let image = build_elf64(ET_CORE, &[]);
    let r = parse_coredump_bytes(&image);
    assert_eq!(r.unwrap_err(), CoredumpError::MissingDataSection);
}

#[test]
fn note_segment_without_mapped_file_note() {
    let note = build_note(NT_PRSTATUS, b"CORE\0", &[0u8; 32]);
    let image = build_elf64(ET_CORE, &[(PT_NOTE, note)]);
    let r = parse_coredump_bytes(&image);
    assert_eq!(r.unwrap_err(), CoredumpError::MissingDataSection);
}

#[test]
fn decode_two_entry_note() {
    let table = parse_backtrace_notes(&sample_desc(), false).unwrap();
    assert_sample_table(&table);
}

#[test]
fn decode_big_endian_note() {
    let mut v = Vec::new();
    v.extend_from_slice(&2u64.to_be_bytes());
    v.extend_from_slice(&0x1000u64.to_be_bytes());
    for (start, end, offset) in [(0x1000u64, 0x2000u64, 0x0u64), (0x5000, 0x6000, 0x500)] {
        v.extend_from_slice(&start.to_be_bytes());
        v.extend_from_slice(&end.to_be_bytes());
        v.extend_from_slice(&offset.to_be_bytes());
    }
    v.extend_from_slice(b"/bin/a\0/lib/b.so\0");
    let table = parse_backtrace_notes(&v, true).unwrap();
    assert_sample_table(&table);
}

#[test]
fn decode_without_trailing_nul() {
    // The last path may lack its terminator; it still counts.
    let mut desc = sample_desc();
    assert_eq!(desc.pop(), Some(0));
    let table = parse_backtrace_notes(&desc, false).unwrap();
    assert_sample_table(&table);
}

#[test]
fn trailing_nul_not_an_extra_entry() {
    // Three announced entries but only two paths: the final NUL closes the
    // second path, it does not open a third.
    let mut v = Vec::new();
    v.extend_from_slice(&3u64.to_le_bytes());
    v.extend_from_slice(&0x1000u64.to_le_bytes());
    for _ in 0..3 {
        v.extend_from_slice(&[0u8; 24]);
    }
    v.extend_from_slice(b"/bin/a\0/lib/b.so\0");
    let r = parse_backtrace_notes(&v, false);
    assert_eq!(r.unwrap_err(), CoredumpError::MissingDataSection);
}

#[test]
fn truncated_descriptor_rejected() {
    // Announces two records but carries the bytes of one.
    let mut v = Vec::new();
    v.extend_from_slice(&2u64.to_le_bytes());
    v.extend_from_slice(&0x1000u64.to_le_bytes());
    v.extend_from_slice(&[0u8; 24]);
    let r = parse_backtrace_notes(&v, false);
    assert_eq!(r.unwrap_err(), CoredumpError::MissingDataSection);
}

#[test]
fn short_descriptor_rejected() {
    let r = parse_backtrace_notes(&[1, 2, 3], false);
    assert_eq!(r.unwrap_err(), CoredumpError::MissingDataSection);
}

#[test]
fn missing_path_strings_rejected() {
    let desc = mapped_desc_le(0x1000, &[(0x1000, 0x2000, 0x0), (0x5000, 0x6000, 0x500)], &[
        "/bin/a",
    ]);
    let r = parse_backtrace_notes(&desc, false);
    assert_eq!(r.unwrap_err(), CoredumpError::MissingDataSection);
}

#[test]
fn parse_core_elf64_end_to_end() {
    let note = build_note(NT_FILE, b"CORE\0", &sample_desc());
    let image = build_elf64(ET_CORE, &[(PT_NOTE, note)]);
    let table = parse_coredump_bytes(&image).unwrap();
    assert_sample_table(&table);
}

#[test]
fn parse_core_elf32_end_to_end() {
    let note = build_note(NT_FILE, b"CORE\0", &sample_desc());
    let image = build_elf32(ET_CORE, &[(PT_NOTE, note)]);
    let table = parse_coredump_bytes(&image).unwrap();
    assert_sample_table(&table);
}

#[test]
fn class_width_agnostic_decode() {
    let note = build_note(NT_FILE, b"CORE\0", &sample_desc());
    let t32 = parse_coredump_bytes(&build_elf32(ET_CORE, &[(PT_NOTE, note.clone())])).unwrap();
    let t64 = parse_coredump_bytes(&build_elf64(ET_CORE, &[(PT_NOTE, note)])).unwrap();
    assert_eq!(t32.page_size, t64.page_size);
    assert_eq!(t32.frames.len(), t64.frames.len());
    for (a, b) in t32.frames.iter().zip(t64.frames.iter()) {
        assert_eq!(a.start, b.start);
        assert_eq!(a.end, b.end);
        assert_eq!(a.offset, b.offset);
        assert_eq!(a.name, b.name);
    }
}

#[test]
fn first_note_segment_wins() {
    // Two mapped-file notes; the first in file order is taken.
    let first = build_note(NT_FILE, b"CORE\0", &sample_desc());
    let second = build_note(
        NT_FILE,
        b"CORE\0",
        &mapped_desc_le(0x2000, &[(0x9000, 0xa000, 0x0)], &["/bin/z"]),
    );
    let image = build_elf64(ET_CORE, &[(PT_NOTE, first), (PT_NOTE, second)]);
    let table = parse_coredump_bytes(&image).unwrap();
    assert_sample_table(&table);
}

#[test]
fn find_resolution_boundaries() {
    let table = parse_backtrace_notes(&sample_desc(), false).unwrap();
    let hit = table.find(0x1000).unwrap();
    assert_eq!((hit.start, hit.name.as_str()), (0x1000, "/bin/a"));
    let hit = table.find(0x1fff).unwrap();
    assert_eq!((hit.start, hit.name.as_str()), (0x1000, "/bin/a"));
    assert!(table.find(0x2000).is_none());
    assert!(table.find(0x4000).is_none());
    let hit = table.find(0x5500).unwrap();
    assert_eq!((hit.start, hit.name.as_str()), (0x5000, "/lib/b.so"));
}

#[test]
fn overlapping_ranges_first_entry_wins() {
    let desc = mapped_desc_le(0x1000, &[(0x1000, 0x3000, 0x0), (0x2000, 0x4000, 0x100)], &[
        "/bin/a",
        "/bin/b",
    ]);
    let table = parse_backtrace_notes(&desc, false).unwrap();
    let hit = table.find(0x2500).unwrap();
    assert_eq!(hit.name, "/bin/a");
}

#[test]
fn second_entry_module_offset() {
    let table = parse_backtrace_notes(&sample_desc(), false).unwrap();
    let frames = symbolicate_notes(&table, &vec![0x5500], &NoSymbols).unwrap();
    assert_eq!(frames.len(), 1);
    assert_eq!(frames[0].address, 0x5500);
    assert_eq!(frames[0].module_offset, Some(0xa00));
    assert_eq!(frames[0].module.as_deref(), Some("/lib/b.so"));
    assert_eq!(frames[0].symbol, None);
}

#[test]
fn empty_addresses_yield_empty_frames() {
    let table = parse_backtrace_notes(&sample_desc(), false).unwrap();
    let frames = symbolicate_notes(&table, &Vec::new(), &NoSymbols).unwrap();
    assert!(frames.is_empty());
    let empty = CoredumpNotesHeader::new(0);
    let frames = symbolicate_notes(&empty, &Vec::new(), &NoSymbols).unwrap();
    assert!(frames.is_empty());
}

#[test]
fn unmatched_address_yields_raw_frame() {
    let table = parse_backtrace_notes(&sample_desc(), false).unwrap();
    let frames = symbolicate_notes(&table, &vec![0x4000], &NoSymbols).unwrap();
    assert_eq!(frames.len(), 1);
    assert_eq!(frames[0].address, 0x4000);
    assert_eq!(frames[0].module_offset, None);
    assert_eq!(frames[0].module, None);
    assert_eq!(frames[0].symbol, None);
}

#[test]
fn symbol_hit_populates_frame() {
    let table = parse_backtrace_notes(&sample_desc(), false).unwrap();
    let provider = OneSymbol {
        module: String::from("/lib/b.so"),
        module_offset: 0xa00,
        name: String::from("handle_request"),
    };
    let frames = symbolicate_notes(&table, &vec![0x5500, 0x1004], &provider).unwrap();
    assert_eq!(frames.len(), 2);
    assert_eq!(frames[0].symbol.as_deref(), Some("handle_request"));
    assert_eq!(frames[1].module.as_deref(), Some("/bin/a"));
    assert_eq!(frames[1].module_offset, Some(0x4));
    assert_eq!(frames[1].symbol, None);
}

#[test]
fn assemble_report() {
    let table = parse_backtrace_notes(&sample_desc(), false).unwrap();
    let frames = symbolicate_notes(&table, &vec![0x1000], &NoSymbols).unwrap();
    let report = coredump_notes::StacktraceReport::new(
        vec![(String::from("rip"), 0x1000u64)],
        frames,
        Some(3),
    );
    assert_eq!(report.registers.len(), 1);
    assert_eq!(report.registers[0].0, "rip");
    assert_eq!(report.registers[0].1, 0x1000);
    assert_eq!(report.frames.len(), 1);
    assert_eq!(report.frames_omitted, Some(3));
}

#[test]
fn build_table_by_hand() {
    let mut table = CoredumpNotesHeader::new(0x1000);
    assert_eq!(table.frames.len(), 0);
    table.add_frame(Stackframe {
        start: 0x1000,
        end: 0x2000,
        offset: 0,
        name: String::from("/bin/a"),
    });
    assert_eq!(table.frames.len(), 1);
    assert_eq!(table.page_size, 0x1000);
    assert_eq!(table.find(0x1000).unwrap().name, "/bin/a");
}
