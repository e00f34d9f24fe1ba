mod elf;
mod notes;
mod scan;
mod symbolicate;
mod table;
mod words;

pub use symbolicate::frame_resolves;
pub use symbolicate::resolved_offset;
pub use symbolicate::symbolicate_notes;
pub use symbolicate::Frame;
pub use symbolicate::StacktraceReport;
pub use symbolicate::SymbolProvider;

pub use elf::elf_class_of;
pub use elf::header32_of;
pub use elf::header64_of;
pub use elf::segments32_of;
pub use elf::segments64_of;
pub use elf::ElfClass;
pub use elf::ElfNote;
pub use elf::ElfSegment;
pub use elf::NoteModel;
pub use elf::SegmentModel;
pub use scan::first_file_note;
pub use scan::header_of;
pub use scan::lemma_width_agnostic;
pub use scan::mapped_note_of;
pub use scan::parse_coredump_bytes;
pub use scan::read_frames;
pub use scan::read_frames_post;
pub use scan::scan_from;
pub use scan::segments_of;
pub use scan::ET_CORE;
pub use scan::NT_FILE;
pub use scan::PT_NOTE;

pub use notes::entry_models;
pub use notes::first_nul;
pub use notes::lossy_utf8_of;
pub use notes::note_entry_count;
pub use notes::note_entry_end;
pub use notes::note_entry_offset;
pub use notes::note_entry_start;
pub use notes::note_page_size;
pub use notes::note_paths;
pub use notes::note_strings_region;
pub use notes::note_well_formed;
pub use notes::parse_backtrace_notes;
pub use notes::split_nul;
pub use notes::table_models;

pub use table::CoredumpNotesHeader;
pub use table::Stackframe;
pub use table::first_match;
pub use table::frame_contains;
pub use words::read_u64_at;
pub use words::u64_be_at;
pub use words::u64_le_at;
pub use words::word_at;

use vstd::prelude::*;

verus! {

/// The terminal failures of the core-dump pipeline, a closed set so that
/// callers can branch on the kind.
#[derive(Debug, Clone, Copy, PartialEq, Eq, Structural)]
pub enum CoredumpError {
    /// The bytes are not a recognized 32- or 64-bit ELF container.
    FileFormatNotSupported,
    /// No mapped-file note was found, or the note was structurally malformed.
    MissingDataSection,
    /// The symbolication stage could not proceed at all.
    SymbolizationFailed,
    /// The container is valid ELF but not a core dump.
    NotCoreFile,
}

} // verus!
