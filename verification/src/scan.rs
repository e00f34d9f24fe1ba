//! Locating the mapped-file note and dispatching on the container's word size.
//!
//! The container dispatcher routes 32- and 64-bit ELF files through the same
//! scanning logic, checks the core-dump file type early, and the scanner walks
//! the program headers in file order for the first note of the mapped-file
//! type inside a note segment.

use crate::elf::detect_class;
use crate::elf::elf_class_of;
use crate::elf::header32_of;
use crate::elf::header64_of;
use crate::elf::read_header32;
use crate::elf::read_header64;
use crate::elf::read_segments32;
use crate::elf::read_segments64;
use crate::elf::ElfClass;
use crate::elf::ElfSegment;
use crate::elf::NoteModel;
use crate::elf::SegmentModel;
use crate::elf::segments32_of;
use crate::elf::segments64_of;
use crate::notes::note_well_formed;
use crate::notes::parse_backtrace_notes;
use crate::notes::table_models;
use crate::table::CoredumpNotesHeader;
use crate::CoredumpError;
use vstd::prelude::*;

verus! {

/// The ELF file-type code of a core dump.
pub const ET_CORE: u16 = 4;

/// The program-header type of a note segment.
pub const PT_NOTE: u32 = 4;

/// The note type of the mapped-file table.
pub const NT_FILE: u32 = 0x46494c45;

/// The header fields of the container under class `c`: its file type and
/// whether its declared byte order is big-endian.
pub open spec fn header_of(c: ElfClass, b: Seq<u8>) -> Option<(u16, bool)> {
    match c {
        ElfClass::Elf64 => header64_of(b),
        ElfClass::Elf32 => header32_of(b),
        ElfClass::Unsupported => None,
    }
}

/// The program headers of the container under class `c`, with their notes.
pub open spec fn segments_of(c: ElfClass, b: Seq<u8>) -> Seq<SegmentModel> {
    match c {
        ElfClass::Elf64 => segments64_of(b),
        ElfClass::Elf32 => segments32_of(b),
        ElfClass::Unsupported => Seq::empty(),
    }
}

/// The descriptor of the first note of the mapped-file type, if any.
pub open spec fn first_file_note(notes: Seq<NoteModel>) -> Option<Seq<u8>>
    decreases notes.len(),
{
    if notes.len() == 0 {
        None
    } else if notes[0].0 == NT_FILE {
        Some(notes[0].1)
    } else {
        first_file_note(notes.drop_first())
    }
}

/// The descriptor found by scanning segments from index `i` on: the first
/// mapped-file note of the first note segment that has one.
pub open spec fn scan_from(segs: Seq<SegmentModel>, i: int) -> Option<Seq<u8>>
    decreases segs.len() - i when i <= segs.len()
{
    if i < 0 || i >= segs.len() {
        None
    } else if segs[i].0 == PT_NOTE && first_file_note(segs[i].1) is Some {
        first_file_note(segs[i].1)
    } else {
        scan_from(segs, i + 1)
    }
}

/// The descriptor of the mapped-file note of the whole container, if any.
pub open spec fn mapped_note_of(c: ElfClass, b: Seq<u8>) -> Option<Seq<u8>> {
    scan_from(segments_of(c, b), 0)
}

/// What reading the frames of container bytes `b` under class `c` returns:
/// `FileFormatNotSupported` where no supported header parses, `NotCoreFile`
/// where the file type is not the core-dump type, `MissingDataSection` where
/// no mapped-file note is found or the note is malformed, and otherwise the
/// table the note describes.
pub open spec fn read_frames_post(
    c: ElfClass,
    b: Seq<u8>,
    r: Result<CoredumpNotesHeader, CoredumpError>,
) -> bool {
    match header_of(c, b) {
        None => r == Err::<CoredumpNotesHeader, CoredumpError>(
            CoredumpError::FileFormatNotSupported,
        ),
        Some((e_type, big)) => {
            if e_type != ET_CORE {
                r == Err::<CoredumpNotesHeader, CoredumpError>(CoredumpError::NotCoreFile)
            } else {
                match mapped_note_of(c, b) {
                    None => r == Err::<CoredumpNotesHeader, CoredumpError>(
                        CoredumpError::MissingDataSection,
                    ),
                    Some(desc) => {
                        &&& r is Ok <==> note_well_formed(desc, big)
                        &&& (r matches Ok(h) ==> table_models(h, desc, big))
                        &&& (r is Err ==> r == Err::<CoredumpNotesHeader, CoredumpError>(
                            CoredumpError::MissingDataSection,
                        ))
                    },
                }
            }
        },
    }
}

/// Read the container's file type and byte order under class `class`.
fn read_header(class: ElfClass, bytes: &[u8]) -> (r: Option<(u16, bool)>)
    ensures
        r == header_of(class, bytes@),
{
    match class {
        ElfClass::Elf64 => read_header64(bytes),
        ElfClass::Elf32 => read_header32(bytes),
        ElfClass::Unsupported => None,
    }
}

/// Read the container's program headers and their notes under class `class`.
fn read_segments(class: ElfClass, bytes: &[u8]) -> (r: Vec<ElfSegment>)
    ensures
        r@.map_values(|s: ElfSegment| s@) == segments_of(class, bytes@),
{
    match class {
        ElfClass::Elf64 => read_segments64(bytes),
        ElfClass::Elf32 => read_segments32(bytes),
        ElfClass::Unsupported => {
            let r = Vec::<ElfSegment>::new();
            proof {
                assert(r@.map_values(|s: ElfSegment| s@) =~= Seq::<SegmentModel>::empty());
            }
            r
        },
    }
}

/// Verify that the container of class `class` is a core dump, find its
/// mapped-file note, and decode the note into the mapping table.
#[verifier::loop_isolation(false)]
pub fn read_frames(class: ElfClass, bytes: &[u8]) -> (r: Result<
    CoredumpNotesHeader,
    CoredumpError,
>)
    ensures
        read_frames_post(class, bytes@, r),
{
    let header = read_header(class, bytes);
    let (e_type, big) = match header {
        Some(p) => p,
        None => {
            return Err(CoredumpError::FileFormatNotSupported);
        },
    };
    if e_type != ET_CORE {
        return Err(CoredumpError::NotCoreFile);
    }
    let segments = read_segments(class, bytes);
    let ghost segs = segments@.map_values(|s: ElfSegment| s@);
    let n = segments.len();
    let mut i: usize = 0;
    while i < n
        invariant
            n == segments@.len(),
            segs == segments@.map_values(|s: ElfSegment| s@),
            segs == segments_of(class, bytes@),
            header_of(class, bytes@) == Some((e_type, big)),
            e_type == ET_CORE,
            i <= n,
            scan_from(segs, 0) == scan_from(segs, i as int),
        decreases n - i,
    {
        if segments[i].p_type == PT_NOTE {
            let notes = &segments[i].notes;
            let ghost note_models = segs[i as int].1;
            proof {
                assert(segs[i as int] == segments@[i as int]@);
            }
            proof {
                assert(note_models.skip(0) =~= note_models);
            }
            let m = notes.len();
            let mut j: usize = 0;
            while j < m
                invariant
                    j <= m,
                    first_file_note(note_models) == first_file_note(
                        note_models.skip(j as int),
                    ),
                decreases m - j,
            {
                if notes[j].n_type == NT_FILE {
                    proof {
                        assert(note_models.skip(j as int)[0] == note_models[j as int]);
                        assert(first_file_note(note_models) == Some(notes@[j as int].desc@));
                        assert(scan_from(segs, i as int) == first_file_note(note_models));
                    }
                    return parse_backtrace_notes(notes[j].desc.as_slice(), big);
                }
                proof {
                    assert(note_models.skip(j as int)[0] == note_models[j as int]);
                    assert(note_models.skip(j as int).drop_first() =~= note_models.skip(
                        j + 1,
                    ));
                }
                j += 1;
            }
            proof {
                assert(note_models.skip(m as int).len() == 0);
                assert(first_file_note(note_models) is None);
                assert(scan_from(segs, i as int) == scan_from(segs, i + 1));
            }
        } else {
            proof {
                assert(segs[i as int] == segments@[i as int]@);
                assert(scan_from(segs, i as int) == scan_from(segs, i + 1));
            }
        }
        i += 1;
    }
    proof {
        assert(scan_from(segs, n as int) is None);
    }
    Err(CoredumpError::MissingDataSection)
}

/// Detect the container's class from the file bytes and read its mapping
/// table: the container dispatcher of the pipeline. Bytes that are not a
/// recognized 32- or 64-bit ELF container fail with `FileFormatNotSupported`
/// before anything else is looked at.
pub fn parse_coredump_bytes(bytes: &[u8]) -> (r: Result<CoredumpNotesHeader, CoredumpError>)
    ensures
        read_frames_post(elf_class_of(bytes@), bytes@, r),
        elf_class_of(bytes@) == ElfClass::Unsupported ==> r == Err::<
            CoredumpNotesHeader,
            CoredumpError,
        >(CoredumpError::FileFormatNotSupported),
        header_of(elf_class_of(bytes@), bytes@) matches Some(p) && p.0 != ET_CORE ==> r == Err::<
            CoredumpNotesHeader,
            CoredumpError,
        >(CoredumpError::NotCoreFile),
        header_of(elf_class_of(bytes@), bytes@) matches Some(p) && p.0 == ET_CORE
            && mapped_note_of(elf_class_of(bytes@), bytes@) is None ==> r == Err::<
            CoredumpNotesHeader,
            CoredumpError,
        >(CoredumpError::MissingDataSection),
{
    let class = detect_class(bytes);
    read_frames(class, bytes)
}

/// Width-agnostic decoding: a 32-bit-class container and a 64-bit-class
/// container that declare the same byte order, are both core dumps, and carry
/// the same mapped-file note bytes lead to tables that agree entry for entry.
pub proof fn lemma_width_agnostic(
    b32: Seq<u8>,
    b64: Seq<u8>,
    big: bool,
    r32: Result<CoredumpNotesHeader, CoredumpError>,
    r64: Result<CoredumpNotesHeader, CoredumpError>,
)
    requires
        header_of(ElfClass::Elf32, b32) == Some((ET_CORE, big)),
        header_of(ElfClass::Elf64, b64) == Some((ET_CORE, big)),
        mapped_note_of(ElfClass::Elf32, b32) is Some,
        mapped_note_of(ElfClass::Elf32, b32) == mapped_note_of(ElfClass::Elf64, b64),
        read_frames_post(ElfClass::Elf32, b32, r32),
        read_frames_post(ElfClass::Elf64, b64, r64),
    ensures
        r32 is Ok <==> r64 is Ok,
        r32 is Err ==> r32 == r64,
        r32 is Ok && r64 is Ok ==> {
            let h32 = r32->Ok_0;
            let h64 = r64->Ok_0;
            &&& h32.page_size == h64.page_size
            &&& h32.frames@.len() == h64.frames@.len()
            &&& forall|i: int|
                0 <= i < h32.frames@.len() ==> {
                    &&& (#[trigger] h32.frames@[i]).start == h64.frames@[i].start
                    &&& h32.frames@[i].end == h64.frames@[i].end
                    &&& h32.frames@[i].offset == h64.frames@[i].offset
                    &&& h32.frames@[i].name@ == h64.frames@[i].name@
                }
        },
{
    let desc = mapped_note_of(ElfClass::Elf32, b32).unwrap();
    if r32 is Ok && r64 is Ok {
        let h32 = r32.unwrap();
        let h64 = r64.unwrap();
        assert(table_models(h32, desc, big));
        assert(table_models(h64, desc, big));
        assert forall|i: int| 0 <= i < h32.frames@.len() implies {
            &&& (#[trigger] h32.frames@[i]).start == h64.frames@[i].start
            &&& h32.frames@[i].end == h64.frames@[i].end
            &&& h32.frames@[i].offset == h64.frames@[i].offset
            &&& h32.frames@[i].name@ == h64.frames@[i].name@
        } by {
            assert(crate::notes::entry_models(h32.frames@[i], desc, big, i));
            assert(crate::notes::entry_models(h64.frames@[i], desc, big, i));
        }
    }
}

} // verus!
