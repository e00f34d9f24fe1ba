//! The ELF container collaborator.
//!
//! Reading the raw ELF container — word size, byte order, program headers and
//! the notes inside note segments — is delegated to the `object` crate. Each
//! query here is a deterministic read over the file bytes, so its outcome is
//! named by an uninterpreted function of the bytes and the trusted wrappers
//! hand the results out as plain values.

use object::read::elf::FileHeader;
use object::read::elf::ProgramHeader;
use vstd::prelude::*;

verus! {

/// The recognized container kinds: 32-bit ELF, 64-bit ELF, or anything else.
#[derive(Debug, Clone, Copy, PartialEq, Eq, Structural)]
pub enum ElfClass {
    Elf32,
    Elf64,
    Unsupported,
}

/// What one note of a note segment carries: its type code and its descriptor bytes.
pub type NoteModel = (u32, Seq<u8>);

/// What one program header carries for scanning: its segment type and the
/// notes recoverable from its segment, in order.
pub type SegmentModel = (u32, Seq<NoteModel>);

/// One note as handed out by the container reader.
pub struct ElfNote {
    pub n_type: u32,
    pub desc: Vec<u8>,
}

impl View for ElfNote {
    type V = NoteModel;

    open spec fn view(&self) -> NoteModel {
        (self.n_type, self.desc@)
    }
}

/// One program header as handed out by the container reader.
pub struct ElfSegment {
    pub p_type: u32,
    pub notes: Vec<ElfNote>,
}

impl View for ElfSegment {
    type V = SegmentModel;

    open spec fn view(&self) -> SegmentModel {
        (self.p_type, self.notes@.map_values(|n: ElfNote| n@))
    }
}

/// The container kind `object::FileKind::parse` detects in the leading bytes.
pub uninterp spec fn elf_class_of(b: Seq<u8>) -> ElfClass;

/// The file type and big-endianness of the 64-bit ELF header, or `None` where
/// the bytes do not parse as a supported 64-bit ELF header.
pub uninterp spec fn header64_of(b: Seq<u8>) -> Option<(u16, bool)>;

/// The file type and big-endianness of the 32-bit ELF header, or `None`.
pub uninterp spec fn header32_of(b: Seq<u8>) -> Option<(u16, bool)>;

/// The program headers of a 64-bit ELF image with, for each, the notes its
/// segment yields; empty where the image does not parse.
pub uninterp spec fn segments64_of(b: Seq<u8>) -> Seq<SegmentModel>;

/// The program headers of a 32-bit ELF image, as for `segments64_of`.
pub uninterp spec fn segments32_of(b: Seq<u8>) -> Seq<SegmentModel>;

/// Relies on `object::FileKind::parse`: the detected kind depends on the
/// leading bytes alone.
#[verifier::external_body]
pub(crate) fn detect_class(b: &[u8]) -> (r: ElfClass)
    ensures
        r == elf_class_of(b@),
{
    match object::FileKind::parse(b) {
        Ok(object::FileKind::Elf32) => ElfClass::Elf32,
        Ok(object::FileKind::Elf64) => ElfClass::Elf64,
        _ => ElfClass::Unsupported,
    }
}

/// Relies on `object`'s `FileHeader64`: `parse`, `endian` and `e_type` read
/// fixed header fields, so the outcome depends on the bytes alone.
#[verifier::external_body]
pub(crate) fn read_header64(b: &[u8]) -> (r: Option<(u16, bool)>)
    ensures
        r == header64_of(b@),
{
    let elf = match object::elf::FileHeader64::<object::Endianness>::parse(b) {
        Ok(e) => e,
        Err(_) => return None,
    };
    let endian = match elf.endian() {
        Ok(e) => e,
        Err(_) => return None,
    };
    Some((elf.e_type(endian).0, matches!(endian, object::Endianness::Big)))
}

/// Relies on `object`'s `FileHeader32`, as for `read_header64`.
#[verifier::external_body]
pub(crate) fn read_header32(b: &[u8]) -> (r: Option<(u16, bool)>)
    ensures
        r == header32_of(b@),
{
    let elf = match object::elf::FileHeader32::<object::Endianness>::parse(b) {
        Ok(e) => e,
        Err(_) => return None,
    };
    let endian = match elf.endian() {
        Ok(e) => e,
        Err(_) => return None,
    };
    Some((elf.e_type(endian).0, matches!(endian, object::Endianness::Big)))
}

/// Relies on `object`'s `program_headers` and note iteration: the headers in
/// file order and, per segment, the notes its iterator yields until it ends
/// or first fails, all functions of the bytes alone.
#[verifier::external_body]
pub(crate) fn read_segments64(b: &[u8]) -> (r: Vec<ElfSegment>)
    ensures
        r@.map_values(|s: ElfSegment| s@) == segments64_of(b@),
{
    let mut out = Vec::new();
    let Ok(elf) = object::elf::FileHeader64::<object::Endianness>::parse(b) else { return out };
    let Ok(endian) = elf.endian() else { return out };
    let Ok(phs) = elf.program_headers(endian, b) else { return out };
    for ph in phs {
        let mut notes = Vec::new();
        if let Ok(Some(mut it)) = ph.notes(endian, b) {
            while let Ok(Some(n)) = it.next() {
                notes.push(ElfNote { n_type: n.n_type(endian).0, desc: n.desc().to_vec() });
            }
        }
        out.push(ElfSegment { p_type: ph.p_type(endian).0, notes });
    }
    out
}

/// Relies on `object`'s `FileHeader32` program-header and note iteration, as
/// for `read_segments64`.
#[verifier::external_body]
pub(crate) fn read_segments32(b: &[u8]) -> (r: Vec<ElfSegment>)
    ensures
        r@.map_values(|s: ElfSegment| s@) == segments32_of(b@),
{
    let mut out = Vec::new();
    let Ok(elf) = object::elf::FileHeader32::<object::Endianness>::parse(b) else { return out };
    let Ok(endian) = elf.endian() else { return out };
    let Ok(phs) = elf.program_headers(endian, b) else { return out };
    for ph in phs {
        let mut notes = Vec::new();
        if let Ok(Some(mut it)) = ph.notes(endian, b) {
            while let Ok(Some(n)) = it.next() {
                notes.push(ElfNote { n_type: n.n_type(endian).0, desc: n.desc().to_vec() });
            }
        }
        out.push(ElfSegment { p_type: ph.p_type(endian).0, notes });
    }
    out
}

} // verus!
