//! Resolving raw addresses against the mapping table.
//!
//! Each address is looked up in the table; a hit yields the backing module's
//! path and the module-relative offset, and the external symbol provider is
//! asked for a name. A provider miss degrades the single frame, never the
//! whole pass; an address outside every mapping yields a frame that carries
//! only the raw address.

use crate::table::first_match;
use crate::table::frame_contains;
use crate::table::CoredumpNotesHeader;
use crate::table::Stackframe;
use crate::CoredumpError;
use vstd::prelude::*;

verus! {

/// The external collaborator that looks symbol names up, typically backed by
/// debug metadata or a symbol store. It may always answer `None`; nothing in
/// the pipeline depends on it succeeding.
pub trait SymbolProvider {
    /// The symbol name at `module_offset` inside the module backed by the
    /// file at `module`, if the provider knows one.
    fn resolve(&self, module: &str, module_offset: u64) -> Option<String>;
}

/// One resolved stack frame. Absent fields mean the address did not resolve
/// that far: no mapping entry matched, or no symbol name was known.
#[derive(Debug)]
pub struct Frame {
    pub address: u64,
    pub module_offset: Option<u64>,
    pub module: Option<String>,
    pub symbol: Option<String>,
}

/// The module-relative offset of `addr` inside mapping entry `e`: the
/// distance from the entry's start plus the entry's file offset, wrapping on
/// 64-bit overflow.
pub open spec fn resolved_offset(e: Stackframe, addr: u64) -> u64
    recommends
        frame_contains(e, addr),
{
    vstd::wrapping::u64_specs::wrapping_add((addr - e.start) as u64, e.offset)
}

/// Whether `f` is the frame that resolving `addr` against `frames` must
/// produce: the raw address always; on a table hit, the first matching
/// entry's path and the module-relative offset. Which symbol name the
/// provider answered, if any, is the provider's own affair.
pub open spec fn frame_resolves(frames: Seq<Stackframe>, addr: u64, f: Frame) -> bool {
    &&& f.address == addr
    &&& match first_match(frames, addr) {
        None => {
            &&& f.module_offset is None
            &&& f.module is None
            &&& f.symbol is None
        },
        Some(i) => {
            &&& f.module matches Some(p) && p@ == frames[i].name@
            &&& f.module_offset == Some(resolved_offset(frames[i], addr))
        },
    }
}

/// Resolve each address of `addresses`, in order, against the mapping table
/// and the symbol provider. The pass never fails: an empty address sequence
/// yields an empty frame sequence, and per-address misses only leave fields
/// of that address's frame absent.
pub fn symbolicate_notes<S: SymbolProvider>(
    notes: &CoredumpNotesHeader,
    addresses: &Vec<u64>,
    provider: &S,
) -> (r: Result<Vec<Frame>, CoredumpError>)
    ensures
        r is Ok,
        r matches Ok(frames) ==> {
            &&& frames@.len() == addresses@.len()
            &&& forall|i: int|
                0 <= i < addresses@.len() ==> frame_resolves(
                    notes.frames@,
                    addresses@[i],
                    #[trigger] frames@[i],
                )
        },
{
    let mut out: Vec<Frame> = Vec::new();
    let n = addresses.len();
    for k in 0..n
        invariant
            n == addresses@.len(),
            out@.len() == k,
            forall|i: int|
                0 <= i < k ==> frame_resolves(notes.frames@, addresses@[i], #[trigger] out@[i]),
    {
        let addr = addresses[k];
        let frame = match notes.find(addr) {
            Some(entry) => {
                proof {
                    crate::table::lemma_first_match_hit(notes.frames@, addr);
                }
                let module_offset = (addr - entry.start).wrapping_add(entry.offset);
                let symbol = provider.resolve(entry.name.as_str(), module_offset);
                Frame {
                    address: addr,
                    module_offset: Some(module_offset),
                    module: Some(entry.name.clone()),
                    symbol,
                }
            },
            None => Frame { address: addr, module_offset: None, module: None, symbol: None },
        };
        out.push(frame);
    }
    Ok(out)
}

/// The final report record: the register state supplied by the caller, the
/// resolved frames in order, and the count of frames the caller left out of a
/// truncated stack, if any.
#[derive(Debug)]
pub struct StacktraceReport {
    pub registers: Vec<(String, u64)>,
    pub frames: Vec<Frame>,
    pub frames_omitted: Option<u64>,
}

impl StacktraceReport {
    /// Assemble the report from its parts; pure structural assembly.
    pub fn new(
        registers: Vec<(String, u64)>,
        frames: Vec<Frame>,
        frames_omitted: Option<u64>,
    ) -> (r: Self)
        ensures
            r.registers == registers,
            r.frames == frames,
            r.frames_omitted == frames_omitted,
    {
        Self { registers, frames, frames_omitted }
    }
}

} // verus!
