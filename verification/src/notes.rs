//! Decoding the mapped-file note's descriptor bytes.
//!
//! The descriptor holds, in the container's byte order: an entry count, a page
//! size, `entry_count` fixed records of three 64-bit words `(start, end,
//! file_offset)`, and then `entry_count` NUL-terminated path strings,
//! concatenated in record order.

use crate::table::CoredumpNotesHeader;
use crate::table::Stackframe;
use crate::words::read_u64_at;
use crate::words::word_at;
use crate::CoredumpError;
use vstd::prelude::*;

verus! {

/// The index of the first NUL byte of `b`, or `b.len()` if there is none.
pub open spec fn first_nul(b: Seq<u8>) -> nat
    decreases b.len(),
{
    if b.len() == 0 {
        0
    } else if b[0] == 0 {
        0
    } else {
        1 + first_nul(b.drop_first())
    }
}

/// `first_nul` is exactly the least NUL position.
pub proof fn lemma_first_nul_is(b: Seq<u8>, i: int)
    requires
        0 <= i <= b.len(),
        forall|k: int| 0 <= k < i ==> b[k] != 0,
        i < b.len() ==> b[i] == 0,
    ensures
        first_nul(b) == i,
    decreases b.len(),
{
    if b.len() == 0 {
    } else if i == 0 {
    } else {
        assert(b[0] != 0);
        assert(forall|k: int| 0 <= k < i - 1 ==> b.drop_first()[k] == b[k + 1] && b[k + 1] != 0);
        lemma_first_nul_is(b.drop_first(), i - 1);
    }
}

/// The NUL-separated segments of `b`, in order. A final NUL terminator closes
/// the last segment without opening an empty one after it.
pub open spec fn split_nul(b: Seq<u8>) -> Seq<Seq<u8>>
    decreases b.len(),
{
    if b.len() == 0 {
        seq![]
    } else {
        let i = first_nul(b) as int;
        if i >= b.len() {
            seq![b]
        } else {
            seq![b.take(i)] + split_nul(b.skip(i + 1))
        }
    }
}

/// The number of mapping records the descriptor announces.
pub open spec fn note_entry_count(desc: Seq<u8>, big: bool) -> nat
    recommends
        desc.len() >= 16,
{
    word_at(desc, 0, big)
}

/// The page size recorded beside the entry count; informational only.
pub open spec fn note_page_size(desc: Seq<u8>, big: bool) -> nat
    recommends
        desc.len() >= 16,
{
    word_at(desc, 8, big)
}

/// The bytes after the fixed records: the concatenated path strings.
pub open spec fn note_strings_region(desc: Seq<u8>, big: bool) -> Seq<u8>
    recommends
        desc.len() >= 16,
        16 + 24 * note_entry_count(desc, big) <= desc.len(),
{
    desc.skip(16 + 24 * note_entry_count(desc, big) as int)
}

/// The path strings the descriptor carries, as raw byte segments.
pub open spec fn note_paths(desc: Seq<u8>, big: bool) -> Seq<Seq<u8>> {
    split_nul(note_strings_region(desc, big))
}

/// Whether the descriptor is complete: long enough for its header and all its
/// fixed records, with a recoverable path string for every record.
pub open spec fn note_well_formed(desc: Seq<u8>, big: bool) -> bool {
    &&& desc.len() >= 16
    &&& 16 + 24 * note_entry_count(desc, big) <= desc.len()
    &&& note_paths(desc, big).len() >= note_entry_count(desc, big)
}

/// The `start` word of fixed record `i`.
pub open spec fn note_entry_start(desc: Seq<u8>, big: bool, i: int) -> nat {
    word_at(desc, 16 + 24 * i, big)
}

/// The `end` word of fixed record `i`.
pub open spec fn note_entry_end(desc: Seq<u8>, big: bool, i: int) -> nat {
    word_at(desc, 16 + 24 * i + 8, big)
}

/// The `file_offset` word of fixed record `i`.
pub open spec fn note_entry_offset(desc: Seq<u8>, big: bool, i: int) -> nat {
    word_at(desc, 16 + 24 * i + 16, big)
}

/// Text decoded from arbitrary bytes by `String::from_utf8_lossy`: a function
/// of the bytes alone, never a failure.
pub uninterp spec fn lossy_utf8_of(b: Seq<u8>) -> Seq<char>;

/// Relies on `String::from_utf8_lossy`: the decoded text depends on the bytes
/// alone, with invalid sequences replaced rather than rejected.
#[verifier::external_body]
fn lossy_string(b: &[u8]) -> (r: String)
    ensures
        r@ == lossy_utf8_of(b@),
{
    String::from_utf8_lossy(b).into_owned()
}

/// Whether `f` is exactly the mapping entry that fixed record `i` of the
/// descriptor describes: its three words and the path string of rank `i`.
pub open spec fn entry_models(f: Stackframe, desc: Seq<u8>, big: bool, i: int) -> bool {
    &&& f.start as nat == note_entry_start(desc, big, i)
    &&& f.end as nat == note_entry_end(desc, big, i)
    &&& f.offset as nat == note_entry_offset(desc, big, i)
    &&& f.name@ == lossy_utf8_of(note_paths(desc, big)[i])
}

/// Whether `h` is exactly the table the descriptor describes: the recorded
/// page size, one entry per fixed record in record order.
pub open spec fn table_models(h: CoredumpNotesHeader, desc: Seq<u8>, big: bool) -> bool {
    &&& h.page_size as nat == note_page_size(desc, big)
    &&& h.frames@.len() == note_entry_count(desc, big)
    &&& forall|i: int|
        0 <= i < h.frames@.len() ==> entry_models(#[trigger] h.frames@[i], desc, big, i)
}

/// Decode a mapped-file note descriptor into the mapping table, reading its
/// words in the byte order selected by `big`. A descriptor too short for its
/// announced records, or with fewer recoverable path strings than records, is
/// rejected whole rather than decoded into a partial table.
pub fn parse_backtrace_notes(desc: &[u8], big: bool) -> (r: Result<
    CoredumpNotesHeader,
    CoredumpError,
>)
    ensures
        r is Ok <==> note_well_formed(desc@, big),
        r matches Ok(h) ==> table_models(h, desc@, big),
        r is Err ==> r == Err::<CoredumpNotesHeader, CoredumpError>(
            CoredumpError::MissingDataSection,
        ),
        desc@.len() >= 16 && desc@.len() < 16 + 24 * note_entry_count(desc@, big) ==> r is Err,
{
    let n = desc.len();
    if n < 16 {
        return Err(CoredumpError::MissingDataSection);
    }
    let count64 = read_u64_at(desc, 0, big);
    let page_size = read_u64_at(desc, 8, big);
    let limit = (n - 16) / 24;
    if count64 > limit as u64 {
        proof {
            assert(note_entry_count(desc@, big) == count64 as nat);
            assert(24 * ((n - 16) / 24) <= n - 16) by (nonlinear_arith)
                requires
                    n >= 16,
            ;
        }
        return Err(CoredumpError::MissingDataSection);
    }
    let count = count64 as usize;
    proof {
        assert(24 * count64 <= 24 * ((n - 16) as int / 24)) by (nonlinear_arith)
            requires
                count64 <= (n - 16) as int / 24,
        ;
        assert(24 * ((n - 16) as int / 24) <= n - 16) by (nonlinear_arith)
            requires
                n >= 16,
        ;
    }
    let strings_start = 16 + count * 24;
    let ghost region = desc@.skip(strings_start as int);
    proof {
        assert(region == note_strings_region(desc@, big));
    }
    let mut table = CoredumpNotesHeader::new(page_size);
    let mut pos = strings_start;
    let mut k: usize = 0;
    while k < count
        invariant
            16 <= strings_start <= pos <= n,
            n == desc@.len(),
            count == note_entry_count(desc@, big),
            strings_start == 16 + 24 * count,
            region == desc@.skip(strings_start as int),
            region == note_strings_region(desc@, big),
            k <= count,
            split_nul(region).skip(k as int) =~= split_nul(desc@.skip(pos as int)),
            split_nul(region).len() >= k,
            table.page_size == page_size,
            page_size as nat == note_page_size(desc@, big),
            table.frames@.len() == k,
            forall|i: int| 0 <= i < k ==> entry_models(#[trigger] table.frames@[i], desc@, big, i),
        decreases count - k,
    {
        if pos >= n {
            proof {
                assert(desc@.skip(pos as int).len() == 0);
                assert(split_nul(desc@.skip(pos as int)).len() == 0);
                assert(split_nul(region).len() == k);
            }
            return Err(CoredumpError::MissingDataSection);
        }
        let ghost rest = desc@.skip(pos as int);
        let mut j = pos;
        while j < n && desc[j] != 0
            invariant
                pos <= j <= n,
                n == desc@.len(),
                forall|t: int| pos <= t < j ==> desc@[t] != 0,
            decreases n - j,
        {
            j += 1;
        }
        proof {
            assert(forall|t: int| 0 <= t < j - pos ==> rest[t] == desc@[pos + t] && rest[t] != 0);
            lemma_first_nul_is(rest, j - pos);
        }
        let name = lossy_string(&desc[pos..j]);
        proof {
            assert(desc@.subrange(pos as int, j as int) =~= rest.take(j - pos));
            // The segment just consumed is the next element of the split.
            assert(split_nul(rest)[0] == rest.take(j - pos)) by {
                if j - pos == rest.len() {
                    assert(rest.take(j - pos) =~= rest);
                }
            }
            assert(split_nul(region)[k as int] == rest.take(j - pos)) by {
                assert(split_nul(region).skip(k as int)[0] == split_nul(rest)[0]);
            }
            assert(split_nul(region).len() >= k + 1) by {
                assert(split_nul(rest).len() >= 1);
                assert(split_nul(region).skip(k as int).len() == split_nul(region).len() - k);
            }
        }
        let base = 16 + k * 24;
        proof {
            assert(24 * k + 24 <= 24 * count) by (nonlinear_arith)
                requires
                    k < count,
            ;
            assert(base + 24 <= strings_start);
        }
        let start = read_u64_at(desc, base, big);
        let end = read_u64_at(desc, base + 8, big);
        let offset = read_u64_at(desc, base + 16, big);
        let frame = Stackframe { start, end, offset, name };
        proof {
            assert(note_entry_start(desc@, big, k as int) == start as nat);
            assert(note_entry_end(desc@, big, k as int) == end as nat);
            assert(note_entry_offset(desc@, big, k as int) == offset as nat);
            assert(note_paths(desc@, big)[k as int] == rest.take(j - pos));
            assert(entry_models(frame, desc@, big, k as int));
        }
        table.add_frame(frame);
        let next_pos = if j < n {
            j + 1
        } else {
            j
        };
        proof {
            // Consuming the segment (and its terminator, if present) drops
            // exactly one element of the split.
            if j < n {
                assert(rest[(j - pos) as int] == 0);
                assert(first_nul(rest) < rest.len());
                assert(split_nul(rest) == seq![rest.take(j - pos)] + split_nul(
                    rest.skip(j - pos + 1),
                ));
                assert(rest.skip(j - pos + 1) =~= desc@.skip(next_pos as int));
                assert(split_nul(rest).drop_first() =~= split_nul(desc@.skip(next_pos as int)));
            } else {
                assert(first_nul(rest) == rest.len());
                assert(split_nul(rest) == seq![rest]);
                assert(desc@.skip(next_pos as int).len() == 0);
                assert(split_nul(rest).drop_first() =~= split_nul(desc@.skip(next_pos as int)));
            }
            assert(split_nul(region).skip(k + 1) =~= split_nul(desc@.skip(next_pos as int))) by {
                assert(split_nul(region).skip(k as int).drop_first() =~= split_nul(region).skip(
                    k + 1,
                ));
                assert(split_nul(region).skip(k as int) =~= split_nul(rest));
            }
        }
        pos = next_pos;
        k += 1;
    }
    proof {
        assert(note_well_formed(desc@, big));
        assert(table_models(table, desc@, big));
    }
    Ok(table)
}

} // verus!
