//! Binary-safe line counting and line-diff accounting.
//!
//! A buffer is treated as binary when a null byte occurs within its first
//! 8192 bytes; binary buffers contribute no lines. Text buffers count one
//! line per newline byte, plus one for a final unterminated line.

use vstd::prelude::*;

verus! {

/// How many leading bytes the binary heuristic examines.
pub open spec fn binary_scan_len(b: Seq<u8>) -> int {
    if b.len() <= 8192 {
        b.len() as int
    } else {
        8192
    }
}

/// A buffer is binary when a null byte occurs within its first 8192 bytes.
pub open spec fn is_binary_spec(b: Seq<u8>) -> bool {
    exists|i: int| 0 <= i < binary_scan_len(b) && b[i] == 0u8
}

/// Number of newline bytes in the buffer.
pub open spec fn newline_count(b: Seq<u8>) -> nat
    decreases b.len(),
{
    if b.len() == 0 {
        0
    } else {
        newline_count(b.drop_last()) + (if b.last() == 10u8 {
            1nat
        } else {
            0nat
        })
    }
}

/// Lines reported for a buffer: zero when empty or binary; otherwise the
/// newline count, plus one when the buffer does not end with a newline.
pub open spec fn line_count_spec(b: Seq<u8>) -> nat {
    if b.len() == 0 || is_binary_spec(b) {
        0
    } else {
        newline_count(b) + (if b.last() == 10u8 {
            0nat
        } else {
            1nat
        })
    }
}

/// Saturation of a count at the 32-bit unsigned range.
pub open spec fn sat32(n: nat) -> nat {
    if n > 0xffff_ffff {
        0xffff_ffffnat
    } else {
        n
    }
}

proof fn lemma_newline_count_take_step(b: Seq<u8>, i: int)
    requires
        0 <= i < b.len(),
    ensures
        newline_count(b.take(i + 1)) == newline_count(b.take(i)) + (if b[i] == 10u8 {
            1nat
        } else {
            0nat
        }),
{
    let t = b.take(i + 1);
    assert(t.drop_last() =~= b.take(i));
    assert(t.last() == b[i]);
}

/// Adds with saturation at the 32-bit unsigned range.
pub fn sat_add_u32(a: u32, b: u32) -> (r: u32)
    ensures
        r as nat == sat32(a as nat + b as nat),
{
    if a > u32::MAX - b {
        u32::MAX
    } else {
        a + b
    }
}

/// Scans the first 8192 bytes (or all of them, if fewer) for a null byte.
pub fn is_binary(data: &Vec<u8>) -> (r: bool)
    ensures
        r == is_binary_spec(data@),
{
    let check_len: usize = if data.len() < 8192 {
        data.len()
    } else {
        8192
    };
    let mut i: usize = 0;
    while i < check_len
        invariant
            0 <= i <= check_len,
            check_len == binary_scan_len(data@),
            check_len <= data.len(),
            forall|j: int| 0 <= j < i ==> data@[j] != 0u8,
        decreases check_len - i,
    {
        if data[i] == 0 {
            return true;
        }
        i += 1;
    }
    false
}

/// Counts the lines of one buffer, treating binary content as zero lines.
/// The count saturates at the 32-bit unsigned range.
pub fn count_file_lines(data: &Vec<u8>) -> (r: u32)
    ensures
        r as nat == sat32(line_count_spec(data@)),
{
    if data.len() == 0 {
        return 0;
    }
    if is_binary(data) {
        return 0;
    }
    let mut n: u32 = 0;
    let mut i: usize = 0;
    while i < data.len()
        invariant
            0 <= i <= data@.len(),
            n as nat == sat32(newline_count(data@.take(i as int))),
        decreases data@.len() - i,
    {
        proof {
            lemma_newline_count_take_step(data@, i as int);
        }
        if data[i] == 10 {
            n = sat_add_u32(n, 1);
        }
        i += 1;
    }
    proof {
        assert(data@.take(data@.len() as int) =~= data@);
    }
    if data[data.len() - 1] != 10 {
        n = sat_add_u32(n, 1);
    }
    n
}

/// Any buffer with a null byte among its first 8192 bytes counts as zero lines.
pub proof fn lemma_binary_counts_zero(b: Seq<u8>)
    requires
        is_binary_spec(b),
    ensures
        line_count_spec(b) == 0,
{
}

/// A non-empty text buffer without a trailing newline has one more line than
/// it has newline bytes.
pub proof fn lemma_unterminated_text_adds_one(b: Seq<u8>)
    requires
        b.len() > 0,
        !is_binary_spec(b),
        b.last() != 10u8,
    ensures
        line_count_spec(b) == newline_count(b) + 1,
{
}

/// How many line tokens a buffer splits into: one per newline byte (the
/// terminator belongs to its line), plus one for a final unterminated line.
pub open spec fn text_line_count(b: Seq<u8>) -> nat {
    if b.len() == 0 {
        0
    } else {
        newline_count(b) + (if b.last() == 10u8 {
            0nat
        } else {
            1nat
        })
    }
}

/// Added and removed line counts that the histogram text diff reports for a
/// pair of buffers; the pair is (added, removed). The result depends on the
/// two buffers alone.
pub uninterp spec fn histogram_diff_counts(old: Seq<u8>, new: Seq<u8>) -> (nat, nat);

/// What a line diff of two buffers reports: nothing when either side is
/// binary, otherwise the histogram diff's (added, deleted) line counts.
pub open spec fn diff_counts_spec(old: Seq<u8>, new: Seq<u8>) -> (nat, nat) {
    if is_binary_spec(old) || is_binary_spec(new) {
        (0nat, 0nat)
    } else {
        histogram_diff_counts(old, new)
    }
}

/// Relies on gix::diff::blob::Diff::compute with the histogram algorithm over
/// line tokens: the added/removed counts are a function of the two buffers
/// alone, and equal buffers report no changes (every token is stripped as a
/// common prefix, leaving the change bitmaps all false). The change bitmaps
/// hold one flag per line token of each side, so each count is bounded by
/// that side's token count of text_line_count; unflagged tokens are matched
/// one-to-one across the sides, so the counts differ exactly as the token
/// counts do. The algorithm supports fewer than i32::MAX tokens, which the
/// byte-length bound ensures.
#[verifier::external_body]
fn histogram_line_diff(old: &Vec<u8>, new: &Vec<u8>) -> (r: (u32, u32))
    requires
        old@.len() < 0x7fff_ffff,
        new@.len() < 0x7fff_ffff,
    ensures
        (r.0 as nat, r.1 as nat) == histogram_diff_counts(old@, new@),
        r.0 as nat <= text_line_count(new@),
        r.1 as nat <= text_line_count(old@),
        r.0 as int - r.1 as int == text_line_count(new@) as int - text_line_count(old@) as int,
        old@ == new@ ==> r == (0u32, 0u32),
{
    let input = gix::diff::blob::InternedInput::new(old.as_slice(), new.as_slice());
    let diff = gix::diff::blob::Diff::compute(gix::diff::blob::Algorithm::Histogram, &input);
    (diff.count_additions(), diff.count_removals())
}

/// Counts (added, deleted) lines between two buffers, binary-safely: if
/// either buffer is binary, both counts are zero; equal buffers always
/// yield (0, 0). For text buffers, each count is bounded by that side's
/// line-token count and the counts differ as the token counts do, so
/// unchanged lines contribute nothing.
pub fn diff_line_counts(old: &Vec<u8>, new: &Vec<u8>) -> (r: (u32, u32))
    requires
        old@.len() < 0x7fff_ffff,
        new@.len() < 0x7fff_ffff,
    ensures
        (r.0 as nat, r.1 as nat) == diff_counts_spec(old@, new@),
        r.0 as nat <= text_line_count(new@),
        r.1 as nat <= text_line_count(old@),
        !is_binary_spec(old@) && !is_binary_spec(new@) ==> r.0 as int - r.1 as int
            == text_line_count(new@) as int - text_line_count(old@) as int,
        old@ == new@ ==> r == (0u32, 0u32),
{
    if is_binary(old) || is_binary(new) {
        (0, 0)
    } else {
        histogram_line_diff(old, new)
    }
}

/// When either buffer is binary the diff reports nothing, in both directions.
pub proof fn lemma_diff_binary_both_directions(a: Seq<u8>, b: Seq<u8>)
    requires
        is_binary_spec(a) || is_binary_spec(b),
    ensures
        diff_counts_spec(a, b) == (0nat, 0nat),
        diff_counts_spec(b, a) == (0nat, 0nat),
{
}

} // verus!
