//! Line tables of source texts: where each line starts, which line holds a
//! byte, and the byte range of a line.

use vstd::prelude::*;

verus! {

/// The byte offsets at which the lines of the first `n` bytes of `bytes`
/// start: `0`, then one past every `'\n'` byte.
pub open spec fn line_starts_upto(bytes: Seq<u8>, n: nat) -> Seq<usize>
    decreases n,
{
    if n == 0 {
        seq![0usize]
    } else {
        let prev = line_starts_upto(bytes, (n - 1) as nat);
        if bytes[n - 1] == 10u8 {
            prev.push(n as usize)
        } else {
            prev
        }
    }
}

/// The byte offsets at which the lines of a text with the given UTF-8 bytes
/// start.
pub open spec fn line_starts_of(bytes: Seq<u8>) -> Seq<usize> {
    line_starts_upto(bytes, bytes.len())
}

/// A table of line starts is well formed: it starts at `0` and grows strictly.
pub open spec fn is_line_table(starts: Seq<usize>) -> bool {
    &&& starts.len() > 0
    &&& starts[0] == 0
    &&& forall|i: int, j: int| 0 <= i < j < starts.len() ==> starts[i] < starts[j]
}

/// `index` is the line that holds byte offset `offset`: the last line that
/// starts at or before `offset`.
pub open spec fn is_line_of(starts: Seq<usize>, offset: int, index: int) -> bool {
    &&& 0 <= index < starts.len()
    &&& starts[index] <= offset
    &&& index + 1 < starts.len() ==> offset < starts[index + 1]
}

/// The line table of a prefix is well formed and bounded by the prefix length.
pub proof fn lemma_line_starts_upto(bytes: Seq<u8>, n: nat)
    requires
        n <= bytes.len(),
        bytes.len() <= usize::MAX,
    ensures
        is_line_table(line_starts_upto(bytes, n)),
        forall|i: int|
            0 <= i < line_starts_upto(bytes, n).len() ==> #[trigger] line_starts_upto(bytes, n)[i]
                <= n,
        line_starts_upto(bytes, n).len() <= n + 1,
    decreases n,
{
    if n > 0 {
        lemma_line_starts_upto(bytes, (n - 1) as nat);
    }
}

/// Computes the line table of a text given by its UTF-8 bytes.
pub fn compute_line_starts(bytes: &[u8]) -> (r: Vec<usize>)
    ensures
        r@ == line_starts_of(bytes@),
        is_line_table(r@),
{
    let mut r: Vec<usize> = Vec::new();
    r.push(0);
    let mut i: usize = 0;
    while i < bytes.len()
        invariant
            i <= bytes@.len(),
            r@ == line_starts_upto(bytes@, i as nat),
        decreases bytes@.len() - i,
    {
        if bytes[i] == 10u8 {
            r.push(i + 1);
        }
        i = i + 1;
    }
    proof {
        lemma_line_starts_upto(bytes@, bytes@.len());
    }
    r
}

/// Returns the index of the line that holds byte offset `offset`.
pub fn line_index_of(starts: &[usize], offset: usize) -> (r: usize)
    requires
        is_line_table(starts@),
    ensures
        is_line_of(starts@, offset as int, r as int),
{
    // Invariant: starts[lo] <= offset, and every line from hi on starts after offset.
    let mut lo: usize = 0;
    let mut hi: usize = starts.len();
    while lo + 1 < hi
        invariant
            is_line_table(starts@),
            0 <= lo < hi <= starts@.len(),
            starts@[lo as int] <= offset,
            hi < starts@.len() ==> offset < starts@[hi as int],
        decreases hi - lo,
    {
        let mid = lo + (hi - lo) / 2;
        if starts[mid] <= offset {
            lo = mid;
        } else {
            hi = mid;
        }
    }
    lo
}

/// Line `index` holds every offset of its range, so the line found for an
/// offset is unique.
pub proof fn lemma_line_of_unique(starts: Seq<usize>, offset: int, a: int, b: int)
    requires
        is_line_table(starts),
        is_line_of(starts, offset, a),
        is_line_of(starts, offset, b),
    ensures
        a == b,
{
    if a < b {
        assert(starts[a + 1] <= starts[b]);
    } else if b < a {
        assert(starts[b + 1] <= starts[a]);
    }
}

} // verus!
