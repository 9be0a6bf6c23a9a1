//! The order in which texts are listed: byte by byte over their UTF-8 form,
//! the shorter first where one text starts the other.

use vstd::prelude::*;
use vstd::utf8::encode_utf8;

verus! {

/// `a` comes no later than `b`, byte by byte.
pub open spec fn bytes_le(a: Seq<u8>, b: Seq<u8>) -> bool
    decreases a.len(),
{
    if a.len() == 0 {
        true
    } else if b.len() == 0 {
        false
    } else if a[0] != b[0] {
        a[0] < b[0]
    } else {
        bytes_le(a.drop_first(), b.drop_first())
    }
}

/// The text `a` comes no later than the text `b`.
pub open spec fn text_le(a: Seq<char>, b: Seq<char>) -> bool {
    bytes_le(encode_utf8(a), encode_utf8(b))
}

/// Any two byte strings are ordered one way or the other.
pub proof fn lemma_bytes_le_total(a: Seq<u8>, b: Seq<u8>)
    ensures
        bytes_le(a, b) || bytes_le(b, a),
    decreases a.len(),
{
    if a.len() > 0 && b.len() > 0 && a[0] == b[0] {
        lemma_bytes_le_total(a.drop_first(), b.drop_first());
    }
}

/// The order passes along a chain.
pub proof fn lemma_bytes_le_transitive(a: Seq<u8>, b: Seq<u8>, c: Seq<u8>)
    requires
        bytes_le(a, b),
        bytes_le(b, c),
    ensures
        bytes_le(a, c),
    decreases a.len(),
{
    if a.len() > 0 && b.len() > 0 && c.len() > 0 && a[0] == b[0] && b[0] == c[0] {
        lemma_bytes_le_transitive(a.drop_first(), b.drop_first(), c.drop_first());
    }
}

/// Any two texts are ordered one way or the other.
pub proof fn lemma_text_le_total(a: Seq<char>, b: Seq<char>)
    ensures
        text_le(a, b) || text_le(b, a),
{
    lemma_bytes_le_total(encode_utf8(a), encode_utf8(b));
}

/// The order of texts passes along a chain.
pub proof fn lemma_text_le_transitive(a: Seq<char>, b: Seq<char>, c: Seq<char>)
    requires
        text_le(a, b),
        text_le(b, c),
    ensures
        text_le(a, c),
{
    lemma_bytes_le_transitive(encode_utf8(a), encode_utf8(b), encode_utf8(c));
}

/// Two byte strings that agree on their first `n` bytes are ordered as what
/// follows those bytes is.
proof fn lemma_bytes_le_after_common_prefix(a: Seq<u8>, b: Seq<u8>, n: int)
    requires
        0 <= n <= a.len(),
        n <= b.len(),
        forall|k: int| 0 <= k < n ==> a[k] == b[k],
    ensures
        bytes_le(a, b) == bytes_le(a.skip(n), b.skip(n)),
    decreases n,
{
    if n == 0 {
        assert(a.skip(0) =~= a);
        assert(b.skip(0) =~= b);
    } else {
        lemma_bytes_le_after_common_prefix(a, b, n - 1);
        let ra = a.skip(n - 1);
        let rb = b.skip(n - 1);
        assert(ra[0] == a[n - 1]);
        assert(rb[0] == b[n - 1]);
        assert(ra.drop_first() =~= a.skip(n));
        assert(rb.drop_first() =~= b.skip(n));
    }
}

/// Whether the text `a` comes no later than the text `b`.
pub fn text_precedes(a: &str, b: &str) -> (le: bool)
    ensures
        le == text_le(a@, b@),
{
    let x = a.as_bytes();
    let y = b.as_bytes();
    let mut i: usize = 0;
    while i < x.len() && i < y.len()
        invariant
            x@ == encode_utf8(a@),
            y@ == encode_utf8(b@),
            i <= x@.len(),
            i <= y@.len(),
            forall|k: int| 0 <= k < i ==> x@[k] == y@[k],
        decreases x@.len() - i,
    {
        if x[i] != y[i] {
            proof {
                lemma_bytes_le_after_common_prefix(x@, y@, i as int);
            }
            return x[i] < y[i];
        }
        i = i + 1;
    }
    proof {
        lemma_bytes_le_after_common_prefix(x@, y@, i as int);
    }
    i == x.len()
}

/// Whether the UTF-8 form of the text `a` starts with that of the text `b`.
pub open spec fn text_starts_with(a: Seq<char>, b: Seq<char>) -> bool {
    encode_utf8(b).len() <= encode_utf8(a).len() && encode_utf8(a).subrange(
        0,
        encode_utf8(b).len() as int,
    ) == encode_utf8(b)
}

/// Whether the text `a` starts with the text `b`.
pub fn text_has_prefix(a: &str, b: &str) -> (yes: bool)
    ensures
        yes == text_starts_with(a@, b@),
{
    let x = a.as_bytes();
    let y = b.as_bytes();
    if y.len() > x.len() {
        return false;
    }
    let mut i: usize = 0;
    while i < y.len()
        invariant
            x@ == encode_utf8(a@),
            y@ == encode_utf8(b@),
            y@.len() <= x@.len(),
            i <= y@.len(),
            forall|k: int| 0 <= k < i ==> x@[k] == y@[k],
        decreases y@.len() - i,
    {
        if x[i] != y[i] {
            assert(x@.subrange(0, y@.len() as int)[i as int] == x@[i as int]);
            return false;
        }
        i = i + 1;
    }
    assert(x@.subrange(0, y@.len() as int) =~= y@);
    true
}

/// `rows` is in order: `le` holds from each row to every later one.
pub open spec fn ordered<T>(rows: Seq<T>, le: spec_fn(T, T) -> bool) -> bool {
    forall|i: int, j: int| 0 <= i < j < rows.len() ==> le(#[trigger] rows[i], #[trigger] rows[j])
}

/// A row put at the place where the rows before it come no later and the row
/// after it comes later leaves the rows in order.
pub proof fn lemma_insert_ordered<T>(rows: Seq<T>, p: int, row: T, le: spec_fn(T, T) -> bool)
    requires
        ordered(rows, le),
        0 <= p <= rows.len(),
        forall|a: T, b: T| #[trigger] le(a, b) || le(b, a),
        forall|a: T, b: T, c: T| #[trigger] le(a, b) && #[trigger] le(b, c) ==> le(a, c),
        forall|q: int| 0 <= q < p ==> le(#[trigger] rows[q], row),
        p < rows.len() ==> !le(rows[p], row),
    ensures
        ordered(rows.insert(p, row), le),
{
    let out = rows.insert(p, row);
    assert forall|i: int, j: int| 0 <= i < j < out.len() implies le(
        #[trigger] out[i],
        #[trigger] out[j],
    ) by {
        if j < p {
            assert(out[i] == rows[i] && out[j] == rows[j]);
        } else if j == p {
            assert(out[i] == rows[i] && out[j] == row);
        } else {
            assert(out[j] == rows[j - 1]);
            if i < p {
                assert(out[i] == rows[i]);
            } else if i == p {
                assert(out[i] == row);
                assert(le(rows[p], row) || le(row, rows[p]));
                if p < j - 1 {
                    assert(le(rows[p], rows[j - 1]));
                }
            } else {
                assert(out[i] == rows[i - 1]);
            }
        }
    }
}

/// A row put anywhere among `rows` makes the same rows and that one more.
pub proof fn lemma_insert_to_multiset<T>(rows: Seq<T>, p: int, row: T)
    requires
        0 <= p <= rows.len(),
    ensures
        rows.insert(p, row).to_multiset() == rows.to_multiset().insert(row),
{
    let out = rows.insert(p, row);
    assert(out[p] == row);
    assert(out.remove(p) =~= rows);
    vstd::seq_lib::to_multiset_remove(out, p);
    out.to_multiset_ensures();
    assert(out.contains(row));
    assert(out.to_multiset() =~= rows.to_multiset().insert(row));
}

} // verus!
