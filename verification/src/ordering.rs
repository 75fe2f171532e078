//! The order the catalog lists its records in: items pinned first, then
//! favorites, then newest first; jobs newest first. Creation times are
//! compared as text, character by character.

use vstd::prelude::*;
use vstd::multiset::Multiset;
use crate::catalog::{JobRow, LibraryItemRow};

verus! {

/// Compares two texts character by character (by code point), a proper
/// prefix first: negative, zero or positive.
pub open spec fn text_order(a: Seq<char>, b: Seq<char>) -> int
    decreases a.len(),
{
    if a.len() == 0 && b.len() == 0 {
        0
    } else if a.len() == 0 {
        -1
    } else if b.len() == 0 {
        1
    } else if (a[0] as u32) < (b[0] as u32) {
        -1
    } else if (a[0] as u32) > (b[0] as u32) {
        1
    } else {
        text_order(a.drop_first(), b.drop_first())
    }
}

/// Comparing the other way round flips the sign.
pub proof fn lemma_text_order_flip(a: Seq<char>, b: Seq<char>)
    ensures
        text_order(a, b) == -text_order(b, a),
        -1 <= text_order(a, b) <= 1,
    decreases a.len(),
{
    if a.len() > 0 && b.len() > 0 && (a[0] as u32) == (b[0] as u32) {
        lemma_text_order_flip(a.drop_first(), b.drop_first());
    }
}

/// Text order is transitive.
pub proof fn lemma_text_order_trans(a: Seq<char>, b: Seq<char>, c: Seq<char>)
    requires
        text_order(a, b) <= 0,
        text_order(b, c) <= 0,
    ensures
        text_order(a, c) <= 0,
    decreases a.len(),
{
    if a.len() > 0 && b.len() > 0 && c.len() > 0 && (a[0] as u32) == (b[0] as u32) && (b[0] as u32)
        == (c[0] as u32) {
        lemma_text_order_trans(a.drop_first(), b.drop_first(), c.drop_first());
    }
}

/// Whether `a` is listed no later than `b` by the key `(pinned, favorite,
/// created)`, each descending.
pub open spec fn ranks_before(
    a_pinned: i64,
    a_favorite: i64,
    a_created: Seq<char>,
    b_pinned: i64,
    b_favorite: i64,
    b_created: Seq<char>,
) -> bool {
    a_pinned > b_pinned || (a_pinned == b_pinned && (a_favorite > b_favorite || (a_favorite
        == b_favorite && text_order(a_created, b_created) >= 0)))
}

/// Whether item row `a` is listed no later than `b`.
pub open spec fn item_listed_before(a: LibraryItemRow, b: LibraryItemRow) -> bool {
    ranks_before(a.pinned, a.favorite, a.created_at@, b.pinned, b.favorite, b.created_at@)
}

/// Whether job row `a` is listed no later than `b`: it is not older.
pub open spec fn job_listed_before(a: JobRow, b: JobRow) -> bool {
    text_order(a.created_at@, b.created_at@) >= 0
}

/// Whether `x` comes strictly before `y` in code-point order: at the first
/// position where they differ, `x` has the smaller character, or `x` is a
/// proper prefix of `y`.
pub open spec fn code_point_less(x: Seq<char>, y: Seq<char>) -> bool {
    exists|k: int|
        0 <= k <= x.len() && k <= y.len() && #[trigger] x.subrange(0, k) == y.subrange(0, k) && (
        (k == x.len() && k < y.len()) || (k < x.len() && k < y.len() && (x[k] as u32) < (
        y[k] as u32)))
}

/// `text_order` is negative exactly when the first text comes first in
/// code-point order.
pub proof fn lemma_text_order_is_code_point_order(x: Seq<char>, y: Seq<char>)
    ensures
        text_order(x, y) < 0 <==> code_point_less(x, y),
    decreases x.len(),
{
    lemma_text_order_flip(x, y);
    if x.len() == 0 && y.len() == 0 {
        if code_point_less(x, y) {
            let k = choose|k: int|
                0 <= k <= x.len() && k <= y.len() && #[trigger] x.subrange(0, k) == y.subrange(0, k)
                    && ((k == x.len() && k < y.len()) || (k < x.len() && k < y.len() && (x[k] as u32)
                    < (y[k] as u32)));
            assert(false);
        }
    } else if x.len() == 0 {
        assert(x.subrange(0, 0) =~= y.subrange(0, 0));
    } else if y.len() == 0 {
        if code_point_less(x, y) {
            let k = choose|k: int|
                0 <= k <= x.len() && k <= y.len() && #[trigger] x.subrange(0, k) == y.subrange(0, k)
                    && ((k == x.len() && k < y.len()) || (k < x.len() && k < y.len() && (x[k] as u32)
                    < (y[k] as u32)));
            assert(false);
        }
    } else if (x[0] as u32) < (y[0] as u32) {
        assert(x.subrange(0, 0) =~= y.subrange(0, 0));
    } else if (x[0] as u32) > (y[0] as u32) {
        if code_point_less(x, y) {
            let k = choose|k: int|
                0 <= k <= x.len() && k <= y.len() && #[trigger] x.subrange(0, k) == y.subrange(0, k)
                    && ((k == x.len() && k < y.len()) || (k < x.len() && k < y.len() && (x[k] as u32)
                    < (y[k] as u32)));
            if k > 0 {
                assert(x.subrange(0, k)[0] == y.subrange(0, k)[0]);
            }
            assert(false);
        }
    } else {
        let x1 = x.drop_first();
        let y1 = y.drop_first();
        lemma_text_order_is_code_point_order(x1, y1);
        lemma_same_code_same_char(x[0], y[0]);
        if code_point_less(x1, y1) {
            let k = choose|k: int|
                0 <= k <= x1.len() && k <= y1.len() && #[trigger] x1.subrange(0, k) == y1.subrange(
                    0,
                    k,
                ) && ((k == x1.len() && k < y1.len()) || (k < x1.len() && k < y1.len() && (
                x1[k] as u32) < (y1[k] as u32)));
            assert(x.subrange(0, k + 1) =~= seq![x[0]] + x1.subrange(0, k));
            assert(y.subrange(0, k + 1) =~= seq![y[0]] + y1.subrange(0, k));
            assert(x[k + 1] == x1[k] || k == x1.len());
            assert(code_point_less(x, y));
        }
        if code_point_less(x, y) {
            let k = choose|k: int|
                0 <= k <= x.len() && k <= y.len() && #[trigger] x.subrange(0, k) == y.subrange(0, k)
                    && ((k == x.len() && k < y.len()) || (k < x.len() && k < y.len() && (x[k] as u32)
                    < (y[k] as u32)));
            assert(k > 0);
            assert(x1.subrange(0, k - 1) =~= x.subrange(0, k).drop_first());
            assert(y1.subrange(0, k - 1) =~= y.subrange(0, k).drop_first());
            assert(code_point_less(x1, y1));
        }
    }
}

/// Two characters with the same code point are the same character.
proof fn lemma_same_code_same_char(c: char, d: char)
    requires
        (c as u32) == (d as u32),
    ensures
        c == d,
{
}

/// Pinned rows are listed first; among equally pinned rows, favorites;
/// among rows alike in both, the newer (the larger creation time in
/// code-point order) first.
pub proof fn lemma_item_listing_order(a: LibraryItemRow, b: LibraryItemRow)
    ensures
        a.pinned > b.pinned ==> item_listed_before(a, b) && !item_listed_before(b, a),
        a.pinned == b.pinned && a.favorite > b.favorite ==> item_listed_before(a, b)
            && !item_listed_before(b, a),
        a.pinned == b.pinned && a.favorite == b.favorite ==> (item_listed_before(a, b)
            <==> !code_point_less(a.created_at@, b.created_at@)),
{
    lemma_text_order_flip(a.created_at@, b.created_at@);
    lemma_text_order_is_code_point_order(a.created_at@, b.created_at@);
}

/// Jobs are listed newest first: a job is listed no later than another
/// unless its creation time comes first in code-point order.
pub proof fn lemma_job_listing_order(a: JobRow, b: JobRow)
    ensures
        job_listed_before(a, b) <==> !code_point_less(a.created_at@, b.created_at@),
{
    lemma_text_order_flip(a.created_at@, b.created_at@);
    lemma_text_order_is_code_point_order(a.created_at@, b.created_at@);
}

/// Whether a sequence is in the order `le`.
pub open spec fn sorted_by_order<A>(s: Seq<A>, le: spec_fn(A, A) -> bool) -> bool {
    forall|i: int, j: int| 0 <= i < j < s.len() ==> le(#[trigger] s[i], #[trigger] s[j])
}

/// Whether `le` is a total preorder.
pub open spec fn is_total_preorder<A>(le: spec_fn(A, A) -> bool) -> bool {
    &&& forall|a: A, b: A| #[trigger] le(a, b) || le(b, a)
    &&& forall|a: A, b: A, c: A| #[trigger] le(a, b) && #[trigger] le(b, c) ==> le(a, c)
}

/// The item listing order is a total preorder.
pub proof fn lemma_item_order_total_preorder()
    ensures
        is_total_preorder(|a: LibraryItemRow, b: LibraryItemRow| item_listed_before(a, b)),
{
    let le = |a: LibraryItemRow, b: LibraryItemRow| item_listed_before(a, b);
    assert forall|a: LibraryItemRow, b: LibraryItemRow| #[trigger] le(a, b) || le(b, a) by {
        lemma_text_order_flip(a.created_at@, b.created_at@);
    }
    assert forall|a: LibraryItemRow, b: LibraryItemRow, c: LibraryItemRow|
        #[trigger] le(a, b) && #[trigger] le(b, c) implies le(a, c) by {
        lemma_text_order_flip(a.created_at@, b.created_at@);
        lemma_text_order_flip(b.created_at@, c.created_at@);
        lemma_text_order_flip(a.created_at@, c.created_at@);
        if text_order(b.created_at@, a.created_at@) <= 0 && text_order(c.created_at@, b.created_at@) <= 0 {
            lemma_text_order_trans(c.created_at@, b.created_at@, a.created_at@);
        }
    }
}

/// The job listing order is a total preorder.
pub proof fn lemma_job_order_total_preorder()
    ensures
        is_total_preorder(|a: JobRow, b: JobRow| job_listed_before(a, b)),
{
    let le = |a: JobRow, b: JobRow| job_listed_before(a, b);
    assert forall|a: JobRow, b: JobRow| #[trigger] le(a, b) || le(b, a) by {
        lemma_text_order_flip(a.created_at@, b.created_at@);
    }
    assert forall|a: JobRow, b: JobRow, c: JobRow| #[trigger] le(a, b) && #[trigger] le(b, c) implies le(a, c) by {
        lemma_text_order_flip(a.created_at@, b.created_at@);
        lemma_text_order_flip(b.created_at@, c.created_at@);
        lemma_text_order_flip(a.created_at@, c.created_at@);
        lemma_text_order_trans(c.created_at@, b.created_at@, a.created_at@);
    }
}

/// Inserting `x` after every element listed no later than it, and before
/// the first that is not, keeps a sequence in order.
proof fn lemma_insert_sorted<A>(s: Seq<A>, p: int, x: A, le: spec_fn(A, A) -> bool)
    requires
        is_total_preorder(le),
        sorted_by_order(s, le),
        0 <= p <= s.len(),
        forall|k: int| 0 <= k < p ==> le(#[trigger] s[k], x),
        p < s.len() ==> !le(s[p], x),
    ensures
        sorted_by_order(s.insert(p, x), le),
{
    let t = s.insert(p, x);
    if p < s.len() {
        assert(le(x, s[p]));
    }
    assert forall|i: int, j: int| 0 <= i < j < t.len() implies le(#[trigger] t[i], #[trigger] t[j]) by {
        if i < p && j < p {
            assert(t[i] == s[i] && t[j] == s[j]);
        } else if i < p && j == p {
            assert(t[i] == s[i]);
        } else if i < p && j > p {
            assert(t[i] == s[i] && t[j] == s[j - 1]);
        } else if i == p {
            assert(t[j] == s[j - 1]);
            if j - 1 > p {
                assert(le(s[p], s[j - 1]));
            }
        } else {
            assert(t[i] == s[i - 1] && t[j] == s[j - 1]);
        }
    }
}

/// Text comparison, as `text_order`.
pub fn compare_text(a: &str, b: &str) -> (r: i8)
    ensures
        r as int == text_order(a@, b@),
{
    let n = a.unicode_len();
    let m = b.unicode_len();
    let mut i: usize = 0;
    assert(a@.subrange(0, n as int) =~= a@);
    assert(b@.subrange(0, m as int) =~= b@);
    while i < n && i < m
        invariant
            n == a@.len(),
            m == b@.len(),
            i <= n,
            i <= m,
            text_order(a@, b@) == text_order(a@.subrange(i as int, n as int), b@.subrange(i as int, m as int)),
        decreases n - i,
    {
        let ca = a.get_char(i);
        let cb = b.get_char(i);
        let ghost sa = a@.subrange(i as int, n as int);
        let ghost sb = b@.subrange(i as int, m as int);
        assert(sa[0] == ca && sb[0] == cb);
        if (ca as u32) < (cb as u32) {
            return -1;
        } else if (ca as u32) > (cb as u32) {
            return 1;
        }
        assert(sa.drop_first() =~= a@.subrange(i + 1, n as int));
        assert(sb.drop_first() =~= b@.subrange(i + 1, m as int));
        i = i + 1;
    }
    if n == m {
        assert(a@.subrange(i as int, n as int).len() == 0);
        0
    } else if i == n {
        -1
    } else {
        1
    }
}

/// Whether item row `a` is listed no later than `b`.
pub fn item_before(a: &LibraryItemRow, b: &LibraryItemRow) -> (r: bool)
    ensures
        r == item_listed_before(*a, *b),
{
    a.pinned > b.pinned || (a.pinned == b.pinned && (a.favorite > b.favorite || (a.favorite
        == b.favorite && compare_text(a.created_at.as_str(), b.created_at.as_str()) >= 0)))
}

/// Lists item rows pinned first, then favorites, then newest first.
pub fn sort_library_rows(rows: Vec<LibraryItemRow>) -> (r: Vec<LibraryItemRow>)
    ensures
        r@.to_multiset() == rows@.to_multiset(),
        sorted_by_order(r@, |a: LibraryItemRow, b: LibraryItemRow| item_listed_before(a, b)),
{
    broadcast use vstd::seq_lib::group_to_multiset_ensures;

    let ghost le = |a: LibraryItemRow, b: LibraryItemRow| item_listed_before(a, b);
    proof {
        lemma_item_order_total_preorder();
    }
    let ghost given = rows@;
    let mut rest = rows;
    let mut out: Vec<LibraryItemRow> = Vec::new();
    while rest.len() > 0
        invariant
            is_total_preorder(le),
            le == (|a: LibraryItemRow, b: LibraryItemRow| item_listed_before(a, b)),
            sorted_by_order(out@, le),
            out@.to_multiset().add(rest@.to_multiset()) == given.to_multiset(),
        decreases rest.len(),
    {
        let ghost before_rest = rest@;
        let x = rest.pop().unwrap();
        proof {
            assert(before_rest == rest@.push(x));
        }
        let mut p: usize = 0;
        while p < out.len() && item_before(&out[p], &x)
            invariant
                p <= out@.len(),
                le == (|a: LibraryItemRow, b: LibraryItemRow| item_listed_before(a, b)),
                forall|k: int| 0 <= k < p ==> le(#[trigger] out@[k], x),
            decreases out.len() - p,
        {
            p = p + 1;
        }
        proof {
            lemma_insert_sorted(out@, p as int, x, le);
        }
        let ghost before_out = out@;
        out.insert(p, x);
        proof {
            vstd::seq_lib::to_multiset_insert(before_out, p as int, x);
            vstd::seq_lib::to_multiset_build(rest@, x);
            assert(out@.to_multiset() == before_out.to_multiset().insert(x));
            assert(before_rest.to_multiset() == rest@.to_multiset().insert(x));
            assert(out@.to_multiset().add(rest@.to_multiset()) =~= before_out.to_multiset().add(
                before_rest.to_multiset(),
            ));
        }
    }
    proof {
        assert(rest@.to_multiset() =~= Multiset::empty());
        assert(out@.to_multiset().add(rest@.to_multiset()) =~= out@.to_multiset());
    }
    out
}

/// Lists job rows newest first.
pub fn sort_job_rows(rows: Vec<JobRow>) -> (r: Vec<JobRow>)
    ensures
        r@.to_multiset() == rows@.to_multiset(),
        sorted_by_order(r@, |a: JobRow, b: JobRow| job_listed_before(a, b)),
{
    broadcast use vstd::seq_lib::group_to_multiset_ensures;

    let ghost le = |a: JobRow, b: JobRow| job_listed_before(a, b);
    proof {
        lemma_job_order_total_preorder();
    }
    let ghost given = rows@;
    let mut rest = rows;
    let mut out: Vec<JobRow> = Vec::new();
    while rest.len() > 0
        invariant
            is_total_preorder(le),
            le == (|a: JobRow, b: JobRow| job_listed_before(a, b)),
            sorted_by_order(out@, le),
            out@.to_multiset().add(rest@.to_multiset()) == given.to_multiset(),
        decreases rest.len(),
    {
        let ghost before_rest = rest@;
        let x = rest.pop().unwrap();
        proof {
            assert(before_rest == rest@.push(x));
        }
        let mut p: usize = 0;
        while p < out.len() && compare_text(out[p].created_at.as_str(), x.created_at.as_str()) >= 0
            invariant
                p <= out@.len(),
                le == (|a: JobRow, b: JobRow| job_listed_before(a, b)),
                forall|k: int| 0 <= k < p ==> le(#[trigger] out@[k], x),
            decreases out.len() - p,
        {
            p = p + 1;
        }
        proof {
            lemma_insert_sorted(out@, p as int, x, le);
        }
        let ghost before_out = out@;
        out.insert(p, x);
        proof {
            vstd::seq_lib::to_multiset_insert(before_out, p as int, x);
            vstd::seq_lib::to_multiset_build(rest@, x);
            assert(out@.to_multiset() == before_out.to_multiset().insert(x));
            assert(before_rest.to_multiset() == rest@.to_multiset().insert(x));
            assert(out@.to_multiset().add(rest@.to_multiset()) =~= before_out.to_multiset().add(
                before_rest.to_multiset(),
            ));
        }
    }
    proof {
        assert(rest@.to_multiset() =~= Multiset::empty());
        assert(out@.to_multiset().add(rest@.to_multiset()) =~= out@.to_multiset());
    }
    out
}

} // verus!
