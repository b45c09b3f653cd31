//! Byte strings compared position by position.

use core::cmp::Ordering;
use vstd::prelude::*;

verus! {

/// `a` and `b` agree on their first `i` bytes and no further: at `i` one of
/// them ends or they hold different bytes.
pub open spec fn part_at(a: Seq<u8>, b: Seq<u8>, i: int) -> bool {
    &&& 0 <= i <= a.len()
    &&& i <= b.len()
    &&& forall|j: int| 0 <= j < i ==> a[j] == b[j]
    &&& (i == a.len() || i == b.len() || a[i] != b[i])
}

/// `a` comes before `b` in lexicographic order: where they part, `a` ends and
/// `b` goes on, or `a` holds the smaller byte.
pub open spec fn lex_less(a: Seq<u8>, b: Seq<u8>) -> bool {
    exists|i: int| #[trigger]
        part_at(a, b, i) && i < b.len() && (i == a.len() || a[i] < b[i])
}

/// The lexicographic order of two byte strings.
pub open spec fn lex_order(a: Seq<u8>, b: Seq<u8>) -> Ordering {
    if a == b {
        Ordering::Equal
    } else if lex_less(a, b) {
        Ordering::Less
    } else {
        Ordering::Greater
    }
}

/// Two byte strings part at one place only.
pub proof fn lemma_part_at_unique(a: Seq<u8>, b: Seq<u8>, i: int, k: int)
    requires
        part_at(a, b, i),
        part_at(a, b, k),
    ensures
        i == k,
{
    if i < k {
        assert(a[i] == b[i]);
    } else if k < i {
        assert(a[k] == b[k]);
    }
}

/// Byte strings that part where both end are the same string.
pub proof fn lemma_part_at_end(a: Seq<u8>, b: Seq<u8>, i: int)
    requires
        part_at(a, b, i),
    ensures
        (i == a.len() && i == b.len()) <==> a == b,
{
    if i == a.len() && i == b.len() {
        assert(a =~= b);
    }
}

/// Which of two byte strings comes first is read off at the place where they
/// part.
pub proof fn lemma_lex_less_at(a: Seq<u8>, b: Seq<u8>, i: int)
    requires
        part_at(a, b, i),
    ensures
        lex_less(a, b) <==> (i < b.len() && (i == a.len() || a[i] < b[i])),
{
    if lex_less(a, b) {
        let k = choose|k: int| #[trigger]
            part_at(a, b, k) && k < b.len() && (k == a.len() || a[k] < b[k]);
        lemma_part_at_unique(a, b, i, k);
    }
}

/// The order is total: of two different byte strings exactly one comes first.
pub proof fn lemma_lex_total(a: Seq<u8>, b: Seq<u8>)
    ensures
        a != b ==> (lex_less(a, b) <==> !lex_less(b, a)),
        a == b ==> !lex_less(a, b),
{
    if lex_less(a, b) {
        let i = choose|i: int| #[trigger]
            part_at(a, b, i) && i < b.len() && (i == a.len() || a[i] < b[i]);
        if lex_less(b, a) {
            let k = choose|k: int| #[trigger]
                part_at(b, a, k) && k < a.len() && (k == b.len() || b[k] < a[k]);
            assert(part_at(a, b, k));
            lemma_part_at_unique(a, b, i, k);
        }
        assert(a != b);
    } else if a != b {
        let i = lemma_parts_somewhere(a, b);
        lemma_part_at_end(a, b, i);
        assert(part_at(b, a, i));
    }
}

/// The order is transitive.
pub proof fn lemma_lex_transitive(a: Seq<u8>, b: Seq<u8>, c: Seq<u8>)
    requires
        lex_less(a, b),
        lex_less(b, c),
    ensures
        lex_less(a, c),
{
    let i = choose|i: int| #[trigger]
        part_at(a, b, i) && i < b.len() && (i == a.len() || a[i] < b[i]);
    let k = choose|k: int| #[trigger]
        part_at(b, c, k) && k < c.len() && (k == b.len() || b[k] < c[k]);
    let m = if i <= k {
        i
    } else {
        k
    };
    assert(part_at(a, c, m));
}

/// Any two byte strings part somewhere.
pub proof fn lemma_parts_somewhere(a: Seq<u8>, b: Seq<u8>) -> (i: int)
    ensures
        part_at(a, b, i),
    decreases a.len(),
{
    if a.len() == 0 || b.len() == 0 || a[0] != b[0] {
        0
    } else {
        let k = lemma_parts_somewhere(a.drop_first(), b.drop_first());
        assert forall|j: int| 0 <= j < k + 1 implies a[j] == b[j] by {
            if j > 0 {
                assert(a.drop_first()[j - 1] == b.drop_first()[j - 1]);
            }
        }
        if k < a.len() - 1 && k < b.len() - 1 {
            assert(a.drop_first()[k] != b.drop_first()[k]);
        }
        k + 1
    }
}

/// The place where two byte strings part.
pub fn parting(a: &[u8], b: &[u8]) -> (i: usize)
    ensures
        part_at(a@, b@, i as int),
{
    let mut i: usize = 0;
    while i < a.len() && i < b.len() && a[i] == b[i]
        invariant
            i <= a@.len(),
            i <= b@.len(),
            forall|j: int| 0 <= j < i ==> a@[j] == b@[j],
        decreases a@.len() - i,
    {
        i += 1;
    }
    i
}

/// What the place where two byte strings part says of them: whether they are
/// the same, and which comes first.
pub proof fn lemma_parting_decides(a: Seq<u8>, b: Seq<u8>, i: usize)
    requires
        part_at(a, b, i as int),
    ensures
        a == b <==> (i == a.len() && i == b.len()),
        lex_less(a, b) <==> (i < b.len() && (i == a.len() || a[i as int] < b[i as int])),
{
    lemma_part_at_end(a, b, i as int);
    lemma_lex_less_at(a, b, i as int);
}

/// Compares two byte strings in lexicographic order.
pub fn compare_bytes(a: &[u8], b: &[u8]) -> (r: Ordering)
    ensures
        r == lex_order(a@, b@),
{
    let i: usize = parting(a, b);
    proof {
        lemma_parting_decides(a@, b@, i);
    }
    if i == a.len() {
        if i == b.len() {
            Ordering::Equal
        } else {
            Ordering::Less
        }
    } else if i == b.len() {
        Ordering::Greater
    } else if a[i] < b[i] {
        Ordering::Less
    } else {
        Ordering::Greater
    }
}

/// Whether two byte strings are the same.
pub fn same_bytes(a: &[u8], b: &[u8]) -> (r: bool)
    ensures
        r == (a@ == b@),
{
    let i: usize = parting(a, b);
    proof {
        lemma_parting_decides(a@, b@, i);
    }
    i == a.len() && i == b.len()
}

} // verus!
