//! Comparison of names: exact, and without regard to ASCII case.

use vstd::prelude::*;
use vstd::std_specs::iter::IteratorSpec;

verus! {

/// The lower-case form of an ASCII capital; any other character unchanged.
pub open spec fn ascii_lower(c: char) -> char {
    if 'A' <= c && c <= 'Z' {
        ((c as u8) + 32) as char
    } else {
        c
    }
}

/// A name with each ASCII capital replaced by its lower-case form.
pub open spec fn ascii_folded(name: Seq<char>) -> Seq<char> {
    name.map_values(|c: char| ascii_lower(c))
}

/// Whether two names are the same once ASCII case is set aside.
pub open spec fn same_ignoring_ascii_case(a: Seq<char>, b: Seq<char>) -> bool {
    ascii_folded(a) == ascii_folded(b)
}

/// Setting ASCII case aside relates every name to itself, works both ways,
/// and carries over a name in the middle.
pub proof fn lemma_same_ignoring_ascii_case_is_equivalence(
    a: Seq<char>,
    b: Seq<char>,
    c: Seq<char>,
)
    ensures
        same_ignoring_ascii_case(a, a),
        same_ignoring_ascii_case(a, b) ==> same_ignoring_ascii_case(b, a),
        same_ignoring_ascii_case(a, b) && same_ignoring_ascii_case(b, c)
            ==> same_ignoring_ascii_case(a, c),
{
}

/// A name is the same as its lower-case form once ASCII case is set aside.
pub proof fn lemma_same_as_folded(name: Seq<char>)
    ensures
        same_ignoring_ascii_case(name, ascii_folded(name)),
{
    assert(ascii_folded(ascii_folded(name)) =~= ascii_folded(name));
}

/// Names that differ in length, or somewhere in more than ASCII case, are
/// not the same.
pub proof fn lemma_same_ignoring_ascii_case_by_letter(a: Seq<char>, b: Seq<char>)
    ensures
        same_ignoring_ascii_case(a, b) <==> a.len() == b.len() && forall|i: int|
            0 <= i < a.len() ==> ascii_lower(#[trigger] a[i]) == ascii_lower(b[i]),
{
    if same_ignoring_ascii_case(a, b) {
        assert(ascii_folded(a).len() == ascii_folded(b).len());
        assert forall|i: int| 0 <= i < a.len() implies ascii_lower(#[trigger] a[i])
            == ascii_lower(b[i]) by {
            assert(ascii_folded(a)[i] == ascii_folded(b)[i]);
        }
    }
    if a.len() == b.len() && forall|i: int|
        0 <= i < a.len() ==> ascii_lower(#[trigger] a[i]) == ascii_lower(b[i]) {
        assert(ascii_folded(a) =~= ascii_folded(b));
    }
}

/// The lower-case form of one character.
fn to_ascii_lower(c: char) -> (folded: char)
    ensures
        folded == ascii_lower(c),
{
    if 'A' <= c && c <= 'Z' {
        ((c as u8) + 32) as char
    } else {
        c
    }
}

/// Whether two strings hold the same characters.
pub fn str_eq(a: &str, b: &str) -> (same: bool)
    ensures
        same == (a@ == b@),
{
    let mut xs = a.chars();
    let mut ys = b.chars();
    let ghost mut i: int = 0;
    loop
        invariant
            0 <= i <= a@.len(),
            i <= b@.len(),
            xs.remaining() == a@.skip(i),
            ys.remaining() == b@.skip(i),
            a@.take(i) == b@.take(i),
        decreases a@.len() - i,
    {
        let x = xs.next();
        let y = ys.next();
        match (x, y) {
            (None, None) => {
                assert(a@.take(i) == a@ && b@.take(i) == b@);
                return true;
            },
            (Some(p), Some(q)) => {
                if p != q {
                    assert(a@[i] != b@[i]);
                    return false;
                }
                assert(a@.take(i + 1) == a@.take(i).push(p));
                assert(b@.take(i + 1) == b@.take(i).push(q));
                proof {
                    i = i + 1;
                }
            },
            _ => {
                assert(a@.len() != b@.len());
                return false;
            },
        }
    }
}

/// Whether two strings hold the same characters once ASCII case is set aside.
pub fn eq_ignore_ascii_case(a: &str, b: &str) -> (same: bool)
    ensures
        same == same_ignoring_ascii_case(a@, b@),
{
    let mut xs = a.chars();
    let mut ys = b.chars();
    let ghost mut i: int = 0;
    loop
        invariant
            0 <= i <= a@.len(),
            i <= b@.len(),
            xs.remaining() == a@.skip(i),
            ys.remaining() == b@.skip(i),
            ascii_folded(a@.take(i)) == ascii_folded(b@.take(i)),
        decreases a@.len() - i,
    {
        let x = xs.next();
        let y = ys.next();
        match (x, y) {
            (None, None) => {
                assert(a@.take(i) == a@ && b@.take(i) == b@);
                return true;
            },
            (Some(p), Some(q)) => {
                if to_ascii_lower(p) != to_ascii_lower(q) {
                    assert(ascii_folded(a@)[i] != ascii_folded(b@)[i]);
                    return false;
                }
                assert(ascii_folded(a@.take(i + 1)) == ascii_folded(a@.take(i)).push(
                    ascii_lower(p),
                ));
                assert(ascii_folded(b@.take(i + 1)) == ascii_folded(b@.take(i)).push(
                    ascii_lower(q),
                ));
                proof {
                    i = i + 1;
                }
            },
            _ => {
                assert(ascii_folded(a@).len() != ascii_folded(b@).len());
                return false;
            },
        }
    }
}

} // verus!
