//! Three-way orders, as -1, 0 or 1, on the values that sessions are sorted by.

use vstd::prelude::*;
use crate::text::to_chars;

verus! {

pub open spec fn order_int(a: int, b: int) -> int {
    if a < b {
        -1
    } else if a == b {
        0
    } else {
        1
    }
}

/// The order by `first` and, where that ties, by `second`.
pub open spec fn order_by(first: int, second: int) -> int {
    if first != 0 {
        first
    } else {
        second
    }
}

/// Texts by their first differing character; a prefix comes before what it begins.
pub open spec fn order_text(a: Seq<char>, b: Seq<char>) -> int
    decreases a.len(),
{
    if a.len() == 0 && b.len() == 0 {
        0
    } else if a.len() == 0 {
        -1
    } else if b.len() == 0 {
        1
    } else if a[0] != b[0] {
        order_int(a[0] as int, b[0] as int)
    } else {
        order_text(a.skip(1), b.skip(1))
    }
}

/// Optional texts: none comes first.
pub open spec fn order_optional_text(a: Option<Seq<char>>, b: Option<Seq<char>>) -> int {
    match (a, b) {
        (None, None) => 0,
        (None, Some(_)) => -1,
        (Some(_), None) => 1,
        (Some(a), Some(b)) => order_text(a, b),
    }
}

/// What three results of one order satisfy where it is transitive.
pub open spec fn chained(ab: int, bc: int, ac: int) -> bool {
    &&& ab <= 0 && bc <= 0 ==> ac <= 0
    &&& ab < 0 && bc <= 0 ==> ac < 0
    &&& ab <= 0 && bc < 0 ==> ac < 0
    &&& ab >= 0 && bc >= 0 ==> ac >= 0
    &&& ab > 0 && bc >= 0 ==> ac > 0
    &&& ab >= 0 && bc > 0 ==> ac > 0
}

pub proof fn lemma_order_text(a: Seq<char>, b: Seq<char>, c: Seq<char>)
    ensures
        order_text(a, a) == 0,
        order_text(b, a) == -order_text(a, b),
        order_text(a, b) == 0 ==> a == b,
        -1 <= order_text(a, b) <= 1,
        chained(order_text(a, b), order_text(b, c), order_text(a, c)),
    decreases a.len() + b.len() + c.len(),
{
    if a.len() > 0 {
        lemma_order_text(a.skip(1), b, c.take(0));
        lemma_order_text(a.skip(1), a.skip(1).take(0), c.take(0));
    }
    if a.len() > 0 && b.len() > 0 {
        lemma_order_text(a.skip(1), b.skip(1), c);
        if a[0] == b[0] && a.skip(1) == b.skip(1) {
            assert(a =~= seq![a[0]] + a.skip(1));
            assert(b =~= seq![b[0]] + b.skip(1));
        }
        if c.len() > 0 {
            lemma_order_text(a.skip(1), b.skip(1), c.skip(1));
        }
    }
    if a.len() == 0 && b.len() == 0 {
        assert(a =~= b);
    }
}

pub fn compare_text(a: &str, b: &str) -> (r: i8)
    ensures
        r == order_text(a@, b@),
{
    let left = to_chars(a);
    let right = to_chars(b);
    let mut i: usize = 0;
    proof {
        assert(a@.skip(0) =~= a@);
        assert(b@.skip(0) =~= b@);
    }
    while i < left.len() && i < right.len()
        invariant
            i <= left.len(),
            i <= right.len(),
            left@ == a@,
            right@ == b@,
            order_text(a@, b@) == order_text(a@.skip(i as int), b@.skip(i as int)),
        decreases left.len() - i,
    {
        if left[i] < right[i] {
            return -1;
        }
        if left[i] > right[i] {
            return 1;
        }
        proof {
            assert(a@.skip(i as int).skip(1) =~= a@.skip(i + 1));
            assert(b@.skip(i as int).skip(1) =~= b@.skip(i + 1));
        }
        i += 1;
    }
    if i < right.len() {
        -1
    } else if i < left.len() {
        1
    } else {
        0
    }
}

pub fn compare_int(a: i64, b: i64) -> (r: i8)
    ensures
        r == order_int(a as int, b as int),
{
    if a < b {
        -1
    } else if a == b {
        0
    } else {
        1
    }
}

} // verus!
