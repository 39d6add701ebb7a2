//! Directory and file paths of sessions.

use vstd::prelude::*;
use crate::order::{chained, compare_text, order_by, order_int, order_text, lemma_order_text};
use crate::text::{clone_optional, find_char, first_index, from_chars, lemma_first_index, texts_view, to_chars};

verus! {

/// A path as the picker needs it.
///
/// The file system is read where the path enters the program: `canonical` is the path's
/// normalized form, where it could be found, and `label` is how the directory is shown to the
/// user (below the home directory, `~` stands for that).
#[derive(Debug)]
pub struct SessionPath {
    pub text: String,
    pub canonical: Option<String>,
    pub label: String,
}

impl Clone for SessionPath {
    fn clone(&self) -> (r: Self)
        ensures
            r == *self,
    {
        SessionPath {
            text: self.text.clone(),
            canonical: clone_optional(&self.canonical),
            label: self.label.clone(),
        }
    }
}

impl SessionPath {
    /// A path of which nothing more than its text is known.
    pub fn new(text: &str) -> (r: Self)
        ensures
            r.text@ == text@,
            r.canonical is None,
            r.label@ == text@,
    {
        SessionPath { text: text.to_owned(), canonical: None, label: text.to_owned() }
    }
}

pub fn clone_optional_path(path: &Option<SessionPath>) -> (r: Option<SessionPath>)
    ensures
        r == *path,
{
    match path {
        Some(value) => Some(value.clone()),
        None => None,
    }
}

/// The components that the part of a path behind its root is made of: the pieces between the
/// slashes, without the empty ones, and without `.` unless it opens a relative path.
pub open spec fn pieces(text: Seq<char>, opening: bool) -> Seq<Seq<char>>
    decreases text.len(),
    via pieces_decreases
{
    let end = first_index(text, '/');
    let piece = text.take(end);
    let head = if piece.len() == 0 || (piece == seq!['.'] && !opening) {
        Seq::empty()
    } else {
        seq![piece]
    };
    if end < text.len() {
        head + pieces(text.skip(end + 1), false)
    } else {
        head
    }
}

#[via_fn]
proof fn pieces_decreases(text: Seq<char>, opening: bool) {
    lemma_first_index(text, '/');
}

/// The components of a path. A leading slash is a component of its own.
pub open spec fn components(text: Seq<char>) -> Seq<Seq<char>> {
    if text.len() > 0 && text[0] == '/' {
        seq![seq!['/']] + pieces(text.skip(1), false)
    } else {
        pieces(text, true)
    }
}

/// Two texts name one path where their components are the same.
pub open spec fn same_path(a: Seq<char>, b: Seq<char>) -> bool {
    components(a) == components(b)
}

/// The root comes first, then `.`, then `..`, then named components.
pub open spec fn component_rank(name: Seq<char>) -> int {
    if name == seq!['/'] {
        0
    } else if name == seq!['.'] {
        1
    } else if name == seq!['.', '.'] {
        2
    } else {
        3
    }
}

pub open spec fn order_component(a: Seq<char>, b: Seq<char>) -> int {
    order_by(order_int(component_rank(a), component_rank(b)), order_text(a, b))
}

pub open spec fn order_components(a: Seq<Seq<char>>, b: Seq<Seq<char>>) -> int
    decreases a.len(),
{
    if a.len() == 0 && b.len() == 0 {
        0
    } else if a.len() == 0 {
        -1
    } else if b.len() == 0 {
        1
    } else if order_component(a[0], b[0]) != 0 {
        order_component(a[0], b[0])
    } else {
        order_components(a.skip(1), b.skip(1))
    }
}

/// Paths component by component; no path comes first.
pub open spec fn order_optional_path(a: Option<SessionPath>, b: Option<SessionPath>) -> int {
    match (a, b) {
        (None, None) => 0,
        (None, Some(_)) => -1,
        (Some(_), None) => 1,
        (Some(a), Some(b)) => order_components(components(a.text@), components(b.text@)),
    }
}

pub proof fn lemma_order_component(a: Seq<char>, b: Seq<char>, c: Seq<char>)
    ensures
        order_component(a, a) == 0,
        order_component(b, a) == -order_component(a, b),
        order_component(a, b) == 0 <==> a == b,
        -1 <= order_component(a, b) <= 1,
        chained(order_component(a, b), order_component(b, c), order_component(a, c)),
{
    lemma_order_text(a, b, c);
}

pub proof fn lemma_order_components(
    a: Seq<Seq<char>>,
    b: Seq<Seq<char>>,
    c: Seq<Seq<char>>,
)
    ensures
        order_components(a, a) == 0,
        order_components(b, a) == -order_components(a, b),
        order_components(a, b) == 0 <==> a == b,
        -1 <= order_components(a, b) <= 1,
        chained(order_components(a, b), order_components(b, c), order_components(a, c)),
    decreases a.len() + b.len() + c.len(),
{
    if a.len() > 0 {
        lemma_order_component(a[0], a[0], a[0]);
        lemma_order_components(a.skip(1), a.skip(1).take(0), c.take(0));
    }
    if a.len() > 0 && b.len() > 0 {
        lemma_order_component(a[0], b[0], a[0]);
        lemma_order_components(a.skip(1), b.skip(1), c);
        if a[0] == b[0] && a.skip(1) == b.skip(1) {
            assert(a =~= seq![a[0]] + a.skip(1));
            assert(b =~= seq![b[0]] + b.skip(1));
        }
        if c.len() > 0 {
            lemma_order_component(a[0], b[0], c[0]);
            lemma_order_components(a.skip(1), b.skip(1), c.skip(1));
        }
    }
    if a.len() == 0 && b.len() == 0 {
        assert(a =~= b);
    }
}

/// No optional path orders before itself, swapping two swaps their order, and the order chains.
pub proof fn lemma_order_optional_path(
    a: Option<SessionPath>,
    b: Option<SessionPath>,
    c: Option<SessionPath>,
)
    ensures
        order_optional_path(a, a) == 0,
        order_optional_path(b, a) == -order_optional_path(a, b),
        -1 <= order_optional_path(a, b) <= 1,
        chained(order_optional_path(a, b), order_optional_path(b, c), order_optional_path(a, c)),
{
    let list = |p: Option<SessionPath>| components(p->0.text@);
    if a is Some && b is Some && c is Some {
        lemma_order_components(list(a), list(b), list(c));
    } else if a is Some && b is Some {
        lemma_order_components(list(a), list(b), list(a));
    } else if a is Some && c is Some {
        lemma_order_components(list(a), list(c), list(a));
    } else if b is Some && c is Some {
        lemma_order_components(list(b), list(c), list(b));
    } else if a is Some {
        lemma_order_components(list(a), list(a), list(a));
    }
}

fn is_single(chars: &Vec<char>, at: usize, end: usize, ch: char) -> (r: bool)
    requires
        at <= end <= chars@.len(),
    ensures
        r == (chars@.subrange(at as int, end as int) == seq![ch]),
{
    let r = end - at == 1 && chars[at] == ch;
    proof {
        let part = chars@.subrange(at as int, end as int);
        if r {
            assert(part =~= seq![ch]);
        } else if part == seq![ch] {
            assert(part.len() == 1);
            assert(part[0] == chars@[at as int]);
        }
    }
    r
}

/// The components of the path `text`.
pub fn path_components(text: &str) -> (parts: Vec<String>)
    ensures
        texts_view(parts@) == components(text@),
{
    let chars = to_chars(text);
    let mut parts: Vec<String> = Vec::new();
    let mut at: usize = 0;
    let mut opening = true;
    let ghost head: Seq<Seq<char>> = Seq::empty();
    if chars.len() > 0 && chars[0] == '/' {
        let mut root = String::new();
        root.push('/');
        parts.push(root);
        at = 1;
        opening = false;
        proof {
            assert(root@ =~= seq!['/']);
            assert(texts_view(parts@) =~= seq![seq!['/']]);
        }
    } else {
        proof {
            assert(text@.skip(0) =~= text@);
            assert(texts_view(parts@) + pieces(text@, true) =~= pieces(text@, true));
        }
    }
    let mut done = false;
    while !done
        invariant
            at <= chars.len(),
            chars@ == text@,
            done ==> texts_view(parts@) == components(text@),
            !done ==> texts_view(parts@) + pieces(text@.skip(at as int), opening) == components(
                text@,
            ),
        decreases chars.len() - at + (if done { 0int } else { 1int }),
    {
        let end: usize = find_char(&chars, at, '/');
        let ghost rest = text@.skip(at as int);
        let ghost before = texts_view(parts@);
        proof {
            assert(rest.take(end - at) =~= text@.subrange(at as int, end as int));
        }
        if end > at && (opening || !is_single(&chars, at, end, '.')) {
            let part = from_chars(&chars, at, end);
            parts.push(part);
            proof {
                assert(texts_view(parts@) =~= before + seq![part@]);
            }
        } else {
            proof {
                assert(texts_view(parts@) =~= before + Seq::<Seq<char>>::empty());
            }
        }
        let ghost now = texts_view(parts@);
        if end < chars.len() {
            proof {
                assert(rest.skip(end - at + 1) =~= text@.skip(end + 1));
                let tail = pieces(text@.skip(end + 1), false);
                let kept = now.skip(before.len() as int);
                assert(now =~= before + kept);
                assert(before + (kept + tail) =~= now + tail);
            }
            at = end + 1;
            opening = false;
        } else {
            done = true;
        }
    }
    parts
}

fn compare_component(a: &String, b: &String) -> (r: i8)
    ensures
        r == order_component(a@, b@),
{
    let left: i8 = rank_of(a);
    let right: i8 = rank_of(b);
    if left < right {
        -1
    } else if left > right {
        1
    } else {
        compare_text(a.as_str(), b.as_str())
    }
}

fn rank_of(name: &String) -> (r: i8)
    ensures
        r == component_rank(name@),
{
    let chars = to_chars(name.as_str());
    if chars.len() == 1 && chars[0] == '/' {
        proof {
            assert(name@ =~= seq!['/']);
        }
        0
    } else if chars.len() == 1 && chars[0] == '.' {
        proof {
            assert(name@ =~= seq!['.']);
            assert(name@ != seq!['/']);
        }
        1
    } else if chars.len() == 2 && chars[0] == '.' && chars[1] == '.' {
        proof {
            assert(name@ =~= seq!['.', '.']);
        }
        2
    } else {
        3
    }
}

fn compare_component_lists(a: &Vec<String>, b: &Vec<String>) -> (r: i8)
    ensures
        r == order_components(texts_view(a@), texts_view(b@)),
{
    let ghost left = texts_view(a@);
    let ghost right = texts_view(b@);
    let mut i: usize = 0;
    proof {
        assert(left.skip(0) =~= left);
        assert(right.skip(0) =~= right);
    }
    while i < a.len() && i < b.len()
        invariant
            i <= a.len(),
            i <= b.len(),
            left == texts_view(a@),
            right == texts_view(b@),
            order_components(left, right) == order_components(
                left.skip(i as int),
                right.skip(i as int),
            ),
        decreases a.len() - i,
    {
        let order: i8 = compare_component(&a[i], &b[i]);
        proof {
            assert(left.skip(i as int)[0] == a@[i as int]@);
            assert(right.skip(i as int)[0] == b@[i as int]@);
        }
        if order != 0 {
            return order;
        }
        proof {
            assert(left.skip(i as int).skip(1) =~= left.skip(i + 1));
            assert(right.skip(i as int).skip(1) =~= right.skip(i + 1));
        }
        i += 1;
    }
    if i < b.len() {
        -1
    } else if i < a.len() {
        1
    } else {
        0
    }
}

pub fn compare_optional_path(a: &Option<SessionPath>, b: &Option<SessionPath>) -> (r: i8)
    ensures
        r == order_optional_path(*a, *b),
{
    match (a, b) {
        (None, None) => 0,
        (None, Some(_)) => -1,
        (Some(_), None) => 1,
        (Some(a), Some(b)) => compare_component_lists(
            &path_components(a.text.as_str()),
            &path_components(b.text.as_str()),
        ),
    }
}

/// Whether two texts name one path.
pub fn is_same_path(a: &str, b: &str) -> (r: bool)
    ensures
        r == same_path(a@, b@),
{
    let left = path_components(a);
    let right = path_components(b);
    proof {
        lemma_order_components(texts_view(left@), texts_view(right@), texts_view(left@));
    }
    compare_component_lists(&left, &right) == 0
}

/// Two paths match where their normalized forms are the same path or, where one of these is not
/// known, where they themselves are.
pub open spec fn path_matches(a: SessionPath, b: SessionPath) -> bool {
    match (a.canonical, b.canonical) {
        (Some(left), Some(right)) => same_path(left@, right@),
        _ => same_path(a.text@, b.text@),
    }
}

pub fn paths_match(a: &SessionPath, b: &SessionPath) -> (r: bool)
    ensures
        r == path_matches(*a, *b),
{
    match (&a.canonical, &b.canonical) {
        (Some(left), Some(right)) => is_same_path(left.as_str(), right.as_str()),
        _ => is_same_path(a.text.as_str(), b.text.as_str()),
    }
}

} // verus!
