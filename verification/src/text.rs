//! Text operations on characters: trimming, splitting, searching and building.

use vstd::prelude::*;

verus! {

/// `String::push` appends one character to the end of the string.
pub assume_specification[ String::push ](text: &mut String, ch: char)
    ensures
        final(text)@ == old(text)@.push(ch),
;

/// The characters with the Unicode `White_Space` property.
pub open spec fn is_space(ch: char) -> bool {
    ||| '\u{0009}' <= ch <= '\u{000d}'
    ||| ch == '\u{0020}'
    ||| ch == '\u{0085}'
    ||| ch == '\u{00a0}'
    ||| ch == '\u{1680}'
    ||| '\u{2000}' <= ch <= '\u{200a}'
    ||| ch == '\u{2028}'
    ||| ch == '\u{2029}'
    ||| ch == '\u{202f}'
    ||| ch == '\u{205f}'
    ||| ch == '\u{3000}'
}

pub fn is_whitespace(ch: char) -> (r: bool)
    ensures
        r == is_space(ch),
{
    ('\u{0009}' <= ch && ch <= '\u{000d}') || ch == '\u{0020}' || ch == '\u{0085}'
        || ch == '\u{00a0}' || ch == '\u{1680}' || ('\u{2000}' <= ch && ch <= '\u{200a}')
        || ch == '\u{2028}' || ch == '\u{2029}' || ch == '\u{202f}' || ch == '\u{205f}'
        || ch == '\u{3000}'
}

/// The characters of `text`, in order.
pub fn to_chars(text: &str) -> (chars: Vec<char>)
    ensures
        chars@ == text@,
{
    let mut chars: Vec<char> = Vec::new();
    for ch in it: text.chars()
        invariant
            chars@ == it.seq().take(it.index()),
            it.seq() == text@,
    {
        proof {
            assert(it.seq().take(it.index() + 1) =~= it.seq().take(it.index()).push(ch));
        }
        chars.push(ch);
    }
    proof {
        assert(text@.take(text@.len() as int) =~= text@);
    }
    chars
}

/// The string made of `chars[from..to]`.
pub fn from_chars(chars: &Vec<char>, from: usize, to: usize) -> (text: String)
    requires
        from <= to <= chars@.len(),
    ensures
        text@ == chars@.subrange(from as int, to as int),
{
    let mut text = String::new();
    let mut i: usize = from;
    while i < to
        invariant
            from <= i <= to <= chars@.len(),
            text@ == chars@.subrange(from as int, i as int),
        decreases to - i,
    {
        text.push(chars[i]);
        proof {
            assert(chars@.subrange(from as int, i + 1) =~= chars@.subrange(
                from as int,
                i as int,
            ).push(chars@[i as int]));
        }
        i += 1;
    }
    text
}

/// A copy of an optional string.
pub fn clone_optional(text: &Option<String>) -> (r: Option<String>)
    ensures
        r == *text,
{
    match text {
        Some(value) => Some(value.clone()),
        None => None,
    }
}

/// The view of an optional string.
pub open spec fn optional_view(text: Option<String>) -> Option<Seq<char>> {
    match text {
        Some(value) => Some(value@),
        None => None,
    }
}

pub open spec fn trimmed_start(text: Seq<char>) -> Seq<char>
    decreases text.len(),
{
    if text.len() > 0 && is_space(text[0]) {
        trimmed_start(text.skip(1))
    } else {
        text
    }
}

pub open spec fn trimmed_end(text: Seq<char>) -> Seq<char>
    decreases text.len(),
{
    if text.len() > 0 && is_space(text.last()) {
        trimmed_end(text.drop_last())
    } else {
        text
    }
}

/// `text` without leading and trailing white space.
pub open spec fn trimmed(text: Seq<char>) -> Seq<char> {
    trimmed_end(trimmed_start(text))
}

/// `text` without leading and trailing white space.
pub fn trim(text: &str) -> (r: String)
    ensures
        r@ == trimmed(text@),
{
    let chars = to_chars(text);
    proof {
        assert(text@.skip(0) =~= text@);
    }
    let mut start: usize = 0;
    while start < chars.len() && is_whitespace(chars[start])
        invariant
            start <= chars@.len(),
            chars@ == text@,
            trimmed_start(text@) == trimmed_start(text@.skip(start as int)),
        decreases chars@.len() - start,
    {
        proof {
            let rest = text@.skip(start as int);
            assert(rest[0] == text@[start as int]);
            assert(rest.skip(1) =~= text@.skip(start + 1));
        }
        start += 1;
    }
    let ghost head = text@.skip(start as int);
    proof {
        if start < chars@.len() {
            assert(head[0] == text@[start as int]);
        }
        assert(trimmed_start(text@) == head);
    }
    let mut end: usize = chars.len();
    while end > start && is_whitespace(chars[end - 1])
        invariant
            start <= end <= chars@.len(),
            chars@ == text@,
            head == text@.skip(start as int),
            trimmed_end(head) == trimmed_end(text@.subrange(start as int, end as int)),
        decreases end,
    {
        proof {
            let rest = text@.subrange(start as int, end as int);
            assert(rest.last() == text@[end - 1]);
            assert(rest.drop_last() =~= text@.subrange(start as int, end - 1));
        }
        end -= 1;
    }
    proof {
        assert(head =~= text@.subrange(start as int, text@.len() as int));
        let rest = text@.subrange(start as int, end as int);
        if end > start {
            assert(rest.last() == text@[end - 1]);
        }
    }
    from_chars(&chars, start, end)
}

/// `needle` stands in `text` at `at`.
pub open spec fn occurs_at(text: Seq<char>, needle: Seq<char>, at: int) -> bool {
    0 <= at && at + needle.len() <= text.len() && text.subrange(at, at + needle.len()) == needle
}

/// `needle` stands somewhere in `text`.
pub open spec fn occurs_in(text: Seq<char>, needle: Seq<char>) -> bool {
    exists|at: int| occurs_at(text, needle, at)
}

/// Whether `needle` stands in `chars` at `at`.
pub fn stands_at(chars: &Vec<char>, needle: &Vec<char>, at: usize) -> (r: bool)
    requires
        at <= chars@.len(),
    ensures
        r == occurs_at(chars@, needle@, at as int),
{
    if needle.len() > chars.len() - at {
        return false;
    }
    let mut i: usize = 0;
    while i < needle.len()
        invariant
            i <= needle.len(),
            at + needle.len() <= chars.len(),
            forall|j: int| 0 <= j < i ==> chars@[at + j] == needle@[j],
        decreases needle@.len() - i,
    {
        if chars[at + i] != needle[i] {
            proof {
                let part = chars@.subrange(at as int, at + needle@.len());
                assert(part[i as int] != needle@[i as int]);
            }
            return false;
        }
        i += 1;
    }
    proof {
        assert(chars@.subrange(at as int, at + needle@.len()) =~= needle@);
    }
    true
}

/// Whether `needle` stands somewhere in `text`.
pub fn contains_text(text: &str, needle: &str) -> (r: bool)
    ensures
        r == occurs_in(text@, needle@),
{
    let chars = to_chars(text);
    let wanted = to_chars(needle);
    let mut at: usize = 0;
    while at < chars.len()
        invariant
            at <= chars@.len(),
            chars@ == text@,
            wanted@ == needle@,
            forall|j: int| 0 <= j < at ==> !occurs_at(text@, needle@, j),
        decreases chars@.len() - at,
    {
        if stands_at(&chars, &wanted, at) {
            return true;
        }
        at += 1;
    }
    let found = stands_at(&chars, &wanted, at);
    proof {
        if !found {
            assert forall|j: int| !occurs_at(text@, needle@, j) by {
                if 0 <= j <= at {
                } else {
                    assert(j < 0 || j + needle@.len() > text@.len());
                }
            }
        }
    }
    found
}

/// The lower-case form that `str::to_lowercase` gives.
pub uninterp spec fn lowercase_of(text: Seq<char>) -> Seq<char>;

/// `str::to_lowercase`: the lower-case equivalent of the text by the Unicode property
/// `Lowercase`, which depends on the text alone and on no locale.
#[verifier::external_body]
pub(crate) fn to_lowercase(text: &str) -> (r: String)
    ensures
        r@ == lowercase_of(text@),
{
    text.to_lowercase()
}

/// `count` copies of `ch`.
pub open spec fn repeated(ch: char, count: nat) -> Seq<char> {
    Seq::new(count, |i: int| ch)
}

/// `count` copies of `ch`.
pub fn repeat_char(ch: char, count: usize) -> (r: String)
    ensures
        r@ == repeated(ch, count as nat),
{
    let mut text = String::new();
    let mut i: usize = 0;
    while i < count
        invariant
            i <= count,
            text@ == repeated(ch, i as nat),
        decreases count - i,
    {
        text.push(ch);
        proof {
            assert(repeated(ch, (i + 1) as nat) =~= repeated(ch, i as nat).push(ch));
        }
        i += 1;
    }
    text
}

pub open spec fn digit(value: nat) -> char {
    (48 + value) as char
}

/// The decimal digits of `value`.
pub open spec fn decimal(value: nat) -> Seq<char>
    decreases value,
{
    if value < 10 {
        seq![digit(value)]
    } else {
        decimal(value / 10).push(digit(value % 10))
    }
}

/// The decimal digits of `value`.
pub fn decimal_text(value: u64) -> (r: String)
    ensures
        r@ == decimal(value as nat),
    decreases value,
{
    let last: u8 = (value % 10) as u8;
    let ch = (48 + last) as char;
    let mut text = String::new();
    if value >= 10 {
        text = decimal_text(value / 10);
    }
    text.push(ch);
    proof {
        if value < 10 {
            assert(text@ =~= seq![digit(value as nat)]);
        }
    }
    text
}

/// `text` cut to `max` characters. Where something is cut and there is room, the last three
/// characters are dots.
pub open spec fn truncated(text: Seq<char>, max: nat) -> Seq<char> {
    if text.len() <= max {
        text
    } else if max >= 3 {
        text.take(max - 3) + repeated('.', 3)
    } else {
        text.take(max as int)
    }
}

/// `text` cut to `max` characters, with three dots at the end where something was cut.
pub fn truncate_text(text: &str, max: usize) -> (r: String)
    ensures
        r@ == truncated(text@, max as nat),
        r@.len() <= max || r@ == text@,
{
    let chars = to_chars(text);
    if chars.len() <= max {
        return text.to_owned();
    }
    if max >= 3 {
        let mut cut = from_chars(&chars, 0, max - 3);
        cut.push('.');
        cut.push('.');
        cut.push('.');
        proof {
            assert(cut@ =~= text@.take(max - 3) + repeated('.', 3));
        }
        cut
    } else {
        from_chars(&chars, 0, max)
    }
}

/// The index of the first `ch` in `text`, or the length of `text`.
pub open spec fn first_index(text: Seq<char>, ch: char) -> int
    decreases text.len(),
{
    if text.len() == 0 || text[0] == ch {
        0
    } else {
        1 + first_index(text.skip(1), ch)
    }
}

pub proof fn lemma_first_index(text: Seq<char>, ch: char)
    ensures
        0 <= first_index(text, ch) <= text.len(),
        first_index(text, ch) < text.len() ==> text[first_index(text, ch)] == ch,
        forall|i: int| 0 <= i < first_index(text, ch) ==> text[i] != ch,
    decreases text.len(),
{
    if text.len() > 0 && text[0] != ch {
        let rest = text.skip(1);
        lemma_first_index(rest, ch);
        assert forall|i: int| 0 <= i < first_index(text, ch) implies text[i] != ch by {
            if i > 0 {
                assert(rest[i - 1] == text[i]);
            }
        }
        if first_index(text, ch) < text.len() {
            assert(rest[first_index(rest, ch)] == text[first_index(text, ch)]);
        }
    }
}

/// The index of the first `ch` in `chars` at or after `from`, or the length of `chars`.
pub fn find_char(chars: &Vec<char>, from: usize, ch: char) -> (r: usize)
    requires
        from <= chars@.len(),
    ensures
        r == from + first_index(chars@.skip(from as int), ch),
        from <= r <= chars@.len(),
        r < chars@.len() ==> chars@[r as int] == ch,
{
    let mut i: usize = from;
    while i < chars.len() && chars[i] != ch
        invariant
            from <= i <= chars@.len(),
            from + first_index(chars@.skip(from as int), ch) == i + first_index(
                chars@.skip(i as int),
                ch,
            ),
        decreases chars@.len() - i,
    {
        proof {
            assert(chars@.skip(i as int).skip(1) =~= chars@.skip(i + 1));
        }
        i += 1;
    }
    i
}

/// The lines of `text`, by `\n` or `\r\n`, without their endings. A last line without an ending
/// counts where it is not empty.
pub open spec fn lines_of(text: Seq<char>) -> Seq<Seq<char>>
    decreases text.len(),
    via lines_of_decreases
{
    if text.len() == 0 {
        Seq::empty()
    } else {
        let end = first_index(text, '\n');
        if end >= text.len() {
            seq![text]
        } else {
            let line = text.take(end);
            let line = if line.len() > 0 && line.last() == '\r' {
                line.drop_last()
            } else {
                line
            };
            seq![line] + lines_of(text.skip(end + 1))
        }
    }
}

#[via_fn]
proof fn lines_of_decreases(text: Seq<char>) {
    lemma_first_index(text, '\n');
}

/// The views of some strings.
pub open spec fn texts_view(texts: Seq<String>) -> Seq<Seq<char>> {
    Seq::new(texts.len(), |i: int| texts[i]@)
}

/// The lines of `text`, by `\n` or `\r\n`, without their endings.
pub fn split_lines(text: &str) -> (lines: Vec<String>)
    ensures
        texts_view(lines@) == lines_of(text@),
{
    let chars = to_chars(text);
    let mut lines: Vec<String> = Vec::new();
    let mut at: usize = 0;
    proof {
        assert(text@.skip(0) =~= text@);
        assert(texts_view(lines@) + lines_of(text@) =~= lines_of(text@));
    }
    while at < chars.len()
        invariant
            at <= chars.len(),
            chars@ == text@,
            texts_view(lines@) + lines_of(text@.skip(at as int)) == lines_of(text@),
        decreases chars.len() - at,
    {
        let end: usize = find_char(&chars, at, '\n');
        let ghost rest = text@.skip(at as int);
        let ghost before = texts_view(lines@);
        if end >= chars.len() {
            let line = from_chars(&chars, at, end);
            lines.push(line);
            proof {
                assert(line@ =~= rest);
                assert(texts_view(lines@) =~= before.push(line@));
                assert(before + seq![rest] =~= before.push(rest));
                assert(text@.skip(end as int) =~= Seq::<char>::empty());
                assert(texts_view(lines@) + Seq::<Seq<char>>::empty() =~= texts_view(lines@));
            }
            at = end;
        } else {
            let mut stop: usize = end;
            if stop > at && chars[stop - 1] == '\r' {
                stop -= 1;
            }
            let line = from_chars(&chars, at, stop);
            lines.push(line);
            proof {
                let whole = rest.take(end - at);
                assert(whole =~= text@.subrange(at as int, end as int));
                if whole.len() > 0 {
                    assert(whole.last() == text@[end - 1]);
                    assert(whole.drop_last() =~= text@.subrange(at as int, end - 1));
                }
                assert(rest.skip(end - at + 1) =~= text@.skip(end + 1));
                assert(texts_view(lines@) =~= before.push(line@));
                assert(before + (seq![line@] + lines_of(text@.skip(end + 1))) =~= before.push(
                    line@,
                ) + lines_of(text@.skip(end + 1)));
            }
            at = end + 1;
        }
    }
    proof {
        assert(text@.skip(at as int) =~= Seq::<char>::empty());
        assert(texts_view(lines@) + Seq::<Seq<char>>::empty() =~= texts_view(lines@));
    }
    lines
}

/// `text` with each `pattern`, taken from the left and not overlapping, replaced.
pub open spec fn replaced(text: Seq<char>, pattern: Seq<char>, with: Seq<char>) -> Seq<char>
    decreases text.len(),
{
    if pattern.len() == 0 || text.len() < pattern.len() {
        text
    } else if occurs_at(text, pattern, 0) {
        with + replaced(text.skip(pattern.len() as int), pattern, with)
    } else {
        seq![text[0]] + replaced(text.skip(1), pattern, with)
    }
}

/// `text` with each `pattern`, taken from the left and not overlapping, replaced.
pub fn replace_text(text: &str, pattern: &str, with: &str) -> (r: String)
    requires
        pattern@.len() > 0,
    ensures
        r@ == replaced(text@, pattern@, with@),
{
    let chars = to_chars(text);
    let wanted = to_chars(pattern);
    let mut r = String::new();
    let mut at: usize = 0;
    proof {
        assert(text@.skip(0) =~= text@);
        assert(r@ + replaced(text@, pattern@, with@) =~= replaced(text@, pattern@, with@));
    }
    while at < chars.len()
        invariant
            at <= chars.len(),
            chars@ == text@,
            wanted@ == pattern@,
            pattern@.len() > 0,
            r@ + replaced(text@.skip(at as int), pattern@, with@) == replaced(
                text@,
                pattern@,
                with@,
            ),
        decreases chars.len() - at,
    {
        let ghost rest = text@.skip(at as int);
        let ghost before = r@;
        let found = stands_at(&chars, &wanted, at);
        proof {
            assert(found == occurs_at(rest, pattern@, 0)) by {
                if at + pattern@.len() <= text@.len() {
                    assert(rest.subrange(0, pattern@.len() as int) =~= text@.subrange(
                        at as int,
                        at + pattern@.len(),
                    ));
                }
            }
        }
        if found {
            r.append(with);
            proof {
                let tail = replaced(text@.skip(at + pattern@.len()), pattern@, with@);
                assert(rest.skip(pattern@.len() as int) =~= text@.skip(at + pattern@.len()));
                assert(before + (with@ + tail) =~= (before + with@) + tail);
            }
            at += wanted.len();
        } else {
            r.push(chars[at]);
            proof {
                assert(rest.skip(1) =~= text@.skip(at + 1));
                let tail = replaced(text@.skip(at + 1), pattern@, with@);
                if rest.len() < pattern@.len() {
                    assert(tail =~= text@.skip(at + 1));
                    assert(rest =~= seq![rest[0]] + tail);
                }
                assert(before + (seq![rest[0]] + tail) =~= before.push(rest[0]) + tail);
            }
            at += 1;
        }
    }
    proof {
        assert(text@.skip(at as int) =~= Seq::<char>::empty());
        assert(r@ + Seq::<char>::empty() =~= r@);
    }
    r
}

/// The words of `text` (its runs of characters that are no white space), parted by single spaces.
pub open spec fn words_joined(text: Seq<char>) -> Seq<char>
    decreases text.len(),
{
    if text.len() == 0 {
        Seq::empty()
    } else {
        let before = words_joined(text.drop_last());
        if is_space(text.last()) {
            before
        } else if text.len() > 1 && is_space(text[text.len() - 2]) && before.len() > 0 {
            before.push(' ').push(text.last())
        } else {
            before.push(text.last())
        }
    }
}

/// The words of `text`, parted by single spaces.
pub fn join_words(text: &str) -> (r: String)
    ensures
        r@ == words_joined(text@),
{
    let chars = to_chars(text);
    let mut r = String::new();
    let mut empty = true;
    let mut i: usize = 0;
    while i < chars.len()
        invariant
            i <= chars.len(),
            chars@ == text@,
            r@ == words_joined(text@.take(i as int)),
            empty == (r@.len() == 0),
        decreases chars.len() - i,
    {
        proof {
            let part = text@.take(i + 1);
            assert(part.drop_last() =~= text@.take(i as int));
            assert(part.last() == text@[i as int]);
            if i > 0 {
                assert(part[part.len() - 2] == text@[i - 1]);
            }
        }
        if !is_whitespace(chars[i]) {
            if i > 0 && is_whitespace(chars[i - 1]) && !empty {
                r.push(' ');
            }
            r.push(chars[i]);
            empty = false;
        }
        i += 1;
    }
    proof {
        assert(text@.take(text@.len() as int) =~= text@);
    }
    r
}

} // verus!
