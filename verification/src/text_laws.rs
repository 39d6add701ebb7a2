//! What the texts that the picker reads and shows are: trimmed, joined, cut and split, numbers,
//! times, and lines of conversations.

use vstd::prelude::*;
use crate::preview::{
    conversation, item_lines, link_markdown, link_shown, links_shown, newest, spoken, texts_joined,
    told, PreviewLineView, PreviewLoad,
};
use crate::protocol::{ThreadItem, ThreadItemsPage, TrustedFileLink, UserInput};
use crate::session::TranscriptPreviewSpeaker;
use crate::text::{
    decimal, first_index, is_space, lemma_first_index, lines_of, occurs_at, occurs_in, replaced,
    texts_view, trimmed, trimmed_end, trimmed_start, truncated, words_joined,
};
use crate::time::{elapsed, relative_text, relative_time_text, relative_words, Timestamp};

verus! {

/// Every character of `text` is white space.
pub open spec fn is_blank(text: Seq<char>) -> bool {
    forall|i: int| 0 <= i < text.len() ==> is_space(#[trigger] text[i])
}

/// No character of `text` is white space.
pub open spec fn is_word(text: Seq<char>) -> bool {
    forall|i: int| 0 <= i < text.len() ==> !is_space(#[trigger] text[i])
}

proof fn lemma_trimmed_start(text: Seq<char>) -> (front: Seq<char>)
    ensures
        is_blank(front),
        text == front + trimmed_start(text),
        trimmed_start(text).len() > 0 ==> !is_space(trimmed_start(text)[0]),
    decreases text.len(),
{
    if text.len() > 0 && is_space(text[0]) {
        let front = lemma_trimmed_start(text.skip(1));
        let whole = seq![text[0]] + front;
        assert(text =~= seq![text[0]] + text.skip(1));
        assert(seq![text[0]] + (front + trimmed_start(text)) =~= whole + trimmed_start(text));
        whole
    } else {
        assert(text =~= Seq::<char>::empty() + text);
        Seq::empty()
    }
}

proof fn lemma_trimmed_end(text: Seq<char>) -> (back: Seq<char>)
    ensures
        is_blank(back),
        text == trimmed_end(text) + back,
        trimmed_end(text).len() > 0 ==> !is_space(trimmed_end(text).last()),
        text.len() > 0 && !is_space(text[0]) ==> trimmed_end(text).len() > 0
            && trimmed_end(text)[0] == text[0],
    decreases text.len(),
{
    if text.len() > 0 && is_space(text.last()) {
        let back = lemma_trimmed_end(text.drop_last());
        let whole = back.push(text.last());
        assert(text =~= text.drop_last().push(text.last()));
        assert((trimmed_end(text) + back).push(text.last()) =~= trimmed_end(text) + whole);
        assert forall|i: int| 0 <= i < whole.len() implies is_space(#[trigger] whole[i]) by {
            if i < back.len() {
                assert(whole[i] == back[i]);
            }
        }
        whole
    } else {
        assert(text =~= text + Seq::<char>::empty());
        Seq::empty()
    }
}

/// Trimming takes white space away from both ends, all of it and nothing else.
pub proof fn lemma_trimming_takes_white_space_alone(text: Seq<char>) -> (ends: (
    Seq<char>,
    Seq<char>,
))
    ensures
        text == ends.0 + trimmed(text) + ends.1,
        is_blank(ends.0),
        is_blank(ends.1),
        trimmed(text).len() > 0 ==> !is_space(trimmed(text)[0]) && !is_space(
            trimmed(text).last(),
        ),
{
    let front = lemma_trimmed_start(text);
    let back = lemma_trimmed_end(trimmed_start(text));
    assert(text =~= front + trimmed(text) + back);
    (front, back)
}

/// A text that neither begins nor ends with white space is trimmed already, and one of white space
/// alone leaves nothing.
pub proof fn lemma_trimmed_text_stays(text: Seq<char>)
    ensures
        text.len() > 0 && !is_space(text[0]) && !is_space(text.last()) ==> trimmed(text) == text,
        is_blank(text) ==> trimmed(text).len() == 0,
{
    if is_blank(text) {
        let (front, back) = lemma_trimming_takes_white_space_alone(text);
        if trimmed(text).len() > 0 {
            assert(text[front.len() as int] == trimmed(text)[0]);
        }
    }
}

proof fn lemma_words_of_word(text: Seq<char>, word: Seq<char>)
    requires
        is_word(word),
        word.len() > 0,
        text.len() > 0,
        is_space(text.last()),
    ensures
        words_joined(text + word) == (if words_joined(text).len() == 0 {
            word
        } else {
            words_joined(text) + seq![' '] + word
        }),
    decreases word.len(),
{
    let whole = text + word;
    assert(whole.last() == word.last());
    assert(whole.drop_last() =~= text + word.drop_last());
    if word.len() == 1 {
        assert(whole.drop_last() =~= text);
        assert(whole[whole.len() - 2] == text.last());
        assert(words_joined(whole) =~= if words_joined(text).len() == 0 {
            word
        } else {
            words_joined(text) + seq![' '] + word
        });
    } else {
        let less = word.drop_last();
        assert forall|i: int| 0 <= i < less.len() implies !is_space(#[trigger] less[i]) by {
            assert(less[i] == word[i]);
        }
        lemma_words_of_word(text, less);
        assert(whole[whole.len() - 2] == word[word.len() - 2]);
        assert(words_joined(whole) =~= if words_joined(text).len() == 0 {
            word
        } else {
            words_joined(text) + seq![' '] + word
        });
    }
}

proof fn lemma_words_of_one_word(word: Seq<char>)
    requires
        is_word(word),
    ensures
        words_joined(word) == word,
    decreases word.len(),
{
    if word.len() > 0 {
        let less = word.drop_last();
        assert forall|i: int| 0 <= i < less.len() implies !is_space(#[trigger] less[i]) by {
            assert(less[i] == word[i]);
        }
        lemma_words_of_one_word(less);
        if word.len() > 1 {
            assert(!is_space(word[word.len() - 2]));
        }
        assert(words_joined(word) =~= word);
    } else {
        assert(words_joined(word) =~= word);
    }
}

/// Words that are parted by any white space are joined by one space: white space at the end adds
/// nothing, a word behind it is added behind a space, and the first word stands alone.
pub proof fn lemma_words_are_joined_by_single_spaces(text: Seq<char>, space: char, word: Seq<char>)
    requires
        is_space(space),
        is_word(word),
        word.len() > 0,
    ensures
        words_joined(word) == word,
        words_joined(text.push(space)) == words_joined(text),
        words_joined(text).len() == 0 ==> words_joined(text.push(space) + word) == word,
        words_joined(text).len() > 0 ==> words_joined(text.push(space) + word) == words_joined(
            text,
        ) + seq![' '] + word,
{
    lemma_words_of_one_word(word);
    assert(text.push(space).drop_last() =~= text);
    lemma_words_of_word(text.push(space), word);
}

/// A text that is cut keeps within its bound: a shorter one stays whole, a longer one keeps its
/// beginning and ends in three dots where there is room for them.
pub proof fn lemma_cut_text_fits(text: Seq<char>, max: nat)
    ensures
        truncated(text, max).len() <= max,
        text.len() <= max ==> truncated(text, max) == text,
        text.len() > max ==> truncated(text, max).len() == max,
        text.len() > max && max >= 3 ==> truncated(text, max) == text.take(max - 3) + seq![
            '.',
            '.',
            '.',
        ],
        text.len() > max && max < 3 ==> truncated(text, max) == text.take(max as int),
{
    if text.len() > max && max >= 3 {
        assert(truncated(text, max) =~= text.take(max - 3) + seq!['.', '.', '.']);
    }
}

/// The number that decimal digits spell.
pub open spec fn number_of(digits: Seq<char>) -> int
    decreases digits.len(),
{
    if digits.len() == 0 {
        0
    } else {
        10 * number_of(digits.drop_last()) + (digits.last() as int - '0' as int)
    }
}

/// The digits of a number spell it, and begin with no zero but that of zero itself.
pub proof fn lemma_digits_spell_their_number(value: nat)
    ensures
        number_of(decimal(value)) == value,
        decimal(value).len() > 0,
        forall|i: int| 0 <= i < decimal(value).len() ==> '0' <= #[trigger] decimal(value)[i] <= '9',
        value > 0 ==> decimal(value)[0] != '0',
    decreases value,
{
    reveal_with_fuel(number_of, 2);
    if value >= 10 {
        lemma_digits_spell_their_number(value / 10);
        let front = decimal(value / 10);
        let whole = decimal(value);
        assert(whole.drop_last() =~= front);
        assert forall|i: int| 0 <= i < whole.len() implies '0' <= #[trigger] whole[i] <= '9' by {
            if i < front.len() {
                assert(whole[i] == front[i]);
            }
        }
        assert(whole[0] == front[0]);
    } else {
        assert(decimal(value).drop_last() =~= Seq::<char>::empty());
    }
}

/// Time is told in the largest unit of which a whole one has passed, and by how many of them have.
pub proof fn lemma_time_is_told_in_its_largest_unit(seconds: int)
    requires
        seconds >= 0,
    ensures
        seconds == 0 ==> relative_text(seconds) == "now"@ && relative_words(seconds) == "now"@,
        0 < seconds < 60 ==> relative_text(seconds) == decimal(seconds as nat) + "s ago"@,
        60 <= seconds < 60 * 60 ==> exists|count: nat|
            count * 60 <= seconds < (count + 1) * 60 && relative_text(seconds) == #[trigger] decimal(
                count,
            ) + "m ago"@,
        60 * 60 <= seconds < 24 * 60 * 60 ==> exists|count: nat|
            count * 3600 <= seconds < (count + 1) * 3600 && relative_text(seconds)
                == #[trigger] decimal(count) + "h ago"@,
        24 * 60 * 60 <= seconds ==> exists|count: nat|
            count * 86400 <= seconds < (count + 1) * 86400 && relative_text(seconds)
                == #[trigger] decimal(count) + "d ago"@,
{
    if 60 <= seconds < 3600 {
        let count = (seconds / 60) as nat;
        assert(relative_text(seconds) == decimal(count) + "m ago"@);
    } else if 3600 <= seconds < 86400 {
        let count = (seconds / 3600) as nat;
        assert(relative_text(seconds) == decimal(count) + "h ago"@);
    } else if 86400 <= seconds {
        let count = (seconds / 86400) as nat;
        assert(relative_text(seconds) == decimal(count) + "d ago"@);
    }
}

/// In words a single unit stands in the singular, and several in the plural.
pub proof fn lemma_time_is_told_in_words(seconds: int, count: nat)
    requires
        seconds > 0,
    ensures
        seconds == 1 ==> relative_words(seconds) == "1 "@ + "second"@ + " ago"@,
        1 < seconds < 60 && seconds == count ==> relative_words(seconds) == decimal(count) + " "@
            + "second"@ + "s ago"@,
        60 <= seconds < 120 ==> relative_words(seconds) == "1 "@ + "minute"@ + " ago"@,
        120 <= seconds < 3600 && count * 60 <= seconds < (count + 1) * 60 ==> relative_words(
            seconds,
        ) == decimal(count) + " "@ + "minute"@ + "s ago"@,
        3600 <= seconds < 7200 ==> relative_words(seconds) == "1 "@ + "hour"@ + " ago"@,
        7200 <= seconds < 86400 && count * 3600 <= seconds < (count + 1) * 3600 ==> relative_words(
            seconds,
        ) == decimal(count) + " "@ + "hour"@ + "s ago"@,
        86400 <= seconds < 172800 ==> relative_words(seconds) == "1 "@ + "day"@ + " ago"@,
        172800 <= seconds && count * 86400 <= seconds < (count + 1) * 86400 ==> relative_words(
            seconds,
        ) == decimal(count) + " "@ + "day"@ + "s ago"@,
{
}

/// What has passed since an instant: the seconds between the two, none where the instant lies ahead;
/// a dash stands for no instant.
pub proof fn lemma_elapsed_is_the_difference(reference: Timestamp, ts: Timestamp)
    requires
        reference.nanos() < 1_000_000_000,
        ts.nanos() < 1_000_000_000,
    ensures
        ts.seconds() >= reference.seconds() ==> elapsed(reference, ts) == 0,
        ts.seconds() < reference.seconds() && ts.nanos() <= reference.nanos() ==> elapsed(
            reference,
            ts,
        ) == reference.seconds() - ts.seconds(),
        ts.seconds() < reference.seconds() && ts.nanos() > reference.nanos() ==> elapsed(
            reference,
            ts,
        ) == reference.seconds() - ts.seconds() - 1,
        relative_time_text(reference, None) == "-"@,
        relative_time_text(reference, Some(ts)) == relative_text(elapsed(reference, ts)),
{
}

/// A line ends with a line feed, or with a carriage return and a line feed; what stands behind the
/// last one is a line too where it is not empty.
pub proof fn lemma_lines_end_with_line_feeds(line: Seq<char>, rest: Seq<char>)
    requires
        forall|i: int| 0 <= i < line.len() ==> line[i] != '\n',
    ensures
        line.len() > 0 ==> lines_of(line) == seq![line],
        lines_of(Seq::empty()).len() == 0,
        line.len() == 0 || line.last() != '\r' ==> lines_of(line + seq!['\n'] + rest) == seq![line]
            + lines_of(rest),
        lines_of(line + seq!['\r', '\n'] + rest) == seq![line] + lines_of(rest),
{
    lemma_first_index(line, '\n');
    let whole = line + seq!['\n'] + rest;
    lemma_first_index(whole, '\n');
    assert(whole[line.len() as int] == '\n');
    assert forall|i: int| 0 <= i < line.len() implies whole[i] != '\n' by {
        assert(whole[i] == line[i]);
    }
    assert(first_index(whole, '\n') == line.len());
    assert(whole.take(line.len() as int) =~= line);
    assert(whole.skip(line.len() as int + 1) =~= rest);
    let returned = line + seq!['\r', '\n'] + rest;
    lemma_first_index(returned, '\n');
    assert(returned[line.len() as int] == '\r');
    assert(returned[line.len() as int + 1] == '\n');
    assert forall|i: int| 0 <= i < line.len() implies returned[i] != '\n' by {
        assert(returned[i] == line[i]);
    }
    assert(first_index(returned, '\n') == line.len() + 1);
    assert(returned.take(line.len() as int + 1) =~= line.push('\r'));
    assert(line.push('\r').drop_last() =~= line);
    assert(returned.skip(line.len() as int + 2) =~= rest);
}

/// A text without a pattern stays as it is, and the first place of a pattern is replaced, with
/// what stands before it as it was.
pub proof fn lemma_patterns_are_replaced_from_the_left(
    front: Seq<char>,
    pattern: Seq<char>,
    rest: Seq<char>,
    with: Seq<char>,
)
    requires
        pattern.len() > 0,
        forall|at: int| 0 <= at < front.len() ==> !#[trigger] occurs_at(
            front + pattern + rest,
            pattern,
            at,
        ),
    ensures
        replaced(front + pattern + rest, pattern, with) == front + with + replaced(
            rest,
            pattern,
            with,
        ),
    decreases front.len(),
{
    let text = front + pattern + rest;
    if front.len() == 0 {
        assert(text.subrange(0, 0int + pattern.len()) =~= pattern);
        assert(occurs_at(text, pattern, 0));
        assert(text.skip(pattern.len() as int) =~= rest);
        assert(front + with =~= with);
    } else {
        assert(!occurs_at(text, pattern, 0));
        let less = front.skip(1);
        assert(text.skip(1) =~= less + pattern + rest);
        assert forall|at: int| 0 <= at < less.len() implies !#[trigger] occurs_at(
            less + pattern + rest,
            pattern,
            at,
        ) by {
            assert(!occurs_at(text, pattern, at + 1));
            if occurs_at(less + pattern + rest, pattern, at) {
                assert(text.subrange(at + 1, at + 1 + pattern.len()) =~= text.skip(1).subrange(
                    at,
                    at + pattern.len(),
                ));
            }
        }
        lemma_patterns_are_replaced_from_the_left(less, pattern, rest, with);
        assert(replaced(text, pattern, with) == seq![text[0]] + replaced(
            text.skip(1),
            pattern,
            with,
        ));
        assert(text[0] == front[0]);
        assert(seq![front[0]] + (less + with + replaced(rest, pattern, with)) =~= front + with
            + replaced(rest, pattern, with));
    }
}

/// A text in which a pattern does not stand is left as it is.
pub proof fn lemma_text_without_pattern_stays(
    text: Seq<char>,
    pattern: Seq<char>,
    with: Seq<char>,
)
    requires
        !occurs_in(text, pattern),
    ensures
        replaced(text, pattern, with) == text,
    decreases text.len(),
{
    if pattern.len() > 0 && text.len() >= pattern.len() {
        assert(!occurs_at(text, pattern, 0));
        if occurs_in(text.skip(1), pattern) {
            let at = choose|at: int| occurs_at(text.skip(1), pattern, at);
            assert(text.subrange(at + 1, at + 1 + pattern.len()) =~= text.skip(1).subrange(
                at,
                at + pattern.len(),
            ));
            assert(occurs_at(text, pattern, at + 1));
        }
        lemma_text_without_pattern_stays(text.skip(1), pattern, with);
        assert(seq![text[0]] + text.skip(1) =~= text);
    }
}

/// The lines of a speaker are those of the text that hold something, trimmed, in their order.
pub proof fn lemma_spoken_lines_are_those_with_text(
    speaker: TranscriptPreviewSpeaker,
    lines: Seq<Seq<char>>,
    line: Seq<char>,
)
    ensures
        spoken(speaker, Seq::empty()).len() == 0,
        is_blank(line) ==> spoken(speaker, lines.push(line)) == spoken(speaker, lines),
        line.len() > 0 && !is_space(line[0]) && !is_space(line.last()) ==> spoken(
            speaker,
            lines.push(line),
        ) == spoken(speaker, lines).push(PreviewLineView { speaker, text: line }),
        !is_blank(line) ==> spoken(speaker, lines.push(line)) == spoken(speaker, lines).push(
            PreviewLineView { speaker, text: trimmed(line) },
        ),
{
    assert(lines.push(line).drop_last() =~= lines);
    lemma_trimmed_text_stays(line);
    if !is_blank(line) {
        let (front, back) = lemma_trimming_takes_white_space_alone(line);
        if trimmed(line).len() == 0 {
            assert(line =~= front + back);
            let i = choose|i: int| 0 <= i < line.len() && !is_space(#[trigger] line[i]);
            if i < front.len() {
                assert(line[i] == front[i]);
            } else {
                assert(line[i] == back[i - front.len()]);
            }
        }
    }
}

proof fn lemma_spoken_speaker(
    speaker: TranscriptPreviewSpeaker,
    lines: Seq<Seq<char>>,
    i: int,
)
    requires
        0 <= i < spoken(speaker, lines).len(),
    ensures
        spoken(speaker, lines)[i].speaker == speaker,
        spoken(speaker, lines)[i].text.len() > 0,
        !is_space(spoken(speaker, lines)[i].text[0]),
        !is_space(spoken(speaker, lines)[i].text.last()),
    decreases lines.len(),
{
    if lines.len() > 0 {
        let before = spoken(speaker, lines.drop_last());
        if i < before.len() {
            lemma_spoken_speaker(speaker, lines.drop_last(), i);
        } else {
            lemma_trimming_takes_white_space_alone(lines.last());
        }
    }
}

/// What a user wrote is told as theirs, what an agent wrote as its own, and other items tell
/// nothing; no line is empty or begins or ends with white space.
pub proof fn lemma_lines_are_told_by_their_speakers(item: ThreadItem, i: int)
    requires
        0 <= i < item_lines(item).len(),
    ensures
        item is UserMessage ==> item_lines(item)[i].speaker is User,
        item is AgentMessage ==> item_lines(item)[i].speaker is Assistant,
        !(item is Other),
        item_lines(item)[i].text.len() > 0,
        !is_space(item_lines(item)[i].text[0]),
        !is_space(item_lines(item)[i].text.last()),
{
    match item {
        ThreadItem::UserMessage { content } => {
            lemma_spoken_speaker(
                TranscriptPreviewSpeaker::User,
                lines_of(texts_joined(content@, content@.len())),
                i,
            );
        },
        ThreadItem::AgentMessage { text, trusted_file_links } => {
            lemma_spoken_speaker(
                TranscriptPreviewSpeaker::Assistant,
                lines_of(
                    crate::preview::links_shown(
                        text@,
                        trusted_file_links@,
                        trusted_file_links@.len(),
                    ),
                ),
                i,
            );
        },
        ThreadItem::Other => {},
    }
}

/// A message of one line is told as that line.
pub proof fn lemma_message_of_one_line_is_told(item: ThreadItem, text: Seq<char>)
    requires
        text.len() > 0,
        !is_space(text[0]),
        !is_space(text.last()),
        forall|i: int| 0 <= i < text.len() ==> text[i] != '\n',
        item matches ThreadItem::UserMessage { content } ==> content@.len() == 1 && (
        content@[0] matches UserInput::Text(said) && said@ == text),
        item matches ThreadItem::AgentMessage { text: said, trusted_file_links } ==> said@ == text
            && trusted_file_links@.len() == 0,
        !(item is Other),
    ensures
        item_lines(item).len() == 1,
        item_lines(item)[0].text == text,
{
    lemma_lines_end_with_line_feeds(text, Seq::empty());
    reveal_with_fuel(texts_joined, 2);
    reveal_with_fuel(crate::preview::has_text, 2);
    lemma_spoken_lines_are_those_with_text(
        TranscriptPreviewSpeaker::User,
        Seq::empty(),
        text,
    );
    lemma_spoken_lines_are_those_with_text(
        TranscriptPreviewSpeaker::Assistant,
        Seq::empty(),
        text,
    );
    assert(Seq::<Seq<char>>::empty().push(text) =~= seq![text]);
}

/// A preview is the end of a conversation: at most six lines, all of a shorter one, and the newest
/// of a longer one.
pub proof fn lemma_preview_is_the_end_of_the_conversation(lines: Seq<PreviewLineView>)
    ensures
        newest(lines).len() <= 6,
        lines.len() <= 6 ==> newest(lines) == lines,
        lines.len() > 6 ==> newest(lines).len() == 6,
        forall|i: int|
            0 <= i < newest(lines).len() ==> #[trigger] newest(lines)[i] == lines[lines.len()
                - newest(lines).len() + i],
{
    if lines.len() <= 6 {
        assert(newest(lines) =~= lines);
    }
}

/// A conversation is told from its oldest item to its newest, whether its items come oldest first or
/// newest first.
pub proof fn lemma_conversation_is_told_in_order(items: Seq<ThreadItem>, item: ThreadItem)
    ensures
        told(items.push(item), (items.len() + 1) as nat) == told(items, items.len()) + item_lines(
            item,
        ),
        conversation(items.push(item)) == item_lines(item) + conversation(items),
        told(items, 0).len() == 0,
        conversation(Seq::empty()).len() == 0,
{
    assert(items.push(item).drop_last() =~= items);
    lemma_told_prefix(items, item, items.len());
}

proof fn lemma_told_prefix(items: Seq<ThreadItem>, item: ThreadItem, count: nat)
    requires
        count <= items.len(),
    ensures
        told(items.push(item), count) == told(items, count),
    decreases count,
{
    if count > 0 {
        lemma_told_prefix(items, item, (count - 1) as nat);
    }
}

/// Reading a conversation goes on behind a page exactly where more is needed: the preview is not
/// full, the limit is not reached, and there is a page that was not asked for yet. Older lines come
/// before those that are known, which stay.
pub proof fn lemma_reading_goes_on_while_more_is_needed(
    before: PreviewLoad,
    after: PreviewLoad,
    page: ThreadItemsPage,
    next: Option<String>,
)
    requires
        before.page_taken(after, page, next),
        before.scanned_items + page.data@.len() <= usize::MAX,
    ensures
        after.scanned_items == before.scanned_items + page.data@.len(),
        before.lines().len() <= after.lines().len(),
        after.lines().skip(after.lines().len() - before.lines().len()) == before.lines(),
        next is Some ==> next == page.next_cursor && after.lines().len() < 6 && after.scanned_items
            < before.scan_limit && !texts_view(before.seen_cursors@).contains(next->0@)
            && texts_view(after.seen_cursors@).contains(next->0@),
        page.next_cursor is Some && after.lines().len() < 6 && after.scanned_items
            < before.scan_limit && !texts_view(before.seen_cursors@).contains(page.next_cursor->0@)
            ==> next == page.next_cursor,
        page.data@.len() == 1 ==> after.lines() == item_lines(page.data@[0]) + before.lines(),
{
    let known = before.lines();
    let lines = after.lines();
    assert(lines.skip(lines.len() - known.len()) =~= known);
    if next is Some {
        let seen = texts_view(after.seen_cursors@);
        assert(seen[seen.len() - 1] == next->0@);
    }
    if page.data@.len() == 1 {
        reveal_with_fuel(conversation, 2);
        reveal_with_fuel(crate::preview::read_items, 2);
        assert(page.data@.take(1) =~= page.data@);
        assert(page.data@.drop_last() =~= Seq::<ThreadItem>::empty());
        assert(item_lines(page.data@[0]) + Seq::<PreviewLineView>::empty() =~= item_lines(
            page.data@[0],
        ));
    }
}

/// Several texts of one message are told as one, parted by spaces; what is no text is left out.
pub proof fn lemma_texts_of_a_message_are_joined(content: Seq<UserInput>, count: nat, text: String)
    requires
        0 < count <= content.len(),
    ensures
        content[count - 1] is Other ==> texts_joined(content, count) == texts_joined(
            content,
            (count - 1) as nat,
        ),
        content[count - 1] == UserInput::Text(text) && (exists|i: int|
            0 <= i < count - 1 && (#[trigger] content[i]) is Text) ==> texts_joined(content, count)
            == texts_joined(content, (count - 1) as nat) + seq![' '] + text@,
        content[count - 1] == UserInput::Text(text) && (forall|i: int|
            0 <= i < count - 1 ==> (#[trigger] content[i]) is Other) ==> texts_joined(
            content,
            count,
        ) == text@,
{
    reveal_strlit(" ");
    assert(" "@ =~= seq![' ']);
    lemma_has_text(content, (count - 1) as nat);
}

proof fn lemma_has_text(content: Seq<UserInput>, count: nat)
    requires
        count <= content.len(),
    ensures
        crate::preview::has_text(content, count) <==> exists|i: int|
            0 <= i < count && (#[trigger] content[i]) is Text,
    decreases count,
{
    if count > 0 {
        lemma_has_text(content, (count - 1) as nat);
        if content[count - 1] is Text {
            assert(exists|i: int| 0 <= i < count && (#[trigger] content[i]) is Text);
        }
    }
}

/// Of the ASCII characters, white space is the space, the tab, and the line and page breaks.
pub proof fn lemma_ascii_white_space(ch: char)
    requires
        (ch as int) < 128,
    ensures
        is_space(ch) <==> ch == ' ' || ch == '\t' || ch == '\n' || ch == '\r' || ch == '\u{b}'
            || ch == '\u{c}',
{
}

/// A link in a message is shown by its label and its destination, where its markdown stands.
pub proof fn lemma_links_are_shown_by_label_and_destination(
    front: Seq<char>,
    rest: Seq<char>,
    link: TrustedFileLink,
)
    requires
        forall|at: int| 0 <= at < front.len() ==> !#[trigger] occurs_at(
            front + link_markdown(link) + rest,
            link_markdown(link),
            at,
        ),
        !occurs_in(rest, link_markdown(link)),
    ensures
        links_shown(front + link_markdown(link) + rest, seq![link], 1) == front
            + link.display_label@ + "  \n"@ + link.destination@ + rest,
        link_markdown(link) == link.markdown_label@ + "  \n["@ + link.markdown_destination_label@
            + "]("@ + link.placeholder@ + ")"@,
        links_shown(front, Seq::empty(), 0) == front,
{
    reveal_strlit(")");
    reveal_with_fuel(links_shown, 2);
    let with = link_shown(link);
    lemma_patterns_are_replaced_from_the_left(front, link_markdown(link), rest, with);
    lemma_text_without_pattern_stays(rest, link_markdown(link), with);
    assert(front + with + rest =~= front + link.display_label@ + "  \n"@ + link.destination@ + rest);
}

} // verus!
