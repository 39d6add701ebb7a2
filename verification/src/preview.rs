//! The newest lines of a conversation, read from the items of its thread.

use vstd::prelude::*;
use vstd::string::StringExecFns;
use crate::metadata::at_least_zero;
use crate::protocol::{ThreadItem, ThreadItemsPage, TrustedFileLink, UserInput};
use crate::session::{TranscriptPreviewLine, TranscriptPreviewSpeaker};
use crate::style::at_most_usize;
use crate::text::{
    lines_of, replace_text, replaced, split_lines, texts_view, trim, trimmed,
};

verus! {

pub const MAX_PREVIEW_LINES: usize = 6;

/// Who said a line, and the line.
pub struct PreviewLineView {
    pub speaker: TranscriptPreviewSpeaker,
    pub text: Seq<char>,
}

impl View for TranscriptPreviewLine {
    type V = PreviewLineView;

    open spec fn view(&self) -> PreviewLineView {
        PreviewLineView { speaker: self.speaker, text: self.text@ }
    }
}

pub open spec fn preview_view(lines: Seq<TranscriptPreviewLine>) -> Seq<PreviewLineView> {
    Seq::new(lines.len(), |i: int| lines[i]@)
}

/// The texts among the first `count` inputs, parted by single spaces.
pub open spec fn texts_joined(content: Seq<UserInput>, count: nat) -> Seq<char>
    decreases count,
{
    if count == 0 {
        Seq::empty()
    } else {
        let before = texts_joined(content, (count - 1) as nat);
        match content[count - 1] {
            UserInput::Text(text) => if has_text(content, (count - 1) as nat) {
                before + " "@ + text@
            } else {
                text@
            },
            UserInput::Other => before,
        }
    }
}

/// There is a text among the first `count` inputs.
pub open spec fn has_text(content: Seq<UserInput>, count: nat) -> bool
    decreases count,
{
    count > 0 && (content[count - 1] is Text || has_text(content, (count - 1) as nat))
}

/// How the markdown of a link stands in a message.
pub open spec fn link_markdown(link: TrustedFileLink) -> Seq<char> {
    link.markdown_label@ + "  \n["@ + link.markdown_destination_label@ + "]("@ + link.placeholder@
        + ")"@
}

/// How a link is shown.
pub open spec fn link_shown(link: TrustedFileLink) -> Seq<char> {
    link.display_label@ + "  \n"@ + link.destination@
}

/// A message with its first `count` links as they are shown.
pub open spec fn links_shown(text: Seq<char>, links: Seq<TrustedFileLink>, count: nat) -> Seq<char>
    decreases count,
{
    if count == 0 {
        text
    } else {
        replaced(
            links_shown(text, links, (count - 1) as nat),
            link_markdown(links[count - 1]),
            link_shown(links[count - 1]),
        )
    }
}

/// The lines with something in them, without the space around it.
pub open spec fn spoken(
    speaker: TranscriptPreviewSpeaker,
    lines: Seq<Seq<char>>,
) -> Seq<PreviewLineView>
    decreases lines.len(),
{
    if lines.len() == 0 {
        Seq::empty()
    } else {
        let before = spoken(speaker, lines.drop_last());
        let text = trimmed(lines.last());
        if text.len() == 0 {
            before
        } else {
            before.push(PreviewLineView { speaker, text })
        }
    }
}

/// What an item adds to the conversation.
pub open spec fn item_lines(item: ThreadItem) -> Seq<PreviewLineView> {
    match item {
        ThreadItem::UserMessage { content } => spoken(
            TranscriptPreviewSpeaker::User,
            lines_of(texts_joined(content@, content@.len())),
        ),
        ThreadItem::AgentMessage { text, trusted_file_links } => spoken(
            TranscriptPreviewSpeaker::Assistant,
            lines_of(links_shown(text@, trusted_file_links@, trusted_file_links@.len())),
        ),
        ThreadItem::Other => Seq::empty(),
    }
}

fn join_texts(content: &Vec<UserInput>) -> (r: String)
    ensures
        r@ == texts_joined(content@, content@.len()),
{
    let mut joined = String::new();
    let mut found = false;
    let mut i: usize = 0;
    while i < content.len()
        invariant
            i <= content.len(),
            joined@ == texts_joined(content@, i as nat),
            found == has_text(content@, i as nat),
            !found ==> joined@.len() == 0,
        decreases content.len() - i,
    {
        let ghost before = joined@;
        if let UserInput::Text(text) = &content[i] {
            if found {
                joined.append(" ");
            }
            joined.append(text.as_str());
            found = true;
            proof {
                if !has_text(content@, i as nat) {
                    assert(before + text@ =~= text@);
                }
            }
        }
        i += 1;
    }
    joined
}

fn show_links(text: &str, links: &Vec<TrustedFileLink>) -> (r: String)
    ensures
        r@ == links_shown(text@, links@, links@.len()),
{
    let mut shown = text.to_owned();
    let mut i: usize = 0;
    while i < links.len()
        invariant
            i <= links.len(),
            shown@ == links_shown(text@, links@, i as nat),
        decreases links.len() - i,
    {
        let link = &links[i];
        let mut markdown = link.markdown_label.clone();
        markdown.append("  \n[");
        markdown.append(link.markdown_destination_label.as_str());
        markdown.append("](");
        markdown.append(link.placeholder.as_str());
        markdown.append(")");
        let mut display = link.display_label.clone();
        display.append("  \n");
        display.append(link.destination.as_str());
        proof {
            reveal_strlit(")");
        }
        shown = replace_text(shown.as_str(), markdown.as_str(), display.as_str());
        i += 1;
    }
    shown
}

fn speak(speaker: TranscriptPreviewSpeaker, text: &str) -> (r: Vec<TranscriptPreviewLine>)
    ensures
        preview_view(r@) == spoken(speaker, lines_of(text@)),
{
    let lines = split_lines(text);
    let ghost all = texts_view(lines@);
    let mut shown: Vec<TranscriptPreviewLine> = Vec::new();
    let mut i: usize = 0;
    proof {
        assert(all.take(0) =~= Seq::<Seq<char>>::empty());
        assert(preview_view(shown@) =~= spoken(speaker, all.take(0)));
    }
    while i < lines.len()
        invariant
            i <= lines.len(),
            all == texts_view(lines@),
            preview_view(shown@) == spoken(speaker, all.take(i as int)),
        decreases lines.len() - i,
    {
        let ghost before = preview_view(shown@);
        let text = trim(lines[i].as_str());
        proof {
            assert(all.take(i + 1).drop_last() =~= all.take(i as int));
            assert(all.take(i + 1).last() == lines@[i as int]@);
        }
        if !text.as_str().is_empty() {
            let ghost line = PreviewLineView { speaker, text: text@ };
            shown.push(TranscriptPreviewLine { speaker, text });
            proof {
                assert(preview_view(shown@) =~= before.push(line));
            }
        }
        i += 1;
    }
    proof {
        assert(all.take(lines@.len() as int) =~= all);
    }
    shown
}

/// The lines that an item adds to the conversation.
pub fn transcript_preview_lines_for_item(item: &ThreadItem) -> (r: Vec<TranscriptPreviewLine>)
    ensures
        preview_view(r@) == item_lines(*item),
{
    match item {
        ThreadItem::UserMessage { content } => {
            let text = join_texts(content);
            speak(TranscriptPreviewSpeaker::User, text.as_str())
        },
        ThreadItem::AgentMessage { text, trusted_file_links } => {
            let text = show_links(text.as_str(), trusted_file_links);
            speak(TranscriptPreviewSpeaker::Assistant, text.as_str())
        },
        ThreadItem::Other => {
            let none: Vec<TranscriptPreviewLine> = Vec::new();
            proof {
                assert(preview_view(none@) =~= item_lines(*item));
            }
            none
        },
    }
}

/// The conversation that items give, oldest line first. The newest item is the first.
pub open spec fn conversation(items: Seq<ThreadItem>) -> Seq<PreviewLineView>
    decreases items.len(),
{
    if items.len() == 0 {
        Seq::empty()
    } else {
        item_lines(items.last()) + conversation(items.drop_last())
    }
}

/// The newest lines of a conversation.
pub open spec fn newest(lines: Seq<PreviewLineView>) -> Seq<PreviewLineView> {
    lines.skip(at_least_zero(lines.len() - MAX_PREVIEW_LINES))
}

/// The lines of groups, of which the last is the oldest.
pub open spec fn ungrouped(groups: Seq<Seq<PreviewLineView>>) -> Seq<PreviewLineView>
    decreases groups.len(),
{
    if groups.len() == 0 {
        Seq::empty()
    } else {
        groups.last() + ungrouped(groups.drop_last())
    }
}

pub open spec fn groups_view(groups: Seq<Vec<TranscriptPreviewLine>>) -> Seq<Seq<PreviewLineView>> {
    Seq::new(groups.len(), |i: int| preview_view(groups[i]@))
}

/// How many of `items`, from item `at` on, are read where `visible` lines are known: as many as
/// fill the preview.
pub open spec fn read_items(visible: int, items: Seq<ThreadItem>, at: int) -> int
    decreases items.len() - at,
{
    if at >= items.len() {
        at
    } else if visible + item_lines(items[at]).len() >= MAX_PREVIEW_LINES {
        at + 1
    } else {
        read_items(visible + item_lines(items[at]).len(), items, at + 1)
    }
}

pub proof fn lemma_read_items(visible: int, items: Seq<ThreadItem>, at: int)
    requires
        0 <= at <= items.len(),
    ensures
        at <= read_items(visible, items, at) <= items.len(),
    decreases items.len() - at,
{
    if at < items.len() {
        lemma_read_items(visible + item_lines(items[at]).len(), items, at + 1);
    }
}

/// The loading of a preview, page by page from the newest item back.
#[derive(Debug)]
pub struct PreviewLoad {
    pub groups: Vec<Vec<TranscriptPreviewLine>>,
    pub visible_lines: usize,
    pub scanned_items: usize,
    pub seen_cursors: Vec<String>,
    /// How many items are read at most.
    pub scan_limit: usize,
}

impl PreviewLoad {
    /// What is known of the conversation, oldest line first.
    pub open spec fn lines(self) -> Seq<PreviewLineView> {
        ungrouped(groups_view(self.groups@))
    }

    /// The lines are counted.
    pub open spec fn is_valid(self) -> bool {
        self.visible_lines == at_most_usize(self.lines().len() as int)
    }

    /// The preview is full.
    pub open spec fn is_full(self) -> bool {
        self.lines().len() >= MAX_PREVIEW_LINES
    }

    /// `after` is this load with a page of older items taken in, as far as they are needed; `next`
    /// is where to go on, where that is needed too.
    pub open spec fn page_taken(
        self,
        after: PreviewLoad,
        page: ThreadItemsPage,
        next: Option<String>,
    ) -> bool {
        &&& after.scan_limit == self.scan_limit
        &&& after.lines() == conversation(
            page.data@.take(read_items(self.lines().len() as int, page.data@, 0)),
        ) + self.lines()
        &&& after.scanned_items == at_most_usize(self.scanned_items + page.data@.len())
        &&& next == (if after.is_full() || after.scanned_items >= after.scan_limit
            || page.next_cursor is None || texts_view(self.seen_cursors@).contains(
            page.next_cursor->0@,
        ) {
            None::<String>
        } else {
            page.next_cursor
        })
        &&& texts_view(after.seen_cursors@) == (if next is Some {
            texts_view(self.seen_cursors@).push(next->0@)
        } else {
            texts_view(self.seen_cursors@)
        })
    }

    pub fn new(scan_limit: usize) -> (r: PreviewLoad)
        ensures
            r.is_valid(),
            r.lines().len() == 0,
            r.scanned_items == 0,
            r.seen_cursors@.len() == 0,
            r.scan_limit == scan_limit,
    {
        PreviewLoad {
            groups: Vec::new(),
            visible_lines: 0,
            scanned_items: 0,
            seen_cursors: Vec::new(),
            scan_limit,
        }
    }

    /// Puts the lines of an older item in front.
    fn take_item(&mut self, item: &ThreadItem)
        requires
            old(self).is_valid(),
        ensures
            final(self).is_valid(),
            *final(self) == (PreviewLoad {
                groups: final(self).groups,
                visible_lines: final(self).visible_lines,
                ..*old(self)
            }),
            final(self).lines() == item_lines(*item) + old(self).lines(),
    {
        let lines = transcript_preview_lines_for_item(item);
        let ghost known = self.lines();
        let ghost before = groups_view(self.groups@);
        self.visible_lines = self.visible_lines.saturating_add(lines.len());
        if lines.len() > 0 {
            self.groups.push(lines);
            proof {
                let after = groups_view(self.groups@);
                assert(after.drop_last() =~= before);
                assert(after.last() == item_lines(*item));
            }
        } else {
            proof {
                assert(item_lines(*item) + known =~= known);
            }
        }
    }

    /// Takes a page of older items in; gives the cursor of the next one where it is needed.
    pub fn take_page(&mut self, page: ThreadItemsPage) -> (r: Option<String>)
        requires
            old(self).is_valid(),
            !old(self).is_full(),
        ensures
            final(self).is_valid(),
            old(self).page_taken(*final(self), page, r),
    {
        self.scanned_items = self.scanned_items.saturating_add(page.data.len());
        let ghost known = self.lines();
        let ghost items = page.data@;
        let ghost end = read_items(known.len() as int, items, 0);
        let mut i: usize = 0;
        proof {
            assert(items.take(0) =~= Seq::<ThreadItem>::empty());
            assert(conversation(items.take(0)) + known =~= known);
            lemma_read_items(known.len() as int, items, 0);
        }
        let ghost start = *self;
        while i < page.data.len() && self.visible_lines < MAX_PREVIEW_LINES
            invariant
                i <= page.data.len(),
                items == page.data@,
                self.is_valid(),
                *self == (PreviewLoad {
                    groups: self.groups,
                    visible_lines: self.visible_lines,
                    ..start
                }),
                self.lines() == conversation(items.take(i as int)) + known,
                end == if self.lines().len() >= MAX_PREVIEW_LINES {
                    i as int
                } else {
                    read_items(self.lines().len() as int, items, i as int)
                },
            decreases page.data.len() - i,
        {
            let ghost before = self.lines();
            self.take_item(&page.data[i]);
            proof {
                let taken = items.take(i + 1);
                assert(taken.drop_last() =~= items.take(i as int));
                assert(taken.last() == items[i as int]);
                assert(self.lines() =~= conversation(taken) + known);
            }
            i += 1;
        }
        if self.visible_lines >= MAX_PREVIEW_LINES || self.scanned_items >= self.scan_limit {
            return None;
        }
        match page.next_cursor {
            None => None,
            Some(cursor) => {
                if contains_string(&self.seen_cursors, &cursor) {
                    return None;
                }
                let ghost seen = texts_view(self.seen_cursors@);
                self.seen_cursors.push(cursor.clone());
                proof {
                    assert(texts_view(self.seen_cursors@) =~= seen.push(cursor@));
                }
                Some(cursor)
            },
        }
    }

    /// The preview: the newest of the lines that are known.
    pub fn finish(self) -> (r: Vec<TranscriptPreviewLine>)
        ensures
            preview_view(r@) == newest(self.lines()),
    {
        let mut groups = self.groups;
        let ghost all = self.lines();
        let mut lines: Vec<TranscriptPreviewLine> = Vec::new();
        proof {
            assert(preview_view(lines@) + ungrouped(groups_view(groups@)) =~= all);
        }
        while groups.len() > 0
            invariant
                preview_view(lines@) + ungrouped(groups_view(groups@)) == all,
            decreases groups.len(),
        {
            let ghost left = groups_view(groups@);
            let ghost before = lines@;
            if let Some(group) = groups.pop() {
                let mut group = group;
                let ghost added = group@;
                lines.append(&mut group);
                proof {
                    assert(left.drop_last() =~= groups_view(groups@));
                    assert(preview_view(lines@) =~= preview_view(before) + preview_view(added));
                    assert(preview_view(before) + (preview_view(added) + ungrouped(
                        left.drop_last(),
                    )) =~= preview_view(lines@) + ungrouped(left.drop_last()));
                }
            }
        }
        proof {
            assert(preview_view(lines@) + Seq::<PreviewLineView>::empty() =~= all);
        }
        keep_newest(lines)
    }
}

fn contains_string(texts: &Vec<String>, text: &String) -> (r: bool)
    ensures
        r == texts_view(texts@).contains(text@),
{
    let mut i: usize = 0;
    while i < texts.len()
        invariant
            i <= texts.len(),
            forall|j: int| 0 <= j < i ==> texts_view(texts@)[j] != text@,
        decreases texts.len() - i,
    {
        if texts[i] == *text {
            proof {
                assert(texts_view(texts@)[i as int] == text@);
            }
            return true;
        }
        i += 1;
    }
    false
}

fn keep_newest(lines: Vec<TranscriptPreviewLine>) -> (r: Vec<TranscriptPreviewLine>)
    ensures
        preview_view(r@) == newest(preview_view(lines@)),
{
    let mut lines = lines;
    let ghost all = lines@;
    if lines.len() > MAX_PREVIEW_LINES {
        let kept = lines.split_off(lines.len() - MAX_PREVIEW_LINES);
        proof {
            assert(preview_view(kept@) =~= newest(preview_view(all)));
        }
        return kept;
    }
    proof {
        assert(preview_view(lines@) =~= newest(preview_view(lines@)));
    }
    lines
}

/// The conversation of items of which the oldest is the first.
pub open spec fn told(items: Seq<ThreadItem>, count: nat) -> Seq<PreviewLineView>
    decreases count,
{
    if count == 0 {
        Seq::empty()
    } else {
        told(items, (count - 1) as nat) + item_lines(items[count - 1])
    }
}

/// The preview of a thread whose items are all known, the oldest first.
pub fn transcript_preview(items: &Vec<ThreadItem>) -> (r: Vec<TranscriptPreviewLine>)
    ensures
        preview_view(r@) == newest(told(items@, items@.len())),
{
    let mut lines: Vec<TranscriptPreviewLine> = Vec::new();
    let mut i: usize = 0;
    proof {
        assert(preview_view(lines@) =~= told(items@, 0));
    }
    while i < items.len()
        invariant
            i <= items.len(),
            preview_view(lines@) == told(items@, i as nat),
        decreases items.len() - i,
    {
        let ghost before = lines@;
        let mut more = transcript_preview_lines_for_item(&items[i]);
        let ghost added = more@;
        lines.append(&mut more);
        proof {
            assert(preview_view(lines@) =~= preview_view(before) + preview_view(added));
        }
        i += 1;
    }
    keep_newest(lines)
}

/// A page is read to its end unless the preview is full before.
pub proof fn lemma_page_read(visible: int, items: Seq<ThreadItem>)
    requires
        visible >= 0,
    ensures
        read_items(visible, items, 0) == items.len() || visible + conversation(
            items.take(read_items(visible, items, 0)),
        ).len() >= MAX_PREVIEW_LINES,
{
    assert(items.take(0) =~= Seq::<ThreadItem>::empty());
    lemma_read_from(visible, items, 0);
}

proof fn lemma_read_from(visible: int, items: Seq<ThreadItem>, at: int)
    requires
        0 <= at <= items.len(),
    ensures
        ({
            let so_far = visible + conversation(items.take(at)).len();
            let read = read_items(so_far, items, at);
            read == items.len() || visible + conversation(items.take(read)).len()
                >= MAX_PREVIEW_LINES
        }),
    decreases items.len() - at,
{
    if at < items.len() {
        assert(items.take(at + 1).drop_last() =~= items.take(at));
        lemma_read_from(visible, items, at + 1);
    }
}

/// Two pages of items, the newer first, give the conversation of all their items.
pub proof fn lemma_conversation_of_pages(newer: Seq<ThreadItem>, older: Seq<ThreadItem>)
    ensures
        conversation(newer + older) == conversation(older) + conversation(newer),
    decreases older.len(),
{
    if older.len() == 0 {
        assert(newer + older =~= newer);
        assert(Seq::<PreviewLineView>::empty() + conversation(newer) =~= conversation(newer));
    } else {
        assert((newer + older).drop_last() =~= newer + older.drop_last());
        lemma_conversation_of_pages(newer, older.drop_last());
        assert(item_lines(older.last()) + (conversation(older.drop_last()) + conversation(newer))
            =~= (item_lines(older.last()) + conversation(older.drop_last())) + conversation(newer));
    }
}

/// Where a thread's items are read from the newest back and the reading stops with a full preview
/// or at the oldest item, the preview is the one that reading all of them from the oldest on
/// gives.
pub proof fn lemma_preview_needs_no_more(items: Seq<ThreadItem>, read: int)
    requires
        0 <= read <= items.len(),
        read == items.len() || conversation(items.take(read)).len() >= MAX_PREVIEW_LINES,
    ensures
        newest(conversation(items.take(read))) == newest(
            told(items.reverse(), items.len()),
        ),
    decreases items.len() - read,
{
    if read == items.len() {
        assert(items.take(read) =~= items);
        lemma_conversation_is_told(items);
    } else {
        let next = items.take(read + 1);
        assert(next.drop_last() =~= items.take(read));
        let less = conversation(items.take(read));
        let more = conversation(next);
        assert(more == item_lines(items[read]) + less);
        assert(newest(more) =~= newest(less));
        lemma_preview_needs_no_more(items, read + 1);
    }
}

proof fn lemma_conversation_is_told(items: Seq<ThreadItem>)
    ensures
        conversation(items) == told(items.reverse(), items.len()),
    decreases items.len(),
{
    if items.len() > 0 {
        lemma_conversation_is_told(items.drop_last());
        lemma_told_first(items.reverse(), items.len());
        assert(items.reverse().skip(1) =~= items.drop_last().reverse());
        assert(items.reverse()[0] == items.last());
    } else {
        assert(conversation(items) =~= told(items.reverse(), 0));
    }
}

proof fn lemma_told_first(items: Seq<ThreadItem>, count: nat)
    requires
        0 < count <= items.len(),
    ensures
        told(items, count) == item_lines(items[0]) + told(items.skip(1), (count - 1) as nat),
    decreases count,
{
    reveal_with_fuel(told, 2);
    if count > 1 {
        lemma_told_first(items, (count - 1) as nat);
        assert(items.skip(1)[count - 2] == items[count - 1]);
        assert((item_lines(items[0]) + told(items.skip(1), (count - 2) as nat)) + item_lines(
            items[count - 1],
        ) =~= item_lines(items[0]) + (told(items.skip(1), (count - 2) as nat) + item_lines(
            items[count - 1],
        )));
    } else {
        assert(Seq::<PreviewLineView>::empty() + item_lines(items[0]) =~= item_lines(items[0])
            + Seq::<PreviewLineView>::empty());
    }
}

} // verus!
