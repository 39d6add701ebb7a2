//! The prompt composer of the dashboard, as far as the picker knows it.

use vstd::prelude::*;
use crate::keys::{KeyCode, KeyEvent, KeyEventKind};
use crate::session::{LocalImageAttachment, MentionBinding, TextElement, UserMessage};

verus! {

/// A change that the composer is to make.
#[derive(Debug)]
pub enum ComposerEdit {
    /// Replaces everything by a text without attachments.
    SetText(String),
    InsertText(String),
    ToggleVim,
    Paste(String),
    HandleKey(KeyEvent),
    /// Attaches the image that the clipboard holds.
    PasteImage,
    SetFooterHints(Vec<(String, String)>),
    SetInventory(Inventory),
}

/// The skills, plugins and connectors of a project, as far as they could be loaded. Each is kept
/// by the front end, by number.
#[derive(Debug)]
pub struct Inventory {
    pub skills: Option<Vec<u64>>,
    pub plugins: Option<u64>,
    pub connectors: Option<u64>,
}

/// What the picker knows of the composer, and what it wants done there.
///
/// The front end carries out the edits in their order and then tells what the composer holds.
#[derive(Debug)]
pub struct DashboardComposer {
    /// The text with what is still to be pasted into it.
    pub text: String,
    pub is_empty: bool,
    pub popup_active: bool,
    pub in_paste_burst: bool,
    pub edits: Vec<ComposerEdit>,
}

/// What became of a key that the composer handled.
#[derive(Debug)]
pub enum InputResult {
    Submitted { text: String, text_elements: Vec<TextElement> },
    Queued { text: String, text_elements: Vec<TextElement> },
    /// A command that only a session can run.
    Command { name: String },
    ParentOwnedInputBlocked,
    Nothing,
}

/// What goes with a submitted text.
#[derive(Debug)]
pub struct ComposerAttachments {
    pub local_images: Vec<LocalImageAttachment>,
    pub remote_image_urls: Vec<String>,
    pub mention_bindings: Vec<MentionBinding>,
}

/// The message of a submitted text with what goes with it.
pub fn dashboard_user_message_from_submission(
    attachments: ComposerAttachments,
    text: String,
    text_elements: Vec<TextElement>,
) -> (r: UserMessage)
    ensures
        r == message_of(attachments, text, text_elements),
{
    UserMessage {
        text,
        local_images: attachments.local_images,
        remote_image_urls: attachments.remote_image_urls,
        text_elements,
        mention_bindings: attachments.mention_bindings,
    }
}

pub open spec fn message_of(
    attachments: ComposerAttachments,
    text: String,
    text_elements: Vec<TextElement>,
) -> UserMessage {
    UserMessage {
        text,
        local_images: attachments.local_images,
        remote_image_urls: attachments.remote_image_urls,
        text_elements,
        mention_bindings: attachments.mention_bindings,
    }
}

/// The key asks for the image in the clipboard: V with control or alt held.
pub open spec fn is_paste_image(key: KeyEvent) -> bool {
    (key.code == KeyCode::Char('v') || key.code == KeyCode::Char('V')) && (key.modifiers.control
        || key.modifiers.alt) && key.kind is Press
}

pub fn is_paste_image_shortcut(key: KeyEvent) -> (r: bool)
    ensures
        r == is_paste_image(key),
{
    (key.code == KeyCode::Char('v') || key.code == KeyCode::Char('V')) && (key.modifiers.control
        || key.modifiers.alt) && key.kind == KeyEventKind::Press
}

impl DashboardComposer {
    /// There is no draft and no popup.
    pub open spec fn is_idle(self) -> bool {
        self.is_empty && !self.popup_active
    }

    pub fn idle(&self) -> (r: bool)
        ensures
            r == self.is_idle(),
    {
        self.is_empty && !self.popup_active
    }

    pub fn new() -> (r: DashboardComposer)
        ensures
            r.text@.len() == 0,
            r.is_idle(),
            !r.in_paste_burst,
            r.edits@.len() == 0,
    {
        DashboardComposer {
            text: String::new(),
            is_empty: true,
            popup_active: false,
            in_paste_burst: false,
            edits: Vec::new(),
        }
    }

    /// Takes over what the composer holds.
    pub fn observe(
        &mut self,
        text: String,
        is_empty: bool,
        popup_active: bool,
        in_paste_burst: bool,
    )
        ensures
            *final(self) == (DashboardComposer {
                text,
                is_empty,
                popup_active,
                in_paste_burst,
                edits: old(self).edits,
            }),
    {
        self.text = text;
        self.is_empty = is_empty;
        self.popup_active = popup_active;
        self.in_paste_burst = in_paste_burst;
    }

    /// `after` is this composer with an edit queued.
    pub open spec fn queued(self, after: DashboardComposer, edit: ComposerEdit) -> bool {
        &&& after == DashboardComposer { edits: after.edits, ..self }
        &&& after.edits@ == self.edits@.push(edit)
    }

    pub fn queue(&mut self, edit: ComposerEdit)
        ensures
            old(self).queued(*final(self), edit),
    {
        self.edits.push(edit);
    }

    /// `after` is this composer with its content replaced by `text`.
    pub open spec fn text_replaced(self, after: DashboardComposer, text: Seq<char>) -> bool {
        &&& after == DashboardComposer {
            text: after.text,
            is_empty: text.len() == 0,
            popup_active: false,
            edits: after.edits,
            ..self
        }
        &&& after.text@ == text
        &&& after.edits@.len() == self.edits@.len() + 1
        &&& after.edits@.drop_last() == self.edits@
        &&& after.edits@.last() matches ComposerEdit::SetText(set) && set@ == text
    }

    pub fn replace_text(&mut self, text: &str)
        ensures
            old(self).text_replaced(*final(self), text@),
    {
        self.edits.push(ComposerEdit::SetText(text.to_owned()));
        self.text = text.to_owned();
        self.is_empty = text.is_empty();
        self.popup_active = false;
        proof {
            assert(self.edits@.drop_last() =~= old(self).edits@);
        }
    }
}

} // verus!
