//! The keys that the dashboard's composer takes, and what becomes of them.

use vstd::prelude::*;
use vstd::string::StringExecFns;
use crate::agents::{
    composer_queued, dashboard_moved, group_command, parse_group_command, regrouped,
    submission_taken,
};
use crate::composer::{
    dashboard_user_message_from_submission, is_paste_image, is_paste_image_shortcut, message_of,
    ComposerAttachments, ComposerEdit, DashboardComposer, InputResult,
};
use crate::dashboard::DashboardGroupMode;
use crate::keys::{is_pressed, pressed, KeyEvent};
use crate::picker::{FrameDelay, PickerState};
use crate::session::SessionSelection;
use crate::text::{optional_view, trim, trimmed};

verus! {

/// What the composer of the dashboard does with a key.
#[derive(Clone, Copy, Debug, PartialEq, Eq, Structural)]
pub enum ComposerAction {
    PasteImage,
    Move { down: bool },
    Group { mode: DashboardGroupMode },
    ToggleVim,
    Mention,
    Forward { key: KeyEvent },
}

/// What the composer does with a key, if it takes it. Without a draft the arrow keys move the
/// selection, and the keys that open a session are left to the list; with one, commands that
/// concern the dashboard itself are carried out when they are sent.
pub open spec fn composer_action(state: PickerState, key: KeyEvent) -> Option<ComposerAction> {
    let keymap = state.list_keymap;
    let idle = state.dashboard_composer is None || state.dashboard_composer->0.is_idle();
    if is_paste_image(key) {
        if state.dashboard_composer is Some {
            Some(ComposerAction::PasteImage)
        } else {
            None
        }
    } else if idle && pressed(keymap.move_up@, key) {
        Some(ComposerAction::Move { down: false })
    } else if idle && pressed(keymap.move_down@, key) {
        Some(ComposerAction::Move { down: true })
    } else if idle && (pressed(keymap.move_right@, key) || pressed(keymap.accept@, key)) {
        None
    } else if state.dashboard_composer is None {
        None
    } else if pressed(keymap.accept@, key) {
        let text = state.dashboard_composer->0.text@;
        match group_command(text) {
            Some(mode) => Some(ComposerAction::Group { mode }),
            None => if trimmed(text) == "/vim"@ {
                Some(ComposerAction::ToggleVim)
            } else if trimmed(text) == "/mention"@ {
                Some(ComposerAction::Mention)
            } else {
                Some(ComposerAction::Forward { key })
            },
        }
    } else {
        Some(ComposerAction::Forward { key })
    }
}

/// `after` is `before` with a key taken by the composer.
pub open spec fn composer_acted(
    before: PickerState,
    after: PickerState,
    action: ComposerAction,
) -> bool {
    let edited = PickerState {
        dashboard_composer: after.dashboard_composer,
        frame_requested: true,
        ..before
    };
    match action {
        ComposerAction::Move { down } => dashboard_moved(before, after, down),
        ComposerAction::PasteImage => {
            &&& after == edited
            &&& composer_queued(
                before.dashboard_composer,
                after.dashboard_composer,
                ComposerEdit::PasteImage,
            )
        },
        ComposerAction::Forward { key } => {
            &&& after == edited
            &&& composer_queued(
                before.dashboard_composer,
                after.dashboard_composer,
                ComposerEdit::HandleKey(key),
            )
        },
        ComposerAction::Group { mode } => {
            &&& regrouped(
                PickerState { dashboard_composer: after.dashboard_composer, ..before },
                after,
                mode,
            )
            &&& composer_text_set(before.dashboard_composer, after.dashboard_composer, ""@)
        },
        ComposerAction::ToggleVim => {
            &&& after == edited
            &&& exists|cleared: Option<DashboardComposer>|
                #![trigger composer_text_set(before.dashboard_composer, cleared, ""@)]
                composer_text_set(before.dashboard_composer, cleared, ""@) && composer_queued(
                    cleared,
                    after.dashboard_composer,
                    ComposerEdit::ToggleVim,
                )
        },
        ComposerAction::Mention => {
            &&& after == edited
            &&& composer_text_set(before.dashboard_composer, after.dashboard_composer, "@"@)
        },
    }
}

/// `after` is `before` with its content replaced by `text`, where there is a composer.
pub open spec fn composer_text_set(
    before: Option<DashboardComposer>,
    after: Option<DashboardComposer>,
    text: Seq<char>,
) -> bool {
    match before {
        Some(dashboard) => after is Some && dashboard.text_replaced(after->0, text),
        None => after is None,
    }
}

/// `after` is `before` with what became of a key that the composer handled: a message is ready to
/// be taken, or a command is refused.
pub open spec fn input_noted(
    before: PickerState,
    after: PickerState,
    result: InputResult,
    attachments: ComposerAttachments,
) -> bool {
    let burst = before.dashboard_composer is Some && before.dashboard_composer->0.in_paste_burst;
    &&& after == PickerState {
        pending_dashboard_submission: match result {
            InputResult::Submitted { text, text_elements } => Some(
                message_of(attachments, text, text_elements),
            ),
            InputResult::Queued { text, text_elements } => Some(
                message_of(attachments, text, text_elements),
            ),
            _ => before.pending_dashboard_submission,
        },
        inline_error: after.inline_error,
        delayed_frames: after.delayed_frames,
        frame_requested: true,
        ..before
    }
    &&& match result {
        InputResult::Command { name } => optional_view(after.inline_error) == Some(
            "Open a session before running /"@ + name@,
        ),
        _ => after.inline_error == before.inline_error,
    }
    &&& after.delayed_frames@ == if burst {
        before.delayed_frames@.push(FrameDelay::PasteFlush)
    } else {
        before.delayed_frames@
    }
}

impl PickerState {
    fn composer_is_idle(&self) -> (r: bool)
        ensures
            r == (self.dashboard_composer is None || self.dashboard_composer->0.is_idle()),
    {
        match &self.dashboard_composer {
            Some(dashboard) => dashboard.idle(),
            None => true,
        }
    }

    fn accepted_action(&self, text: &str, key: KeyEvent) -> (r: ComposerAction)
        requires
            self.dashboard_composer is Some,
            text@ == self.dashboard_composer->0.text@,
        ensures
            r == match group_command(text@) {
                Some(mode) => ComposerAction::Group { mode },
                None => if trimmed(text@) == "/vim"@ {
                    ComposerAction::ToggleVim
                } else if trimmed(text@) == "/mention"@ {
                    ComposerAction::Mention
                } else {
                    ComposerAction::Forward { key }
                },
            },
    {
        if let Some(mode) = parse_group_command(text) {
            return ComposerAction::Group { mode };
        }
        let command = trim(text);
        if command == "/vim".to_owned() {
            ComposerAction::ToggleVim
        } else if command == "/mention".to_owned() {
            ComposerAction::Mention
        } else {
            ComposerAction::Forward { key }
        }
    }

    /// What the composer does with `key`, if it takes it.
    pub fn dashboard_composer_action(&self, key: KeyEvent) -> (r: Option<ComposerAction>)
        ensures
            r == composer_action(*self, key),
    {
        if is_paste_image_shortcut(key) {
            return if self.dashboard_composer.is_some() {
                Some(ComposerAction::PasteImage)
            } else {
                None
            };
        }
        if self.composer_is_idle() {
            if is_pressed(&self.list_keymap.move_up, key) {
                return Some(ComposerAction::Move { down: false });
            }
            if is_pressed(&self.list_keymap.move_down, key) {
                return Some(ComposerAction::Move { down: true });
            }
            if is_pressed(&self.list_keymap.move_right, key) || is_pressed(
                &self.list_keymap.accept,
                key,
            ) {
                return None;
            }
        }
        match &self.dashboard_composer {
            Some(dashboard) => if is_pressed(&self.list_keymap.accept, key) {
                Some(self.accepted_action(dashboard.text.as_str(), key))
            } else {
                Some(ComposerAction::Forward { key })
            },
            None => None,
        }
    }

    /// Replaces what the composer holds.
    pub fn set_composer_text(&mut self, text: &str)
        ensures
            *final(self) == (PickerState {
                dashboard_composer: final(self).dashboard_composer,
                ..*old(self)
            }),
            composer_text_set(
                old(self).dashboard_composer,
                final(self).dashboard_composer,
                text@,
            ),
    {
        match self.dashboard_composer.take() {
            Some(dashboard) => {
                let mut dashboard = dashboard;
                dashboard.replace_text(text);
                self.dashboard_composer = Some(dashboard);
            },
            None => {},
        }
    }

    /// Carries out what the composer does with a key.
    pub fn perform_composer_action(&mut self, action: ComposerAction)
        ensures
            composer_acted(*old(self), *final(self), action),
    {
        match action {
            ComposerAction::Move { down } => {
                self.move_dashboard_selection(down);
            },
            ComposerAction::PasteImage => {
                self.queue_edit(ComposerEdit::PasteImage);
                self.request_frame();
            },
            ComposerAction::Forward { key } => {
                self.queue_edit(ComposerEdit::HandleKey(key));
                self.request_frame();
            },
            ComposerAction::Group { mode } => {
                self.set_composer_text("");
                self.set_dashboard_group_mode(mode);
            },
            ComposerAction::ToggleVim => {
                self.set_composer_text("");
                self.queue_edit(ComposerEdit::ToggleVim);
                self.request_frame();
            },
            ComposerAction::Mention => {
                self.set_composer_text("@");
                self.request_frame();
            },
        }
    }

    /// Handles a key on the dashboard; whether the composer takes it.
    pub fn handle_dashboard_composer_key(&mut self, key: KeyEvent) -> (r: bool)
        ensures
            match composer_action(*old(self), key) {
                Some(action) => r && composer_acted(*old(self), *final(self), action),
                None => !r && *final(self) == *old(self),
            },
    {
        match self.dashboard_composer_action(key) {
            Some(action) => {
                self.perform_composer_action(action);
                true
            },
            None => false,
        }
    }

    fn note_composer_input(&mut self, result: InputResult, attachments: ComposerAttachments)
        ensures
            input_noted(*old(self), *final(self), result, attachments),
    {
        match result {
            InputResult::Submitted { text, text_elements } => {
                self.pending_dashboard_submission = Some(
                    dashboard_user_message_from_submission(attachments, text, text_elements),
                );
            },
            InputResult::Queued { text, text_elements } => {
                self.pending_dashboard_submission = Some(
                    dashboard_user_message_from_submission(attachments, text, text_elements),
                );
            },
            InputResult::Command { name } => {
                let mut message = "Open a session before running /".to_owned();
                message.append(name.as_str());
                self.inline_error = Some(message);
            },
            InputResult::ParentOwnedInputBlocked => {},
            InputResult::Nothing => {},
        }
        let burst = match &self.dashboard_composer {
            Some(dashboard) => dashboard.in_paste_burst,
            None => false,
        };
        if burst {
            self.delayed_frames.push(FrameDelay::PasteFlush);
        }
        self.request_frame();
    }

    /// Takes up what became of a key that was forwarded to the composer.
    pub fn finish_composer_key(
        &mut self,
        result: InputResult,
        attachments: ComposerAttachments,
    ) -> (r: Option<SessionSelection>)
        ensures
            exists|noted: PickerState|
                #![trigger submission_taken(noted, *final(self), r)]
                input_noted(*old(self), noted, result, attachments) && submission_taken(
                    noted,
                    *final(self),
                    r,
                ),
    {
        self.note_composer_input(result, attachments);
        let ghost noted = *self;
        let chosen = self.take_dashboard_submission();
        proof {
            assert(submission_taken(noted, *self, chosen));
        }
        chosen
    }

    /// Takes up whether the image in the clipboard could be attached.
    pub fn finish_paste_image(&mut self, error: Option<String>)
        ensures
            *final(self) == (PickerState {
                inline_error: final(self).inline_error,
                frame_requested: true,
                ..*old(self)
            }),
            optional_view(final(self).inline_error) == match error {
                Some(error) => Some("Failed to paste image: "@ + error@),
                None => None,
            },
    {
        match error {
            Some(error) => {
                let mut message = "Failed to paste image: ".to_owned();
                message.append(error.as_str());
                self.inline_error = Some(message);
            },
            None => {
                self.inline_error = None;
            },
        }
        self.request_frame();
    }
}

} // verus!
