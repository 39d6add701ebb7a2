//! The run of a picker: what it does on each event of the terminal.

use vstd::prelude::*;
use crate::agents::exit_wait_expired;
use crate::events::pasted_into;
use crate::keyboard::{key_handled, KeyOutcome};
use crate::keys::{KeyChordMatch, KeyEvent, KeyEventKind};
use crate::layout::{bottom_height, list_viewport_width, list_width, picker_bottom_height};
use crate::loading::minimum_rows_asked;
use crate::metadata::at_least_zero;
use crate::picker::{route_key_chord, routed, FrameDelay, PickerState};
use crate::scroll::shown;
use crate::transcript::{opened_if_ready, visible_previews_asked, with_view};

verus! {

/// What the composer says of a burst of keys that may be a paste.
#[derive(Clone, Copy, Debug, PartialEq, Eq, Structural)]
pub enum PasteBurst {
    /// The burst was over, and its text was put in.
    Flushed,
    Running,
    Absent,
}

/// The screen that is to be drawn.
#[derive(Clone, Copy, Debug, PartialEq, Eq, Structural)]
pub struct Screen {
    pub width: u16,
    pub height: u16,
    /// The lines that the composer asks for, where there is one.
    pub composer_height: Option<u16>,
    pub paste_burst: PasteBurst,
}

/// An event of the terminal. Keys come with what the chord matcher made of them.
#[derive(Debug)]
pub enum TerminalEvent {
    Key { key: KeyEvent, matched: KeyChordMatch },
    Paste(String),
    Draw(Screen),
}

/// What is to be done on an event.
#[derive(Debug)]
pub enum TerminalOutcome {
    Nothing,
    /// The transcript over the picker handles the event; a key stands for the one that came.
    Overlay { key: Option<KeyEvent> },
    Key(KeyOutcome),
    Draw,
}

/// The lines of the list on a screen.
pub open spec fn list_height(screen: Screen) -> int {
    at_least_zero(
        at_least_zero(screen.height - 4) - bottom_height(
            screen.composer_height,
            screen.height as int,
        ),
    )
}

/// `state` with what a burst of keys asks for: a frame at once or later.
pub open spec fn burst_noted(before: PickerState, after: PickerState, burst: PasteBurst) -> bool {
    if before.dashboard_composer is None || burst is Absent {
        after == before
    } else if burst is Flushed {
        after == PickerState { frame_requested: true, ..before }
    } else {
        &&& after == PickerState { delayed_frames: after.delayed_frames, ..before }
        &&& after.delayed_frames@ == before.delayed_frames@.push(FrameDelay::PasteFlush)
    }
}

/// `after` is `before` ready to be drawn: a wait for a second press of the exit key that is over is
/// dropped, the selected row is in view, the conversations in view are asked for, and so are rows
/// where the list is not full.
pub open spec fn made_ready(before: PickerState, after: PickerState, screen: Screen) -> bool {
    exists|rested: PickerState, noted: PickerState, viewed: PickerState|
        #![trigger exit_wait_expired(before, rested, before.clock_millis), burst_noted(rested, noted, screen.paste_burst), minimum_rows_asked(viewed, after, list_height(screen))]
        {
            &&& exit_wait_expired(before, rested, before.clock_millis)
            &&& burst_noted(rested, noted, screen.paste_burst)
            &&& visible_previews_asked(
                shown(
                    with_view(
                        noted,
                        list_height(screen) as usize,
                        list_width(before, screen.width as int) as u16,
                    ),
                ),
                viewed,
            )
            &&& minimum_rows_asked(viewed, after, list_height(screen))
        }
}

/// `state` once a frame was drawn.
pub open spec fn frame_finished(state: PickerState) -> PickerState {
    if state.pending_transcript_open is Some {
        opened_if_ready(PickerState { transcript_loading_frame_shown: true, ..state })
    } else {
        state
    }
}

/// `after` and `outcome` are what becomes of an event.
pub open spec fn terminal_handled(
    before: PickerState,
    after: PickerState,
    event: TerminalEvent,
    outcome: TerminalOutcome,
) -> bool {
    match event {
        TerminalEvent::Key { key, matched } => match routed(key, matched) {
            None => after == before && outcome is Nothing,
            Some(key) => if before.overlay is Some {
                after == before && outcome == TerminalOutcome::Overlay { key: Some(key) }
            } else if key.kind is Release {
                after == before && outcome is Nothing
            } else {
                outcome is Key && key_handled(before, after, key, outcome->Key_0)
            },
        },
        TerminalEvent::Paste(pasted) => if before.overlay is Some {
            after == before && outcome == TerminalOutcome::Overlay { key: None }
        } else {
            pasted_into(before, after, pasted) && outcome is Nothing
        },
        TerminalEvent::Draw(screen) => if before.overlay is Some {
            after == before && outcome == TerminalOutcome::Overlay { key: None }
        } else {
            made_ready(before, after, screen) && outcome is Draw
        },
    }
}

impl PickerState {
    fn note_burst(&mut self, burst: PasteBurst)
        ensures
            burst_noted(*old(self), *final(self), burst),
    {
        if self.dashboard_composer.is_none() {
            return;
        }
        match burst {
            PasteBurst::Flushed => {
                self.request_frame();
            },
            PasteBurst::Running => {
                self.delayed_frames.push(FrameDelay::PasteFlush);
            },
            PasteBurst::Absent => {},
        }
    }

    /// Makes ready for a frame on a screen.
    pub fn prepare_frame(&mut self, screen: Screen)
        ensures
            made_ready(*old(self), *final(self), screen),
    {
        self.expire_dashboard_exit_confirmation(self.clock_millis);
        let ghost rested = *self;
        self.note_burst(screen.paste_burst);
        let ghost noted = *self;
        let width: u16 = list_viewport_width(screen.width, self);
        let bottom: u16 = picker_bottom_height(screen.composer_height, screen.height);
        let height: usize = screen.height.saturating_sub(4).saturating_sub(bottom) as usize;
        self.update_viewport(height, width);
        let ghost viewed = *self;
        self.ensure_minimum_rows_for_view(height);
        proof {
            assert(exit_wait_expired(*old(self), rested, old(self).clock_millis));
            assert(burst_noted(rested, noted, screen.paste_burst));
            assert(minimum_rows_asked(viewed, *self, list_height(screen)));
        }
    }

    /// Takes note of a frame that was drawn. A transcript that is loaded opens only after the frame
    /// that shows it is waited for.
    pub fn finish_frame(&mut self)
        ensures
            *final(self) == frame_finished(*old(self)),
    {
        if self.note_transcript_loading_frame_drawn() {
            self.open_pending_transcript_if_ready();
        }
    }

    /// Handles an event of the terminal.
    pub fn handle_terminal_event(&mut self, event: TerminalEvent) -> (r: TerminalOutcome)
        ensures
            terminal_handled(*old(self), *final(self), event, r),
    {
        match event {
            TerminalEvent::Key { key, matched } => {
                let key = match route_key_chord(key, matched) {
                    Some(key) => key,
                    None => {
                        return TerminalOutcome::Nothing;
                    },
                };
                if self.overlay.is_some() {
                    return TerminalOutcome::Overlay { key: Some(key) };
                }
                if key.kind == KeyEventKind::Release {
                    return TerminalOutcome::Nothing;
                }
                TerminalOutcome::Key(self.handle_key(key))
            },
            TerminalEvent::Paste(pasted) => {
                if self.overlay.is_some() {
                    return TerminalOutcome::Overlay { key: None };
                }
                self.handle_paste(pasted);
                TerminalOutcome::Nothing
            },
            TerminalEvent::Draw(screen) => {
                if self.overlay.is_some() {
                    return TerminalOutcome::Overlay { key: None };
                }
                self.prepare_frame(screen);
                TerminalOutcome::Draw
            },
        }
    }
}

} // verus!
