//! The controls above the list: filter, status and order, and the density of the list.

use vstd::prelude::*;
use vstd::string::StringExecFns;
use crate::loading::reloaded;
use crate::picker::PickerState;
use crate::protocol::ThreadSortKey;
use crate::scroll::shown;
use crate::session::{SessionPickerViewMode, SessionStatus, ToolbarControl};
use crate::text::optional_view;

verus! {

/// The order that the sort control changes to.
pub open spec fn other_sort_key(sort_key: ThreadSortKey) -> ThreadSortKey {
    if sort_key is CreatedAt {
        ThreadSortKey::UpdatedAt
    } else {
        ThreadSortKey::CreatedAt
    }
}

/// `after` is `before` with the filter changed, where there is another.
pub open spec fn filter_toggled(before: PickerState, after: PickerState) -> bool {
    let other = before.filter_mode.other(before.filter_cwd is Some);
    if before.filter_mode == other {
        after == before
    } else {
        reloaded(PickerState { filter_mode: other, ..before }, after)
    }
}

/// `after` is `before` with the focused control changed and the listing loaded anew.
pub open spec fn toolbar_changed(before: PickerState, after: PickerState) -> bool {
    match before.toolbar_focus {
        ToolbarControl::Sort => reloaded(
            PickerState { sort_key: other_sort_key(before.sort_key), ..before },
            after,
        ),
        ToolbarControl::Filter => filter_toggled(before, after),
        ToolbarControl::Status => reloaded(
            PickerState { status: before.status.other(), ..before },
            after,
        ),
    }
}

/// The name of an order, as the toolbar shows it.
pub open spec fn sort_key_name(sort_key: ThreadSortKey) -> Seq<char> {
    if sort_key is CreatedAt {
        "Created"@
    } else {
        "Updated"@
    }
}

pub fn sort_key_label(sort_key: ThreadSortKey) -> (r: &'static str)
    ensures
        r@ == sort_key_name(sort_key),
{
    match sort_key {
        ThreadSortKey::CreatedAt => "Created",
        ThreadSortKey::UpdatedAt | ThreadSortKey::RecencyAt | ThreadSortKey::SectionPosition => {
            "Updated"
        },
    }
}

impl PickerState {
    /// Changes between the order of creation and that of the last update, and loads anew.
    pub fn toggle_sort_key(&mut self)
        ensures
            reloaded(
                PickerState { sort_key: other_sort_key(old(self).sort_key), ..*old(self) },
                *final(self),
            ),
    {
        self.sort_key = match self.sort_key {
            ThreadSortKey::CreatedAt => ThreadSortKey::UpdatedAt,
            ThreadSortKey::UpdatedAt
            | ThreadSortKey::RecencyAt
            | ThreadSortKey::SectionPosition => ThreadSortKey::CreatedAt,
        };
        self.start_initial_load();
    }

    pub fn toggle_filter_mode(&mut self)
        ensures
            filter_toggled(*old(self), *final(self)),
    {
        let next = self.filter_mode.toggle(self.filter_cwd.as_ref());
        if self.filter_mode == next {
            return;
        }
        self.filter_mode = next;
        self.start_initial_load();
    }

    pub fn toggle_status(&mut self)
        ensures
            reloaded(
                PickerState { status: old(self).status.other(), ..*old(self) },
                *final(self),
            ),
    {
        self.status = match self.status {
            SessionStatus::Active => SessionStatus::Archived,
            SessionStatus::Archived => SessionStatus::Active,
        };
        self.start_initial_load();
    }

    pub fn focus_previous_toolbar_control(&mut self)
        ensures
            *final(self) == (PickerState {
                toolbar_focus: old(self).toolbar_focus.before(old(self).action),
                ..*old(self)
            }),
    {
        self.toolbar_focus = self.toolbar_focus.previous(self.action);
    }

    pub fn focus_next_toolbar_control(&mut self)
        ensures
            *final(self) == (PickerState {
                toolbar_focus: old(self).toolbar_focus.after(old(self).action),
                ..*old(self)
            }),
    {
        self.toolbar_focus = self.toolbar_focus.next(self.action);
    }

    /// Changes the focused control.
    pub fn change_focused_toolbar_value(&mut self)
        ensures
            toolbar_changed(*old(self), *final(self)),
    {
        match self.toolbar_focus {
            ToolbarControl::Sort => self.toggle_sort_key(),
            ToolbarControl::Filter => self.toggle_filter_mode(),
            ToolbarControl::Status => self.toggle_status(),
        }
    }

    /// Changes the density of the list. The density to keep is handed out, where it is kept.
    pub fn toggle_density(&mut self) -> (r: Option<SessionPickerViewMode>)
        ensures
            *final(self) == density_toggled(*old(self)),
            r == density_to_keep(*final(self)),
    {
        self.density = self.density.toggle();
        self.ensure_selected_visible();
        self.request_frame();
        self.persist_density()
    }

    /// The density to keep, where it is kept.
    pub fn persist_density(&self) -> (r: Option<SessionPickerViewMode>)
        ensures
            r == density_to_keep(*self),
    {
        if self.view_persistence.is_some() {
            Some(SessionPickerViewMode::from(self.density))
        } else {
            None
        }
    }

    /// Takes note of whether the density could be kept. The list stays as it is either way.
    pub fn finish_persist_density(&mut self, error: Option<String>)
        ensures
            match error {
                Some(error) => {
                    &&& *final(self) == (PickerState {
                        inline_error: final(self).inline_error,
                        frame_requested: true,
                        ..*old(self)
                    })
                    &&& optional_view(final(self).inline_error) == Some(
                        "Failed to save view mode: failed to write config.toml: "@ + error@,
                    )
                },
                None => *final(self) == *old(self),
            },
    {
        if let Some(error) = error {
            let mut message = "Failed to save view mode: failed to write config.toml: ".to_owned();
            message.append(error.as_str());
            self.inline_error = Some(message);
            self.request_frame();
        }
    }
}

/// `state` with the other density, the selected row in view.
pub open spec fn density_toggled(state: PickerState) -> PickerState {
    PickerState {
        frame_requested: true,
        ..shown(PickerState { density: state.density.other(), ..state })
    }
}

/// The density to keep, where it is kept.
pub open spec fn density_to_keep(state: PickerState) -> Option<SessionPickerViewMode> {
    if state.view_persistence is Some {
        Some(state.density.view_mode())
    } else {
        None
    }
}

} // verus!
