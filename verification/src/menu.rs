use vstd::prelude::*;

use generational_arena::Index;

verus! {

/// Handle of a group of levels in the local cache (an index into a generational arena).
#[verifier::external_type_specification]
#[verifier::external_body]
pub struct ExIndex(generational_arena::Index);

/// Equality of arena handles.
///
/// Wraps the `PartialEq` that `generational_arena::Index` derives: two handles are
/// equal when both their slot index and their generation are equal, which is when
/// they are the same value.
#[verifier::external_body]
fn same_index(a: &Index, b: &Index) -> (res: bool)
    ensures
        res == (*a == *b),
{
    *a == *b
}

/// Loading state of data fetched from the server.
pub enum CacheState<T> {
    Offline,
    Loading,
    Loaded(T),
}

/// An action of the level menu that waits for the player's confirmation.
#[derive(Debug, Clone, Copy)]
pub enum ConfirmAction {
    DeleteGroup(Index),
    DeleteLevel(Index, usize),
    SyncDiscard,
    DownloadRecommended,
    SyncUpload,
}

/// An action chosen in the level selection list.
#[derive(Debug, Clone, Copy)]
pub enum LevelSelectAction {
    EditDifficulty(Index, usize),
    DeleteDifficulty(Index, usize),
    SyncGroup(Index),
    EditGroup(Index),
    DeleteGroup(Index),
}

/// A popup asking to confirm an action.
pub struct ConfirmPopup<A> {
    pub action: A,
    pub title: String,
    pub message: String,
}

/// Which group and level the level menu shows and is about to show.
pub struct MenuSelection {
    /// Currently showing group.
    pub selected_group: Option<Index>,
    /// Currently showing level of the active group.
    pub selected_level: Option<usize>,
    /// Switch to the group after current one finishes its animation.
    pub switch_group: Option<Index>,
    /// Switch to the level of the active group after current one finishes its animation.
    pub switch_level: Option<usize>,
    /// Whether to open a (group, level) in the editor.
    pub edit_level: Option<(Index, Option<usize>)>,
    pub confirm_popup: Option<ConfirmPopup<ConfirmAction>>,
}

impl MenuSelection {
    /// Both hold the same group and level choices (shown, to switch to, to edit).
    pub open spec fn same_choices(self, other: MenuSelection) -> bool {
        &&& self.selected_group == other.selected_group
        &&& self.selected_level == other.selected_level
        &&& self.switch_group == other.switch_group
        &&& self.switch_level == other.switch_level
        &&& self.edit_level == other.edit_level
    }

    /// Nothing selected.
    pub fn new() -> (res: Self)
        ensures
            res.selected_group is None,
            res.selected_level is None,
            res.switch_group is None,
            res.switch_level is None,
            res.edit_level is None,
            res.confirm_popup is None,
    {
        MenuSelection {
            selected_group: None,
            selected_level: None,
            switch_group: None,
            switch_level: None,
            edit_level: None,
            confirm_popup: None,
        }
    }

    /// Switch to another group; the level to switch to is forgotten unless the group is
    /// the one already shown.
    pub fn select_group(&mut self, group: Index)
        ensures
            final(self).switch_group == Some(group),
            final(self).switch_level == (if old(self).selected_group == Some(group) {
                old(self).switch_level
            } else {
                None
            }),
            final(self).selected_group == old(self).selected_group,
            final(self).selected_level == old(self).selected_level,
            final(self).edit_level == old(self).edit_level,
            final(self).confirm_popup == old(self).confirm_popup,
    {
        self.switch_group = Some(group);
        let keep = match &self.selected_group {
            Some(selected) => same_index(selected, &group),
            None => false,
        };
        if !keep {
            self.switch_level = None;
        }
    }

    /// Switch to a level of the shown group.
    pub fn select_level(&mut self, level: usize)
        ensures
            final(self).switch_level == Some(level),
            final(self).switch_group == old(self).switch_group,
            final(self).selected_group == old(self).selected_group,
            final(self).selected_level == old(self).selected_level,
            final(self).edit_level == old(self).edit_level,
            final(self).confirm_popup == old(self).confirm_popup,
    {
        self.switch_level = Some(level);
    }

    /// Ask to open a group (and a level of it) in the editor.
    pub fn edit_level(&mut self, group: Index, level: Option<usize>)
        ensures
            final(self).edit_level == Some((group, level)),
            final(self).switch_group == old(self).switch_group,
            final(self).switch_level == old(self).switch_level,
            final(self).selected_group == old(self).selected_group,
            final(self).selected_level == old(self).selected_level,
            final(self).confirm_popup == old(self).confirm_popup,
    {
        self.edit_level = Some((group, level));
    }

    /// Ask to confirm an action with the title "Are you sure?".
    pub fn popup_confirm(&mut self, action: ConfirmAction, message: String)
        ensures
            final(self).confirm_popup matches Some(popup) && popup.action == action
                && popup.title@ == "Are you sure?"@ && popup.message@ == message@,
            final(self).same_choices(*old(self)),
    {
        self.confirm_popup = Some(
            ConfirmPopup { action, title: String::from_str("Are you sure?"), message },
        );
    }

    /// Ask to confirm an action with a custom title.
    pub fn popup_confirm_custom(&mut self, action: ConfirmAction, title: String, message: String)
        ensures
            final(self).confirm_popup matches Some(popup) && popup.action == action
                && popup.title@ == title@ && popup.message@ == message@,
            final(self).same_choices(*old(self)),
    {
        self.confirm_popup = Some(ConfirmPopup { action, title, message });
    }

    /// Confirm the popup: it closes, and its action (if there was a popup) is returned
    /// for the caller to carry out.
    pub fn confirm_action(&mut self) -> (res: Option<ConfirmAction>)
        ensures
            final(self).confirm_popup is None,
            final(self).same_choices(*old(self)),
            res == (match old(self).confirm_popup {
                Some(popup) => Some(popup.action),
                None => None,
            }),
    {
        match self.confirm_popup.take() {
            Some(popup) => Some(popup.action),
            None => None,
        }
    }
}

} // verus!
