//! The popup: a modal box shown over the viewport for name entry,
//! confirmations and error notices. It owns the text input buffer.
use vstd::prelude::*;
use crate::states::StateType;

verus! {

/// Whether a popup is shown in the given state.
pub open spec fn spec_popup_shown(s: StateType) -> bool {
    match s {
        StateType::Name
        | StateType::NameConfirm
        | StateType::GameSaveSuccess
        | StateType::GameSaveError
        | StateType::GameLoadError
        | StateType::GameQuit => true,
        _ => false,
    }
}

/// The popup title for the given state.
pub open spec fn spec_popup_title(s: StateType) -> Seq<char> {
    match s {
        StateType::Name | StateType::NameConfirm => "New Game"@,
        StateType::GameSaveSuccess => "Game Saved"@,
        StateType::GameSaveError => "Save Error!"@,
        StateType::GameLoadError => "Load Error!"@,
        StateType::GameQuit => "Quit Game"@,
        _ => Seq::empty(),
    }
}

/// The modal box and the input buffer typed into it.
pub struct Popup {
    pub display: bool,
    pub title: String,
    pub input: String,
}

impl Popup {
    /// A hidden popup with nothing typed.
    pub fn new() -> (r: Self)
        ensures
            !r.display,
            r.title@ == Seq::<char>::empty(),
            r.input@ == Seq::<char>::empty(),
    {
        Self { display: false, title: String::new(), input: String::new() }
    }

    /// Recomputes visibility and title from the current state; the input
    /// buffer is left alone.
    pub fn update(&mut self, state: StateType)
        ensures
            final(self).display == spec_popup_shown(state),
            final(self).title@ == spec_popup_title(state),
            final(self).input == old(self).input,
    {
        match state {
            StateType::Name | StateType::NameConfirm => {
                self.display = true;
                self.title = "New Game".to_owned();
            },
            StateType::GameSaveSuccess => {
                self.display = true;
                self.title = "Game Saved".to_owned();
            },
            StateType::GameSaveError => {
                self.display = true;
                self.title = "Save Error!".to_owned();
            },
            StateType::GameLoadError => {
                self.display = true;
                self.title = "Load Error!".to_owned();
            },
            StateType::GameQuit => {
                self.display = true;
                self.title = "Quit Game".to_owned();
            },
            _ => {
                self.display = false;
                self.title = String::new();
            },
        }
    }
}

} // verus!
