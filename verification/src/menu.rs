//! The menu: the list of selectable options below the viewport, derived
//! from the current state, with a cursor and a scrolling window.
use vstd::prelude::*;
use crate::states::StateType;
use crate::world::{Town, World};

verus! {

/// The views of a sequence of strings.
pub open spec fn str_views(s: Seq<String>) -> Seq<Seq<char>> {
    s.map(|k: int, x: String| x@)
}

/// The names of a sequence of towns.
pub open spec fn town_names(ts: Seq<Town>) -> Seq<Seq<char>> {
    ts.map(|k: int, t: Town| t.name@)
}

/// The menu options shown in a state: fixed lists for the fixed screens,
/// and the town names with a closing `Back` entry for the travel screen.
/// Every state shows at least one option.
pub open spec fn spec_menu_options(s: StateType, towns: Seq<Town>) -> Seq<Seq<char>> {
    match s {
        StateType::MainMenu => seq!["New Game"@, "Load Game"@, "Exit"@],
        StateType::Name | StateType::NameConfirm => seq!["Enter to Confirm"@, "Esc to Cancel"@],
        StateType::Game | StateType::Time | StateType::Weather => seq![
            "Time"@,
            "Weather"@,
            "Travel"@,
            "Save"@,
            "Quit"@,
        ],
        StateType::Travel => town_names(towns).push("Back"@),
        StateType::GameSaveSuccess
        | StateType::GameSaveError
        | StateType::GameLoadError
        | StateType::GameInitError => seq!["Enter to Continue"@],
        StateType::GameQuit => seq!["Yes"@, "No"@],
    }
}

/// In every state the menu offers at least one option: each fixed list is
/// non-empty, and the travel list always closes with its `Back` entry.
pub proof fn lemma_menu_never_empty(s: StateType, towns: Seq<Town>)
    ensures
        spec_menu_options(s, towns).len() >= 1,
{
}

/// The option list, the cursor, and the scrolling window over the list.
pub struct Menu {
    pub menu_options: Vec<String>,
    pub selected_index: usize,
    pub scroll_offset: usize,
    pub visible_count: usize,
}

impl Menu {
    /// A menu is well formed when it shows at least one option and the
    /// cursor rests on one of them.
    pub open spec fn wf(&self) -> bool {
        &&& self.menu_options@.len() >= 1
        &&& self.selected_index < self.menu_options@.len()
    }

    /// The main menu's options, cursor at the top.
    pub fn new() -> (r: Self)
        ensures
            r.wf(),
            str_views(r.menu_options@) == spec_menu_options(
                StateType::MainMenu,
                Seq::<Town>::empty(),
            ),
            r.selected_index == 0,
            r.scroll_offset == 0,
            r.visible_count == 0,
    {
        let mut menu_options: Vec<String> = Vec::new();
        menu_options.push("New Game".to_owned());
        menu_options.push("Load Game".to_owned());
        menu_options.push("Exit".to_owned());
        proof {
            assert(str_views(menu_options@) =~= seq!["New Game"@, "Load Game"@, "Exit"@]);
        }
        Self { menu_options, selected_index: 0, scroll_offset: 0, visible_count: 0 }
    }

    /// Moves the cursor one option down, holding at the last one, and
    /// scrolls the window after it when it leaves the visible range.
    pub fn next(&mut self)
        requires
            old(self).wf(),
        ensures
            final(self).wf(),
            final(self).menu_options == old(self).menu_options,
            final(self).visible_count == old(self).visible_count,
            final(self).selected_index == if old(self).selected_index + 1 < old(
                self,
            ).menu_options@.len() {
                old(self).selected_index + 1
            } else {
                old(self).selected_index as int
            },
            final(self).scroll_offset == if final(self).selected_index >= old(self).scroll_offset
                + old(self).visible_count {
                old(self).scroll_offset + 1
            } else {
                old(self).scroll_offset as int
            },
    {
        if self.selected_index < self.menu_options.len() - 1 {
            self.selected_index = self.selected_index + 1;
        }
        if self.scroll_offset <= self.selected_index && self.selected_index - self.scroll_offset
            >= self.visible_count {
            self.scroll_offset = self.scroll_offset + 1;
        }
    }

    /// Moves the cursor one option up, holding at the first one, and pulls
    /// the window back when the cursor leaves it.
    pub fn previous(&mut self)
        requires
            old(self).wf(),
        ensures
            final(self).wf(),
            final(self).menu_options == old(self).menu_options,
            final(self).visible_count == old(self).visible_count,
            final(self).selected_index == if old(self).selected_index > 0 {
                old(self).selected_index - 1
            } else {
                0int
            },
            final(self).scroll_offset == if final(self).selected_index < old(self).scroll_offset
                && old(self).scroll_offset > 0 {
                1int
            } else {
                old(self).scroll_offset as int
            },
    {
        if self.selected_index > 0 {
            self.selected_index = self.selected_index - 1;
        }
        if self.selected_index < self.scroll_offset {
            let back = if self.scroll_offset > 0 {
                self.scroll_offset - 1
            } else {
                0
            };
            self.scroll_offset = self.scroll_offset - back;
        }
    }

    /// Recomputes the option list for the current state; the cursor is kept
    /// where possible and reset to the top where the new list is shorter.
    pub fn update(&mut self, state: StateType, world: &Option<World>)
        ensures
            final(self).wf(),
            str_views(final(self).menu_options@) == spec_menu_options(
                state,
                match *world {
                    Some(w) => w.towns@,
                    None => Seq::<Town>::empty(),
                },
            ),
            final(self).selected_index == (if old(self).selected_index
                < final(self).menu_options@.len() {
                old(self).selected_index as int
            } else {
                0int
            }),
            final(self).scroll_offset == old(self).scroll_offset,
            final(self).visible_count == old(self).visible_count,
    {
        let mut menu_options: Vec<String> = Vec::new();
        match state {
            StateType::MainMenu => {
                menu_options.push("New Game".to_owned());
                menu_options.push("Load Game".to_owned());
                menu_options.push("Exit".to_owned());
                proof {
                    assert(str_views(menu_options@) =~= seq!["New Game"@, "Load Game"@, "Exit"@]);
                }
            },
            StateType::Name | StateType::NameConfirm => {
                menu_options.push("Enter to Confirm".to_owned());
                menu_options.push("Esc to Cancel".to_owned());
                proof {
                    assert(str_views(menu_options@) =~= seq!["Enter to Confirm"@, "Esc to Cancel"@]);
                }
            },
            StateType::Game | StateType::Time | StateType::Weather => {
                menu_options.push("Time".to_owned());
                menu_options.push("Weather".to_owned());
                menu_options.push("Travel".to_owned());
                menu_options.push("Save".to_owned());
                menu_options.push("Quit".to_owned());
                proof {
                    assert(str_views(menu_options@) =~= seq![
                        "Time"@,
                        "Weather"@,
                        "Travel"@,
                        "Save"@,
                        "Quit"@,
                    ]);
                }
            },
            StateType::Travel => {
                let ghost towns = match *world {
                    Some(ref w) => w.towns@,
                    None => Seq::<Town>::empty(),
                };
                match world {
                    Some(w) => {
                        let mut i: usize = 0;
                        while i < w.towns.len()
                            invariant
                                i <= w.towns@.len(),
                                towns == w.towns@,
                                str_views(menu_options@) == town_names(towns.take(i as int)),
                            decreases w.towns@.len() - i,
                        {
                            let ghost pre = menu_options@;
                            menu_options.push(w.towns[i].name.clone());
                            i = i + 1;
                            proof {
                                let k = i as int;
                                assert(str_views(pre).len() == pre.len());
                                assert(town_names(towns.take(k - 1)).len() == k - 1);
                                assert(pre.len() == k - 1);
                                assert(menu_options@ == pre.push(w.towns@[k - 1].name));
                                assert forall|t: int| 0 <= t < k implies str_views(menu_options@)[t]
                                    == town_names(towns.take(k))[t] by {
                                    assert(town_names(towns.take(k))[t] == towns[t].name@);
                                    if t < k - 1 {
                                        assert(str_views(pre)[t] == town_names(towns.take(k - 1))[t]);
                                        assert(menu_options@[t] == pre[t]);
                                    } else {
                                        assert(menu_options@[t] == w.towns@[k - 1].name);
                                    }
                                }
                                assert(str_views(menu_options@) =~= town_names(towns.take(k)));
                            }
                        }
                        proof {
                            assert(towns.take(towns.len() as int) =~= towns);
                        }
                    },
                    None => {
                        proof {
                            assert(str_views(menu_options@) =~= town_names(towns));
                        }
                    },
                }
                menu_options.push("Back".to_owned());
                proof {
                    assert(str_views(menu_options@) =~= town_names(towns).push("Back"@));
                }
            },
            StateType::GameSaveSuccess
            | StateType::GameSaveError
            | StateType::GameLoadError
            | StateType::GameInitError => {
                menu_options.push("Enter to Continue".to_owned());
                proof {
                    assert(str_views(menu_options@) =~= seq!["Enter to Continue"@]);
                }
            },
            StateType::GameQuit => {
                menu_options.push("Yes".to_owned());
                menu_options.push("No".to_owned());
                proof {
                    assert(str_views(menu_options@) =~= seq!["Yes"@, "No"@]);
                }
            },
        }
        self.menu_options = menu_options;
        if self.selected_index >= self.menu_options.len() {
            self.selected_index = 0;
        }
    }
}

} // verus!
