use vstd::prelude::*;

use crate::completion::{Key, KeyModifiers, Propagation};
use crate::text::str_equal;

verus! {

/// The popover that completes the address typed in the row to add a public
/// address, with the local addresses that match it.
#[derive(Debug)]
pub struct CompletionPopover {
    /// Whether the popover is shown.
    pub visible: bool,
    /// The selected row, if any.
    pub selected: Option<usize>,
    /// The addresses that match the text of the entry, one row each.
    pub items: Vec<String>,
}

/// What happens to the entry when a key is pressed in it.
#[derive(Clone, Debug, PartialEq, Eq)]
pub enum EntryEffect {
    /// Nothing.
    Nothing,
    /// Completion must be updated.
    UpdateCompletion,
    /// The selected row was activated: its text becomes the text of the
    /// entry.
    SetText(String),
}

impl CompletionPopover {
    /// Well-formedness: the selected row is one of the rows.
    pub open spec fn wf(&self) -> bool {
        self.selected matches Some(i) ==> i < self.items@.len()
    }

    /// A hidden popover without rows.
    pub fn new() -> (res: Self)
        ensures
            res.wf(),
            !res.visible,
            res.selected is None,
            res.items@.len() == 0,
    {
        CompletionPopover { visible: false, selected: None, items: Vec::new() }
    }

    /// The matching addresses changed: the rows are replaced and none is
    /// selected.
    pub fn set_items(&mut self, items: Vec<String>)
        ensures
            final(self).wf(),
            final(self).items@ == items@,
            final(self).selected is None,
            final(self).visible == old(self).visible,
    {
        self.items = items;
        self.selected = None;
    }

    /// Updates whether the popover shows, for the text of the entry and
    /// whether the entry has the focus: it hides without a match, or when the
    /// only match is the text itself; otherwise it shows exactly while the
    /// entry has the focus.
    pub fn update_completion(&mut self, entry_text: &str, entry_focused: bool)
        requires
            old(self).wf(),
        ensures
            final(self).wf(),
            final(self).selected == old(self).selected,
            final(self).items@ == old(self).items@,
            final(self).visible == (if old(self).items@.len() == 0 {
                false
            } else if old(self).items@.len() == 1 && old(self).items@[0]@ == entry_text@ {
                false
            } else {
                entry_focused
            }),
    {
        let n = self.items.len();
        if n == 0 {
            self.visible = false;
            return;
        }
        if n == 1 && str_equal(self.items[0].as_str(), entry_text) {
            self.visible = false;
            return;
        }
        self.visible = entry_focused;
    }

    /// Selects the row at the given index (`None` to select none), unless it
    /// is selected already or is not a row.
    pub fn select_row_at_index(&mut self, idx: Option<usize>)
        requires
            old(self).wf(),
        ensures
            final(self).wf(),
            final(self).visible == old(self).visible,
            final(self).items@ == old(self).items@,
            final(self).selected == (match idx {
                Some(i) => if i >= old(self).items@.len() {
                    old(self).selected
                } else {
                    idx
                },
                None => None,
            }),
    {
        if self.selected == idx {
            return;
        }
        match idx {
            Some(i) => {
                if i >= self.items.len() {
                    return;
                }
            },
            None => {},
        }
        self.selected = idx;
    }

    /// Activates the selected row, when the popover shows, a row is selected
    /// and its text is not already the text of the entry: the popover hides
    /// and the text of the row is returned, to become the text of the entry.
    pub fn activate_selected_row(&mut self, entry_text: &str) -> (res: Option<String>)
        requires
            old(self).wf(),
        ensures
            final(self).wf(),
            final(self).items@ == old(self).items@,
            final(self).selected == old(self).selected,
            match res {
                Some(t) => old(self).visible && (old(self).selected matches Some(i) && t@
                    == old(self).items@[i as int]@ && t@ != entry_text@) && !final(self).visible,
                None => !(old(self).visible && (old(self).selected matches Some(i)
                    && old(self).items@[i as int]@ != entry_text@)) && final(self).visible
                    == old(self).visible,
            },
    {
        if !self.visible {
            return None;
        }
        match self.selected {
            Some(i) => {
                if str_equal(self.items[i].as_str(), entry_text) {
                    return None;
                }
                let text = self.items[i].clone();
                self.visible = false;
                Some(text)
            },
            None => None,
        }
    }

    /// Handles a key pressed in the entry whose text is `entry_text`.
    ///
    /// Keys with any modifier go to the entry. While the popover is hidden,
    /// Tab updates completion and the other keys go to the entry. While it
    /// shows, Enter activates the selected row, Up and Down move the
    /// selection within the rows, Escape hides the popover, each of them
    /// taken from the entry; the other keys go to the entry.
    pub fn key_pressed(&mut self, key: Key, modifiers: KeyModifiers, entry_text: &str) -> (res: (
        Propagation,
        EntryEffect,
    ))
        requires
            old(self).wf(),
        ensures
            final(self).wf(),
            final(self).items@ == old(self).items@,
            modifiers.lock || modifiers.other ==> res == (Propagation::Proceed, EntryEffect::Nothing)
                && final(self).visible == old(self).visible && final(self).selected == old(self).selected,
            !(modifiers.lock || modifiers.other) && !old(self).visible ==> !final(self).visible
                && final(self).selected == old(self).selected && res == (if key == Key::Tab {
                (Propagation::Stop, EntryEffect::UpdateCompletion)
            } else {
                (Propagation::Proceed, EntryEffect::Nothing)
            }),
            !(modifiers.lock || modifiers.other) && old(self).visible ==> (if key == Key::Return
                || key == Key::KpEnter || key == Key::IsoEnter {
                res.0 == Propagation::Stop && final(self).selected == old(self).selected && (if (
                old(self).selected matches Some(i) && old(self).items@[i as int]@ != entry_text@) {
                    (res.1 matches EntryEffect::SetText(t) && t@ == old(self).items@[
                        old(self).selected->0 as int
                    ]@) && !final(self).visible
                } else {
                    res.1 == EntryEffect::Nothing && final(self).visible
                })
            } else if key == Key::Up || key == Key::KpUp {
                res == (Propagation::Stop, EntryEffect::Nothing) && final(self).visible
                    && final(self).selected == (match old(self).selected {
                    Some(i) => if i > 0 {
                        Some((i - 1) as usize)
                    } else {
                        old(self).selected
                    },
                    None => None,
                })
            } else if key == Key::Down || key == Key::KpDown {
                res == (Propagation::Stop, EntryEffect::Nothing) && final(self).visible
                    && final(self).selected == (match old(self).selected {
                    Some(i) => if i + 1 < old(self).items@.len() {
                        Some((i + 1) as usize)
                    } else {
                        old(self).selected
                    },
                    None => if 0 < old(self).items@.len() {
                        Some(0usize)
                    } else {
                        None
                    },
                })
            } else if key == Key::Escape {
                res == (Propagation::Stop, EntryEffect::Nothing) && !final(self).visible
                    && final(self).selected == old(self).selected
            } else {
                res == (Propagation::Proceed, EntryEffect::Nothing) && final(self).visible
                    && final(self).selected == old(self).selected
            }),
    {
        if modifiers.lock || modifiers.other {
            return (Propagation::Proceed, EntryEffect::Nothing);
        }
        if !self.visible {
            if key == Key::Tab {
                return (Propagation::Stop, EntryEffect::UpdateCompletion);
            }
            return (Propagation::Proceed, EntryEffect::Nothing);
        }
        if key == Key::Return || key == Key::KpEnter || key == Key::IsoEnter {
            return match self.activate_selected_row(entry_text) {
                Some(text) => (Propagation::Stop, EntryEffect::SetText(text)),
                None => (Propagation::Stop, EntryEffect::Nothing),
            };
        }
        if key == Key::Up || key == Key::KpUp {
            let idx = match self.selected {
                Some(i) => i,
                None => 0,
            };
            if idx > 0 {
                self.select_row_at_index(Some(idx - 1));
            }
            return (Propagation::Stop, EntryEffect::Nothing);
        }
        if key == Key::Down || key == Key::KpDown {
            let n = self.items.len();
            match self.selected {
                Some(i) => {
                    if i < n - 1 {
                        self.select_row_at_index(Some(i + 1));
                    }
                },
                None => {
                    if 0 < n {
                        self.select_row_at_index(Some(0));
                    }
                },
            }
            return (Propagation::Stop, EntryEffect::Nothing);
        }
        if key == Key::Escape {
            self.visible = false;
            return (Propagation::Stop, EntryEffect::Nothing);
        }
        (Propagation::Proceed, EntryEffect::Nothing)
    }

    /// A row was activated: the popover hides and the text of the row is
    /// returned, to become the text of the entry.
    pub fn row_activated(&mut self, row: usize) -> (res: String)
        requires
            old(self).wf(),
            row < old(self).items@.len(),
        ensures
            final(self).wf(),
            !final(self).visible,
            final(self).selected == old(self).selected,
            final(self).items@ == old(self).items@,
            res@ == old(self).items@[row as int]@,
    {
        let text = self.items[row].clone();
        self.visible = false;
        text
    }
}

} // verus!
