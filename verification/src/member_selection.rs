use vstd::prelude::*;

use crate::text::str_equal;

verus! {

/// The members selected to be given a custom power level, by user ID.
#[derive(Debug)]
pub struct MemberSelection {
    pub selected: Vec<String>,
}

/// The set of user IDs in a list.
pub open spec fn id_set(v: Seq<String>) -> Set<Seq<char>> {
    Set::new(|id: Seq<char>| exists|i: int| 0 <= i < v.len() && #[trigger] v[i]@ == id)
}

/// No user ID occurs twice in the list.
pub open spec fn distinct_ids(v: Seq<String>) -> bool {
    forall|i: int, j: int| 0 <= i < j < v.len() ==> v[i]@ != v[j]@
}

impl MemberSelection {
    /// Well-formedness: each member is selected once.
    pub open spec fn wf(&self) -> bool {
        distinct_ids(self.selected@)
    }

    /// The selected user IDs.
    pub open spec fn view_set(&self) -> Set<Seq<char>> {
        id_set(self.selected@)
    }

    /// An empty selection.
    pub fn new() -> (res: Self)
        ensures
            res.wf(),
            res.view_set() == Set::<Seq<char>>::empty(),
    {
        let res = MemberSelection { selected: Vec::new() };
        proof {
            assert(res.view_set() =~= Set::<Seq<char>>::empty());
        }
        res
    }

    fn position(&self, user_id: &str) -> (res: Option<usize>)
        ensures
            match res {
                Some(i) => i < self.selected@.len() && self.selected@[i as int]@ == user_id@,
                None => !self.view_set().contains(user_id@),
            },
    {
        let n = self.selected.len();
        let mut i: usize = 0;
        while i < n
            invariant
                n == self.selected@.len(),
                0 <= i <= n,
                forall|k: int| 0 <= k < i ==> self.selected@[k]@ != user_id@,
            decreases n - i,
        {
            if str_equal(self.selected[i].as_str(), user_id) {
                return Some(i);
            }
            i = i + 1;
        }
        None
    }

    /// Whether the member with the given user ID is selected.
    pub fn is_selected(&self, user_id: &str) -> (res: bool)
        ensures
            res == self.view_set().contains(user_id@),
    {
        match self.position(user_id) {
            Some(i) => {
                proof {
                    assert(self.selected@[i as int]@ == user_id@);
                }
                true
            },
            None => false,
        }
    }

    /// Whether the button to add the selected members is sensitive: some
    /// member is selected.
    pub fn can_add(&self) -> (res: bool)
        requires
            self.wf(),
        ensures
            res == (self.view_set() != Set::<Seq<char>>::empty()),
    {
        proof {
            if self.selected@.len() > 0 {
                assert(self.view_set().contains(self.selected@[0]@));
            } else {
                assert(self.view_set() =~= Set::<Seq<char>>::empty());
            }
        }
        self.selected.len() > 0
    }

    /// Selects a member; returns whether the selection changed (it did not if
    /// the member was selected already).
    pub fn add_selected(&mut self, user_id: &str) -> (changed: bool)
        requires
            old(self).wf(),
        ensures
            final(self).wf(),
            changed == !old(self).view_set().contains(user_id@),
            final(self).view_set() == old(self).view_set().insert(user_id@),
    {
        if self.is_selected(user_id) {
            proof {
                assert(self.view_set().insert(user_id@) =~= self.view_set());
            }
            return false;
        }
        let ghost before = self.selected@;
        self.selected.push(user_id.to_string());
        proof {
            assert forall|i: int, j: int| 0 <= i < j < self.selected@.len() implies self.selected@[i]@
                != self.selected@[j]@ by {
                if j == before.len() {
                    assert(self.selected@[i] == before[i]);
                    if before[i]@ == user_id@ {
                        assert(id_set(before).contains(user_id@));
                    }
                }
            }
            assert forall|id: Seq<char>| self.view_set().contains(id) <==> id_set(before).insert(
                user_id@,
            ).contains(id) by {
                if self.view_set().contains(id) {
                    let k = choose|k: int| 0 <= k < self.selected@.len() && #[trigger] self.selected@[k]@ == id;
                    if k < before.len() {
                        assert(before[k]@ == id);
                    }
                }
                if id_set(before).contains(id) {
                    let k = choose|k: int| 0 <= k < before.len() && #[trigger] before[k]@ == id;
                    assert(self.selected@[k]@ == id);
                }
                if id == user_id@ {
                    assert(self.selected@[before.len() as int]@ == id);
                }
            }
            assert(self.view_set() =~= id_set(before).insert(user_id@));
        }
        true
    }

    /// Unselects a member; returns whether the selection changed (it did not
    /// if the member was not selected).
    pub fn remove_selected(&mut self, user_id: &str) -> (changed: bool)
        requires
            old(self).wf(),
        ensures
            final(self).wf(),
            changed == old(self).view_set().contains(user_id@),
            final(self).view_set() == old(self).view_set().remove(user_id@),
    {
        match self.position(user_id) {
            None => {
                proof {
                    assert(self.view_set().remove(user_id@) =~= self.view_set());
                }
                false
            },
            Some(p) => {
                let ghost before = self.selected@;
                proof {
                    assert(id_set(before).contains(before[p as int]@));
                }
                let _ = self.selected.remove(p);
                proof {
                    assert forall|id: Seq<char>| self.view_set().contains(id) <==> id_set(before).remove(
                        user_id@,
                    ).contains(id) by {
                        if self.view_set().contains(id) {
                            let k = choose|k: int| 0 <= k < self.selected@.len() && #[trigger] self.selected@[k]@ == id;
                            if k < p {
                                assert(before[k]@ == id);
                                assert(k != p);
                            } else {
                                assert(before[k + 1]@ == id);
                            }
                        }
                        if id_set(before).contains(id) && id != user_id@ {
                            let k = choose|k: int| 0 <= k < before.len() && #[trigger] before[k]@ == id;
                            if k < p {
                                assert(self.selected@[k]@ == id);
                            } else {
                                assert(k != p);
                                assert(self.selected@[k - 1]@ == id);
                            }
                        }
                    }
                    assert(self.view_set() =~= id_set(before).remove(user_id@));
                }
                true
            },
        }
    }

    /// Toggles whether a member is selected.
    pub fn toggle_selected(&mut self, user_id: &str)
        requires
            old(self).wf(),
        ensures
            final(self).wf(),
            final(self).view_set() == toggled(old(self).view_set(), user_id@),
    {
        if self.is_selected(user_id) {
            let _ = self.remove_selected(user_id);
        } else {
            let _ = self.add_selected(user_id);
        }
    }

    /// Takes the selection out, leaving it empty: the user IDs of the
    /// members to add.
    pub fn take(&mut self) -> (res: Vec<String>)
        requires
            old(self).wf(),
        ensures
            final(self).wf(),
            final(self).view_set() == Set::<Seq<char>>::empty(),
            id_set(res@) == old(self).view_set(),
            distinct_ids(res@),
    {
        let mut res: Vec<String> = Vec::new();
        std::mem::swap(&mut res, &mut self.selected);
        proof {
            assert(self.view_set() =~= Set::<Seq<char>>::empty());
        }
        res
    }
}

/// The selection after toggling a member: unselected if it was selected,
/// selected otherwise.
pub open spec fn toggled(s: Set<Seq<char>>, id: Seq<char>) -> Set<Seq<char>> {
    if s.contains(id) {
        s.remove(id)
    } else {
        s.insert(id)
    }
}

/// Toggling a member twice leaves the selection as it was.
pub proof fn law_toggle_twice_restores(s: Set<Seq<char>>, id: Seq<char>)
    ensures
        toggled(toggled(s, id), id) == s,
{
    if s.contains(id) {
        assert(s.remove(id).insert(id) =~= s);
    } else {
        assert(s.insert(id).remove(id) =~= s);
    }
}

} // verus!
