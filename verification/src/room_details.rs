use vstd::prelude::*;

use crate::draft::{is_valid_user_id, ruma_user_id_valid};
use crate::members_list::MembershipListKind;

verus! {

/// A subpage of the room details.
#[derive(Clone, Copy, Debug, PartialEq, Eq, Structural)]
pub enum SubpageName {
    EditDetails,
    Members,
    Invite,
    VisualMediaHistory,
    FileHistory,
    AudioHistory,
    Addresses,
    Permissions,
    JoinRule,
    HistoryVisibility,
}

/// What the room details show when they open.
#[derive(Clone, Copy, Debug, PartialEq, Eq, Structural)]
pub enum InitialView {
    /// The general page.
    General,
    /// A subpage.
    Subpage(SubpageName),
    /// The list of members of a kind.
    Members(MembershipListKind),
}

/// How the room details navigate.
#[derive(Clone, Copy, Debug, PartialEq, Eq, Structural)]
pub enum Navigation {
    /// Stay on the general page.
    Stay,
    /// Show a subpage; `can_pop` is false for the subpage the details opened
    /// on, which has no page to go back to.
    PushSubpage { name: SubpageName, can_pop: bool },
    /// Show the members subpage, on the list of a kind.
    PushMembers(MembershipListKind),
}

/// How the room details navigate to show an initial view.
pub fn show_initial_view(view: InitialView) -> (res: Navigation)
    ensures
        res == (match view {
            InitialView::General => Navigation::Stay,
            InitialView::Subpage(name) => Navigation::PushSubpage { name, can_pop: false },
            InitialView::Members(kind) => Navigation::PushMembers(kind),
        }),
{
    match view {
        InitialView::General => Navigation::Stay,
        InitialView::Subpage(name) => Navigation::PushSubpage { name, can_pop: false },
        InitialView::Members(kind) => Navigation::PushMembers(kind),
    }
}

/// The subpages that were built, each kept to be shown again.
#[derive(Debug)]
pub struct SubpageCache {
    pub built: Vec<SubpageName>,
}

impl SubpageCache {
    /// Well-formedness: each subpage is built once.
    pub open spec fn wf(&self) -> bool {
        forall|i: int, j: int| 0 <= i < j < self.built@.len() ==> self.built@[i] != self.built@[j]
    }

    /// No subpage built yet.
    pub fn new() -> (res: Self)
        ensures
            res.wf(),
            res.built@.len() == 0,
    {
        SubpageCache { built: Vec::new() }
    }

    /// Gets a subpage: returns whether it must be built now, which happens
    /// the first time only; later it is reused.
    pub fn subpage(&mut self, name: SubpageName) -> (build: bool)
        requires
            old(self).wf(),
        ensures
            final(self).wf(),
            build == !old(self).built@.contains(name),
            final(self).built@.contains(name),
            forall|n: SubpageName| #[trigger] final(self).built@.contains(n) <==> (old(self).built@.contains(n)
                || n == name),
    {
        let n = self.built.len();
        let mut i: usize = 0;
        while i < n
            invariant
                n == self.built@.len(),
                self.built@ == old(self).built@,
                old(self).wf(),
                0 <= i <= n,
                forall|k: int| 0 <= k < i ==> self.built@[k] != name,
            decreases n - i,
        {
            if self.built[i] == name {
                proof {
                    assert(self.built@[i as int] == name);
                }
                return false;
            }
            i = i + 1;
        }
        self.built.push(name);
        proof {
            assert(self.built@[n as int] == name);
            assert forall|x: SubpageName| #[trigger] self.built@.contains(x) <==> (old(self).built@.contains(x)
                || x == name) by {
                if self.built@.contains(x) {
                    let k = choose|k: int| 0 <= k < self.built@.len() && self.built@[k] == x;
                    if k < n {
                        assert(old(self).built@[k] == x);
                    }
                }
                if old(self).built@.contains(x) {
                    let k = choose|k: int| 0 <= k < old(self).built@.len() && old(self).built@[k] == x;
                    assert(self.built@[k] == x);
                }
            }
        }
        true
    }
}

/// Whether the action to show a member goes on: its parameter is a valid
/// user ID.
pub fn show_member(user_id: &str) -> (res: bool)
    ensures
        res == ruma_user_id_valid(user_id@),
{
    is_valid_user_id(user_id)
}

} // verus!
