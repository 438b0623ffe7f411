use vstd::prelude::*;

use crate::addresses::strs;
use crate::text::str_equal;

verus! {

/// The state of the search for users to invite.
#[derive(Clone, Copy, Debug, PartialEq, Eq, Structural)]
pub enum InviteListState {
    Initial,
    Loading,
    NoMatching,
    Matching,
    Error,
}

/// The page of the invite subpage.
#[derive(Clone, Copy, Debug, PartialEq, Eq, Structural)]
pub enum InvitePage {
    NoSearch,
    Loading,
    NoResults,
    Results,
    Error,
}

/// The page that shows for the state of the search.
pub fn update_view(state: InviteListState) -> (res: InvitePage)
    ensures
        res == (match state {
            InviteListState::Initial => InvitePage::NoSearch,
            InviteListState::Loading => InvitePage::Loading,
            InviteListState::NoMatching => InvitePage::NoResults,
            InviteListState::Matching => InvitePage::Results,
            InviteListState::Error => InvitePage::Error,
        }),
{
    match state {
        InviteListState::Initial => InvitePage::NoSearch,
        InviteListState::Loading => InvitePage::Loading,
        InviteListState::NoMatching => InvitePage::NoResults,
        InviteListState::Matching => InvitePage::Results,
        InviteListState::Error => InvitePage::Error,
    }
}

/// How closing the subpage goes: back to the previous page when there is
/// one, otherwise the window closes.
#[derive(Clone, Copy, Debug, PartialEq, Eq, Structural)]
pub enum CloseAction {
    PopSubpage,
    CloseWindow,
}

/// How closing the subpage goes.
pub fn close(can_pop: bool) -> (res: CloseAction)
    ensures
        res == (if can_pop {
            CloseAction::PopSubpage
        } else {
            CloseAction::CloseWindow
        }),
{
    if can_pop {
        CloseAction::PopSubpage
    } else {
        CloseAction::CloseWindow
    }
}

/// What follows an attempt to invite users.
#[derive(Debug)]
pub enum InviteOutcome {
    /// Everyone was invited, or nobody is left to invite: the subpage closes.
    Close,
    /// One user could not be invited.
    FailedOne(String),
    /// Several users could not be invited.
    FailedMany(usize),
}

/// The invitees that are kept after an attempt: those whose invite failed,
/// in order.
pub open spec fn spec_retained(invitees: Seq<Seq<char>>, failed: Seq<Seq<char>>) -> Seq<Seq<char>> {
    invitees.filter(|u: Seq<char>| failed.contains(u))
}

fn contains_str(v: &Vec<String>, x: &str) -> (res: bool)
    ensures
        res == strs(v@).contains(x@),
{
    let n = v.len();
    let mut i: usize = 0;
    while i < n
        invariant
            n == v@.len(),
            0 <= i <= n,
            forall|k: int| 0 <= k < i ==> v@[k]@ != x@,
        decreases n - i,
    {
        if str_equal(v[i].as_str(), x) {
            proof {
                assert(strs(v@)[i as int] == x@);
            }
            return true;
        }
        i = i + 1;
    }
    proof {
        if strs(v@).contains(x@) {
            let k = choose|k: int| 0 <= k < strs(v@).len() && strs(v@)[k] == x@;
            assert(v@[k]@ == x@);
        }
    }
    false
}

/// Handles the answer to an attempt to invite the invitees: `None` when
/// everyone was invited, otherwise the users whose invite failed. The
/// invitees whose invite failed are kept (the others are dropped), and the
/// outcome says whether the subpage closes or which failure to report.
pub fn invite_done(invitees: &mut Vec<String>, failed: Option<&Vec<String>>) -> (res: InviteOutcome)
    ensures
        match failed {
            None => strs(final(invitees)@) == strs(old(invitees)@) && res is Close,
            Some(f) => strs(final(invitees)@) == spec_retained(strs(old(invitees)@), strs(f@)) && (match res {
                InviteOutcome::Close => final(invitees)@.len() == 0,
                InviteOutcome::FailedOne(u) => final(invitees)@.len() == 1 && u@ == final(invitees)@[0]@,
                InviteOutcome::FailedMany(n) => n == final(invitees)@.len() && n > 1,
            }),
        },
{
    let failed = match failed {
        None => {
            return InviteOutcome::Close;
        },
        Some(f) => f,
    };
    let ghost pred = |u: Seq<char>| strs(failed@).contains(u);
    let mut kept: Vec<String> = Vec::new();
    let n = invitees.len();
    let mut i: usize = 0;
    while i < n
        invariant
            n == invitees@.len(),
            invitees@ == old(invitees)@,
            0 <= i <= n,
            strs(kept@) == strs(invitees@).take(i as int).filter(pred),
            pred == (|u: Seq<char>| strs(failed@).contains(u)),
        decreases n - i,
    {
        let ghost before = kept@;
        proof {
            assert(strs(invitees@).take(i as int + 1) =~= strs(invitees@).take(i as int).push(invitees@[i as int]@));
            strs(invitees@).take(i as int).lemma_filter_push(invitees@[i as int]@, pred);
        }
        if contains_str(failed, invitees[i].as_str()) {
            kept.push(invitees[i].clone());
            proof {
                assert(strs(kept@) =~= strs(before).push(invitees@[i as int]@));
            }
        }
        i = i + 1;
    }
    proof {
        assert(strs(invitees@).take(n as int) =~= strs(invitees@));
    }
    *invitees = kept;
    let remaining = invitees.len();
    if remaining == 0 {
        InviteOutcome::Close
    } else if remaining == 1 {
        InviteOutcome::FailedOne(invitees[0].clone())
    } else {
        InviteOutcome::FailedMany(remaining)
    }
}

} // verus!
