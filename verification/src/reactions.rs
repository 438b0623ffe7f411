use vstd::prelude::*;

use crate::text::str_equal;

verus! {

/// The number of quick reactions.
pub const QUICK_REACTIONS_COUNT: usize = 7;

/// The key of the quick reaction at an index.
pub open spec fn spec_quick_reaction_key(i: int) -> Seq<char> {
    if i == 0 {
        "👍️"@
    } else if i == 1 {
        "👎️"@
    } else if i == 2 {
        "😄"@
    } else if i == 3 {
        "🎉"@
    } else if i == 4 {
        "😕"@
    } else if i == 5 {
        "❤️"@
    } else {
        "🚀"@
    }
}

/// The key (emoji) of the quick reaction at an index.
pub fn quick_reaction_key(i: usize) -> (res: &'static str)
    requires
        i < QUICK_REACTIONS_COUNT,
    ensures
        res@ == spec_quick_reaction_key(i as int),
{
    if i == 0 {
        "👍️"
    } else if i == 1 {
        "👎️"
    } else if i == 2 {
        "😄"
    } else if i == 3 {
        "🎉"
    } else if i == 4 {
        "😕"
    } else if i == 5 {
        "❤️"
    } else {
        "🚀"
    }
}

/// The place of the quick reaction at an index in the grid of 4 columns
/// and 2 rows: `(column, row)`.
pub fn quick_reaction_position(i: usize) -> (res: (i32, i32))
    requires
        i < QUICK_REACTIONS_COUNT,
    ensures
        res.0 == i % 4,
        res.1 == i / 4,
{
    ((i % 4) as i32, (i / 4) as i32)
}

/// A group of reactions with the same key, and whether the own user is
/// among those who reacted.
#[derive(Debug)]
pub struct ReactionGroup {
    pub key: String,
    pub has_own_user: bool,
}

/// Whether the own user reacted with a key: the group of that key (the
/// first one) says so.
pub open spec fn own_reaction(groups: Seq<ReactionGroup>, key: Seq<char>) -> bool
    decreases groups.len(),
{
    if groups.len() == 0 {
        false
    } else if groups[0].key@ == key {
        groups[0].has_own_user
    } else {
        own_reaction(groups.drop_first(), key)
    }
}

proof fn lemma_own_reaction_index(groups: Seq<ReactionGroup>, key: Seq<char>, i: int)
    requires
        0 <= i < groups.len(),
        groups[i].key@ == key,
        forall|j: int| 0 <= j < i ==> groups[j].key@ != key,
    ensures
        own_reaction(groups, key) == groups[i].has_own_user,
    decreases i,
{
    if i > 0 {
        lemma_own_reaction_index(groups.drop_first(), key, i - 1);
    }
}

proof fn lemma_own_reaction_none(groups: Seq<ReactionGroup>, key: Seq<char>)
    requires
        forall|j: int| 0 <= j < groups.len() ==> groups[j].key@ != key,
    ensures
        !own_reaction(groups, key),
    decreases groups.len(),
{
    if groups.len() > 0 {
        lemma_own_reaction_none(groups.drop_first(), key);
    }
}

fn has_own_reaction(groups: &Vec<ReactionGroup>, key: &str) -> (res: bool)
    ensures
        res == own_reaction(groups@, key@),
{
    let n = groups.len();
    let mut i: usize = 0;
    while i < n
        invariant
            n == groups@.len(),
            0 <= i <= n,
            forall|j: int| 0 <= j < i ==> groups@[j].key@ != key@,
        decreases n - i,
    {
        if str_equal(groups[i].key.as_str(), key) {
            proof {
                lemma_own_reaction_index(groups@, key@, i as int);
            }
            return groups[i].has_own_user;
        }
        i = i + 1;
    }
    proof {
        lemma_own_reaction_none(groups@, key@);
    }
    false
}

/// Which quick reactions are toggled on: those the own user reacted with.
pub fn update_reactions(groups: &Vec<ReactionGroup>) -> (res: Vec<bool>)
    ensures
        res@.len() == QUICK_REACTIONS_COUNT,
        forall|i: int| 0 <= i < QUICK_REACTIONS_COUNT ==> #[trigger] res@[i] == own_reaction(
            groups@,
            spec_quick_reaction_key(i),
        ),
{
    let mut res: Vec<bool> = Vec::new();
    let mut i: usize = 0;
    while i < QUICK_REACTIONS_COUNT
        invariant
            0 <= i <= QUICK_REACTIONS_COUNT,
            res@.len() == i,
            forall|k: int| 0 <= k < i ==> #[trigger] res@[k] == own_reaction(groups@, spec_quick_reaction_key(k)),
        decreases QUICK_REACTIONS_COUNT - i,
    {
        res.push(has_own_reaction(groups, quick_reaction_key(i)));
        i = i + 1;
    }
    res
}

/// Whether the count next to a reaction shows: more than one member
/// reacted.
pub fn count_visible(count: u32) -> (res: bool)
    ensures
        res == (count > 1),
{
    count > 1
}

} // verus!
