use vstd::prelude::*;

verus! {

/// The number of read receipts shown as avatars.
pub const MAX_RECEIPTS_SHOWN: u32 = 5;

/// The label next to the avatars of the read receipts: the number of
/// receipts beyond those shown, when there are more than shown.
pub fn receipts_label(n_items: u32) -> (res: Option<u32>)
    ensures
        res == (if n_items > MAX_RECEIPTS_SHOWN {
            Some((n_items - MAX_RECEIPTS_SHOWN) as u32)
        } else {
            None
        }),
{
    if n_items > MAX_RECEIPTS_SHOWN {
        Some(n_items - MAX_RECEIPTS_SHOWN)
    } else {
        None
    }
}

/// The tooltip of a list of members who did something (read an event,
/// reacted with a key).
#[derive(Clone, Copy, Debug, PartialEq, Eq, Structural)]
pub enum CountTooltip {
    /// Nobody: no tooltip.
    Nothing,
    /// The name of the one member.
    OneMember,
    /// The number of members.
    Count(u32),
}

/// The tooltip of a list of members (read receipts, senders of a
/// reaction): the name of the member when there is one (and their member is
/// known), the count otherwise.
pub fn count_tooltip(n_items: u32, single_member_known: bool) -> (res: CountTooltip)
    ensures
        res == (if n_items == 1 && single_member_known {
            CountTooltip::OneMember
        } else if n_items > 0 {
            CountTooltip::Count(n_items)
        } else {
            CountTooltip::Nothing
        }),
{
    if n_items == 1 && single_member_known {
        CountTooltip::OneMember
    } else if n_items > 0 {
        CountTooltip::Count(n_items)
    } else {
        CountTooltip::Nothing
    }
}

/// Replaces `removed` items at `pos` of a list with new ones, as a list
/// model does when its source changes.
pub fn splice<T>(list: &mut Vec<T>, pos: usize, removed: usize, new_items: Vec<T>)
    requires
        pos + removed <= old(list)@.len(),
    ensures
        final(list)@ == old(list)@.subrange(0, pos as int) + new_items@ + old(list)@.subrange(
            pos + removed,
            old(list)@.len() as int,
        ),
{
    let mut k: usize = 0;
    while k < removed
        invariant
            0 <= k <= removed,
            pos + removed <= old(list)@.len(),
            list@ == old(list)@.subrange(0, pos as int) + old(list)@.subrange(pos + k, old(list)@.len() as int),
        decreases removed - k,
    {
        let ghost before = list@;
        proof {
            assert(list@.len() > pos);
        }
        let _ = list.remove(pos);
        proof {
            assert(list@ =~= old(list)@.subrange(0, pos as int) + old(list)@.subrange(pos + k + 1, old(list)@.len() as int));
        }
        k = k + 1;
    }
    let mut new_items = new_items;
    let ghost added = new_items@;
    let mut at = pos;
    let mut j: usize = 0;
    let m = new_items.len();
    let ghost tail = old(list)@.subrange(pos + removed, old(list)@.len() as int);
    let ghost head = old(list)@.subrange(0, pos as int);
    proof {
        assert(new_items@ =~= added.subrange(0, m as int));
        assert(list@ =~= head + added.take(0) + tail);
    }
    while j < m
        invariant
            m == added.len(),
            0 <= j <= m,
            at == pos + j,
            head.len() == pos,
            new_items@ == added.subrange(j as int, m as int),
            list@ == head + added.take(j as int) + tail,
        decreases m - j,
    {
        let item = new_items.remove(0);
        proof {
            assert(item == added[j as int]);
            assert(list@.len() >= at);
        }
        list.insert(at, item);
        proof {
            assert(new_items@ =~= added.subrange(j as int + 1, m as int));
            assert(list@ =~= head + added.take(j as int + 1) + tail);
            assert(at < list@.len());
        }
        let len = list.len();
        proof {
            assert(at < len);
        }
        at = at + 1;
        j = j + 1;
    }
    proof {
        assert(added.take(m as int) =~= added);
    }
}

/// The label of the row of members who are typing.
#[derive(Clone, Copy, Debug, PartialEq, Eq, Structural)]
pub enum TypingLabel {
    /// Nobody types: the label stays as it is while the row hides.
    Unchanged,
    /// The one member who types.
    OneMember,
    /// This many members type.
    Members(u32),
}

/// The label of the row of members who are typing.
pub fn typing_label(n: u32) -> (res: TypingLabel)
    ensures
        res == (if n == 0 {
            TypingLabel::Unchanged
        } else if n == 1 {
            TypingLabel::OneMember
        } else {
            TypingLabel::Members(n)
        }),
{
    if n == 0 {
        TypingLabel::Unchanged
    } else if n == 1 {
        TypingLabel::OneMember
    } else {
        TypingLabel::Members(n)
    }
}

} // verus!
