use vstd::prelude::*;

verus! {

/// The kind of a list of room members, by membership.
#[derive(Clone, Copy, Debug, PartialEq, Eq, Structural)]
pub enum MembershipListKind {
    Join,
    Invite,
    Ban,
    Knock,
}

/// The loading state of the list of members of a room.
#[derive(Clone, Copy, Debug, PartialEq, Eq, Structural)]
pub enum LoadingState {
    Initial,
    Loading,
    Ready,
    Error,
}

/// The title of a list of members: the kind of list, and whether it is
/// plural.
#[derive(Clone, Copy, Debug, PartialEq, Eq, Structural)]
pub struct ListTitle {
    pub kind: MembershipListKind,
    pub plural: bool,
}

/// The page that the view of a list of members shows.
#[derive(Clone, Copy, Debug, PartialEq, Eq, Structural)]
pub enum MembersListPage {
    Loading,
    Error,
    /// The list is empty; `with_extra_items` when the links to the other
    /// lists show on the page.
    Empty { with_extra_items: bool },
    Members,
}

/// What the view of a list of members shows.
#[derive(Clone, Copy, Debug, PartialEq, Eq, Structural)]
pub struct MembersViewState {
    pub title: ListTitle,
    pub page: MembersListPage,
    /// Whether the search button and bar show.
    pub search_visible: bool,
}

/// The title of a list: plural unless it holds exactly one member.
pub open spec fn spec_list_title(kind: MembershipListKind, count: int) -> ListTitle {
    ListTitle { kind, plural: count != 1 }
}

/// What the view shows for a list of the given kind and count, while the
/// members are in the given loading state: the members when there are any;
/// otherwise the loading or error page, or the empty page once loaded,
/// with the links to the other lists (which only the list of joined
/// members has).
pub open spec fn spec_update_view(
    kind: MembershipListKind,
    count: int,
    state: LoadingState,
    has_extra_items: bool,
) -> MembersViewState {
    let empty = count == 0;
    MembersViewState {
        title: spec_list_title(kind, count),
        page: if !empty {
            MembersListPage::Members
        } else {
            match state {
                LoadingState::Initial => MembersListPage::Loading,
                LoadingState::Loading => MembersListPage::Loading,
                LoadingState::Error => MembersListPage::Error,
                LoadingState::Ready => MembersListPage::Empty { with_extra_items: has_extra_items },
            }
        },
        search_visible: !empty,
    }
}

/// Updates the view of a list of members for its count and the loading
/// state of the members. `has_extra_items` says whether the view has the
/// extra items of the list of joined members.
pub fn update_view(kind: MembershipListKind, count: u32, state: LoadingState, has_extra_items: bool) -> (res:
    MembersViewState)
    ensures
        res == spec_update_view(kind, count as int, state, has_extra_items),
{
    let empty = count == 0;
    let page = if !empty {
        MembersListPage::Members
    } else {
        match state {
            LoadingState::Initial | LoadingState::Loading => MembersListPage::Loading,
            LoadingState::Error => MembersListPage::Error,
            LoadingState::Ready => MembersListPage::Empty { with_extra_items: has_extra_items },
        }
    };
    MembersViewState { title: ListTitle { kind, plural: count != 1 }, page, search_visible: !empty }
}

/// An extra item of the list of joined members.
#[derive(Clone, Copy, Debug, PartialEq, Eq, Structural)]
pub enum ExtraItem {
    /// The row that says that the members are loading, or that loading
    /// failed.
    LoadingRow { error: bool },
    /// A link to another list of members.
    Subpage(MembershipListKind),
}

/// The counts of the lists of members that the extra items link to.
#[derive(Clone, Copy, Debug, PartialEq, Eq, Structural)]
pub struct OtherListCounts {
    pub knock: u32,
    pub invite: u32,
    pub ban: u32,
}

/// The extra items that show above the list of joined members: the loading
/// row while the members are not all loaded, then the links to the lists of
/// invite requests, invited and banned members that are not empty. Other
/// lists have none.
pub open spec fn spec_extra_items(kind: MembershipListKind, state: LoadingState, counts: OtherListCounts) -> Seq<
    ExtraItem,
> {
    if !(kind is Join) {
        Seq::empty()
    } else {
        let loading = if state is Ready {
            Seq::<ExtraItem>::empty()
        } else {
            seq![ExtraItem::LoadingRow { error: state is Error }]
        };
        let knock = if counts.knock != 0 {
            seq![ExtraItem::Subpage(MembershipListKind::Knock)]
        } else {
            Seq::<ExtraItem>::empty()
        };
        let invite = if counts.invite != 0 {
            seq![ExtraItem::Subpage(MembershipListKind::Invite)]
        } else {
            Seq::<ExtraItem>::empty()
        };
        let ban = if counts.ban != 0 {
            seq![ExtraItem::Subpage(MembershipListKind::Ban)]
        } else {
            Seq::<ExtraItem>::empty()
        };
        loading + knock + invite + ban
    }
}

/// The extra items that show above a list of members.
pub fn extra_items(kind: MembershipListKind, state: LoadingState, counts: OtherListCounts) -> (res: Vec<
    ExtraItem,
>)
    ensures
        res@ == spec_extra_items(kind, state, counts),
{
    let mut res: Vec<ExtraItem> = Vec::new();
    if kind != MembershipListKind::Join {
        proof {
            assert(res@ =~= spec_extra_items(kind, state, counts));
        }
        return res;
    }
    if state != LoadingState::Ready {
        res.push(ExtraItem::LoadingRow { error: state == LoadingState::Error });
    }
    if counts.knock != 0 {
        res.push(ExtraItem::Subpage(MembershipListKind::Knock));
    }
    if counts.invite != 0 {
        res.push(ExtraItem::Subpage(MembershipListKind::Invite));
    }
    if counts.ban != 0 {
        res.push(ExtraItem::Subpage(MembershipListKind::Ban));
    }
    proof {
        assert(res@ =~= spec_extra_items(kind, state, counts));
    }
    res
}

/// The label of a row that links to a list of members: none for the list
/// of joined members; otherwise the kind of list, plural unless it holds
/// exactly one member.
pub fn subpage_row_label(kind: MembershipListKind, count: u32) -> (res: Option<ListTitle>)
    ensures
        res == (if kind is Join {
            None
        } else {
            Some(spec_list_title(kind, count as int))
        }),
{
    if kind == MembershipListKind::Join {
        return None;
    }
    Some(ListTitle { kind, plural: count != 1 })
}

/// An item of the list of members.
#[derive(Clone, Copy, Debug, PartialEq, Eq, Structural)]
pub enum ListItem {
    /// A member, at its index in the list of members.
    Member(usize),
    /// An extra item.
    Extra(ExtraItem),
}

/// What activating an item does.
#[derive(Clone, Copy, Debug, PartialEq, Eq, Structural)]
pub enum ItemActivation {
    /// Show the details of the member at the index.
    ShowMember(usize),
    /// Show the list of members of the kind.
    ShowMembershipList(MembershipListKind),
    /// Nothing.
    Nothing,
}

/// What activating an item of the list does: a member shows their details,
/// a link shows its list, the loading row does nothing.
pub fn activate_listview_row(item: ListItem) -> (res: ItemActivation)
    ensures
        res == (match item {
            ListItem::Member(i) => ItemActivation::ShowMember(i),
            ListItem::Extra(ExtraItem::Subpage(k)) => ItemActivation::ShowMembershipList(k),
            ListItem::Extra(ExtraItem::LoadingRow { .. }) => ItemActivation::Nothing,
        }),
{
    match item {
        ListItem::Member(i) => ItemActivation::ShowMember(i),
        ListItem::Extra(ExtraItem::Subpage(k)) => ItemActivation::ShowMembershipList(k),
        ListItem::Extra(ExtraItem::LoadingRow { .. }) => ItemActivation::Nothing,
    }
}

/// Whether the invite button shows: the own user can invite and the room is
/// not direct.
pub fn can_invite(permission_to_invite: bool, is_direct: bool) -> (res: bool)
    ensures
        res == (permission_to_invite && !is_direct),
{
    permission_to_invite && !is_direct
}

/// A list that is not empty always shows its members and can be searched;
/// an empty one never can.
pub proof fn law_search_iff_members(kind: MembershipListKind, count: int, state: LoadingState, has_extra_items: bool)
    ensures
        spec_update_view(kind, count, state, has_extra_items).search_visible <==> spec_update_view(
            kind,
            count,
            state,
            has_extra_items,
        ).page is Members,
{
}

} // verus!
