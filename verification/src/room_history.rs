use vstd::prelude::*;

use crate::event_actions::Membership;

verus! {

/// Which actions of the room menu are enabled, and whether it shows.
#[derive(Clone, Copy, Debug, PartialEq, Eq, Structural)]
pub struct RoomMenu {
    pub visible: bool,
    pub leave: bool,
    pub join: bool,
    pub forget: bool,
}

/// The room menu for the membership of the own user, when there is a room:
/// a joined user can leave, one who left can join again when the join rule
/// lets them, and one who left or was banned can forget the room.
pub fn update_room_menu(room: Option<(Membership, bool)>) -> (res: RoomMenu)
    ensures
        match room {
            None => !res.visible,
            Some((membership, we_can_join)) => res == (RoomMenu {
                visible: true,
                leave: membership is Join,
                join: membership is Leave && we_can_join,
                forget: membership is Leave || membership is Ban,
            }),
        },
{
    match room {
        None => RoomMenu { visible: false, leave: false, join: false, forget: false },
        Some((membership, we_can_join)) => RoomMenu {
            visible: true,
            leave: membership == Membership::Join,
            join: membership == Membership::Leave && we_can_join,
            forget: membership == Membership::Leave || membership == Membership::Ban,
        },
    }
}

/// The page of the room history.
#[derive(Clone, Copy, Debug, PartialEq, Eq, Structural)]
pub enum HistoryPage {
    Loading,
    Error,
    Content,
}

/// The page for the timeline: its events once there are any; otherwise the
/// error page when loading failed, the loading page until then.
pub fn update_view(timeline_is_empty: bool, loading_failed: bool) -> (res: HistoryPage)
    ensures
        res == (if !timeline_is_empty {
            HistoryPage::Content
        } else if loading_failed {
            HistoryPage::Error
        } else {
            HistoryPage::Loading
        }),
{
    if !timeline_is_empty {
        HistoryPage::Content
    } else if loading_failed {
        HistoryPage::Error
    } else {
        HistoryPage::Loading
    }
}

/// The scrolling state of the room history.
#[derive(Clone, Copy, Debug, PartialEq, Eq, Structural)]
pub struct RoomHistory {
    /// Whether the history sticks to the newest event.
    pub is_sticky: bool,
    /// Whether the history is scrolling to the bottom by itself.
    pub is_auto_scrolling: bool,
    /// Whether the button to scroll down is revealed.
    pub scroll_button_revealed: bool,
}

/// What a change of the scroll position asks of the view.
#[derive(Clone, Copy, Debug, PartialEq, Eq, Structural)]
pub enum ScrollEffect {
    /// Keep scrolling to the very bottom.
    ScrollToEnd,
    /// The user scrolled: update the read receipts, load more events if
    /// needed, and drop the typing row when `away_from_bottom`.
    UserScrolled { away_from_bottom: bool },
}

impl RoomHistory {
    /// The state of a new room history.
    pub fn new() -> (res: Self)
        ensures
            res == (RoomHistory { is_sticky: true, is_auto_scrolling: false, scroll_button_revealed: false }),
    {
        RoomHistory { is_sticky: true, is_auto_scrolling: false, scroll_button_revealed: false }
    }

    /// The scroll position changed. While scrolling by itself, the history
    /// keeps going to the bottom until it is there; otherwise the user
    /// scrolled: the history sticks to the bottom exactly when it is there,
    /// and the button to scroll down shows when it is not.
    pub fn scroll_value_changed(&mut self, is_at_bottom: bool) -> (res: ScrollEffect)
        ensures
            old(self).is_auto_scrolling && !is_at_bottom ==> res == ScrollEffect::ScrollToEnd
                && *final(self) == *old(self),
            !(old(self).is_auto_scrolling && !is_at_bottom) ==> res == (ScrollEffect::UserScrolled {
                away_from_bottom: !is_at_bottom,
            }) && *final(self) == (RoomHistory {
                is_sticky: is_at_bottom,
                is_auto_scrolling: false,
                scroll_button_revealed: !is_at_bottom,
            }),
    {
        if self.is_auto_scrolling && !is_at_bottom {
            return ScrollEffect::ScrollToEnd;
        }
        self.is_auto_scrolling = false;
        self.is_sticky = is_at_bottom;
        self.scroll_button_revealed = !is_at_bottom;
        ScrollEffect::UserScrolled { away_from_bottom: !is_at_bottom }
    }

    /// Scrolls down to the newest event, unless the history is there
    /// already; returns whether scrolling starts.
    pub fn scroll_down(&mut self, is_at_bottom: bool) -> (res: bool)
        ensures
            res == !is_at_bottom,
            res ==> final(self).is_auto_scrolling && final(self).is_sticky == old(self).is_sticky,
            !res ==> *final(self) == *old(self),
            final(self).scroll_button_revealed == old(self).scroll_button_revealed,
    {
        if is_at_bottom {
            return false;
        }
        self.is_auto_scrolling = true;
        true
    }

    /// The height of the history changed. Unless it is scrolling by itself,
    /// a sticky history scrolls down, and otherwise the button to scroll
    /// down is updated; returns whether to scroll down.
    pub fn scroll_max_value_changed(&mut self, is_at_bottom: bool) -> (scroll: bool)
        ensures
            old(self).is_auto_scrolling ==> !scroll && *final(self) == *old(self),
            !old(self).is_auto_scrolling && old(self).is_sticky ==> scroll == !is_at_bottom
                && final(self).is_auto_scrolling == !is_at_bottom && final(self).is_sticky
                && final(self).scroll_button_revealed == old(self).scroll_button_revealed,
            !old(self).is_auto_scrolling && !old(self).is_sticky ==> !scroll && *final(self) == (
            RoomHistory { scroll_button_revealed: !is_at_bottom, ..*old(self) }),
    {
        if self.is_auto_scrolling {
            return false;
        }
        if self.is_sticky {
            self.scroll_down(is_at_bottom)
        } else {
            self.scroll_button_revealed = !is_at_bottom;
            false
        }
    }
}

/// Where a read receipt points.
#[derive(Debug)]
pub enum ReceiptPosition {
    /// The end of the timeline.
    End,
    /// The event with this ID.
    Event(String),
}

/// Where a read receipt points: the end of the timeline when the history
/// is at the bottom, otherwise the last visible event, if one is known.
pub fn receipt_position(is_at_bottom: bool, last_visible_event_id: Option<String>) -> (res: Option<
    ReceiptPosition,
>)
    ensures
        is_at_bottom ==> res matches Some(ReceiptPosition::End),
        !is_at_bottom ==> match last_visible_event_id {
            Some(id) => res matches Some(ReceiptPosition::Event(e)) && e@ == id@,
            None => res is None,
        },
{
    if is_at_bottom {
        return Some(ReceiptPosition::End);
    }
    match last_visible_event_id {
        Some(id) => Some(ReceiptPosition::Event(id)),
        None => None,
    }
}

/// Whether inviting members is enabled: the room is not direct and the own
/// user can invite.
pub fn update_invite_action(is_direct: bool, can_invite: bool) -> (res: bool)
    ensures
        res == (!is_direct && can_invite),
{
    !is_direct && can_invite
}

/// The banner about pending invite requests: revealed, with the count of
/// requests, when there are some and the own user can act on them (invite,
/// kick or ban); hidden otherwise, or when the members are not known.
pub fn update_pending_knocks(
    can_invite: bool,
    can_kick: bool,
    can_ban: bool,
    knock_count: Option<u32>,
) -> (res: Option<u32>)
    ensures
        res == (if !can_invite && !can_kick && !can_ban {
            None
        } else {
            match knock_count {
                Some(n) => if n > 0 {
                    Some(n)
                } else {
                    None
                },
                None => None,
            }
        }),
{
    if !can_invite && !can_kick && !can_ban {
        return None;
    }
    match knock_count {
        Some(n) => if n > 0 {
            Some(n)
        } else {
            None
        },
        None => None,
    }
}

/// Whether the read receipts are updated after scrolling: the timeline has
/// events and the history is active (its window is active and it shows).
pub fn should_update_read_receipts(timeline_is_empty: bool, is_active: bool) -> (res: bool)
    ensures
        res == (!timeline_is_empty && is_active),
{
    !timeline_is_empty && is_active
}

} // verus!
