use vstd::prelude::*;

use crate::event_actions::{Membership, MessageKind};
use crate::text::str_equal;

verus! {

/// What finding the message to edit needs of an item of a timeline.
#[derive(Debug)]
pub struct TimelineItemFacts {
    /// Whether the item is an event.
    pub is_event: bool,
    /// The ID of the sender of the event.
    pub sender_id: String,
    /// Whether the event has an event ID.
    pub has_event_id: bool,
    /// The kind of the message of the event, when it is a message.
    pub message: Option<MessageKind>,
}

/// Whether an item is a message that the own user can edit: a text or an
/// emote of theirs that reached the server.
pub open spec fn is_editable_by(item: TimelineItemFacts, own_user_id: Seq<char>) -> bool {
    item.is_event && item.sender_id@ == own_user_id && item.has_event_id && (item.message matches Some(
        k,
    ) && (k is Text || k is Emote))
}

/// Finds the latest message of the own user that can be edited: its index,
/// the greatest one whose item is editable, or `None` when there is none.
pub fn latest_editable_message(items: &Vec<TimelineItemFacts>, own_user_id: &str) -> (res: Option<usize>)
    ensures
        match res {
            Some(k) => k < items@.len() && is_editable_by(items@[k as int], own_user_id@) && forall|j: int|
                k < j < items@.len() ==> !#[trigger] is_editable_by(items@[j], own_user_id@),
            None => forall|j: int| 0 <= j < items@.len() ==> !#[trigger] is_editable_by(items@[j], own_user_id@),
        },
{
    let mut i: usize = items.len();
    while i > 0
        invariant
            i <= items@.len(),
            forall|j: int| i <= j < items@.len() ==> !#[trigger] is_editable_by(items@[j], own_user_id@),
        decreases i,
    {
        let item = &items[i - 1];
        let editable_kind = match item.message {
            Some(MessageKind::Text) | Some(MessageKind::Emote) => true,
            _ => false,
        };
        if item.is_event && str_equal(item.sender_id.as_str(), own_user_id) && item.has_event_id
            && editable_kind {
            return Some(i - 1);
        }
        i = i - 1;
    }
    None
}

/// Whether the name of a sender can be activated to mention them: they are
/// not the own user, are joined, and the own user can send messages.
pub fn sender_activatable(is_own_user: bool, membership: Membership, can_send_message: bool) -> (res: bool)
    ensures
        res == (!is_own_user && membership is Join && can_send_message),
{
    !is_own_user && membership == Membership::Join && can_send_message
}

/// How much of the header of a message shows.
#[derive(Clone, Copy, Debug, PartialEq, Eq, Structural)]
pub enum EventHeaderState {
    /// The avatar and the name of the sender, and the time.
    Full,
    /// Only the time.
    TimestampOnly,
    /// Nothing.
    Hidden,
}

/// Which parts of the header of a message show: `(avatar and name,
/// header)`.
pub fn update_header(state: EventHeaderState) -> (res: (bool, bool))
    ensures
        res == (state is Full, !(state is Hidden)),
{
    (state == EventHeaderState::Full, state != EventHeaderState::Hidden)
}

/// The state of an identity verification, as the info bar presents it.
#[derive(Clone, Copy, Debug, PartialEq, Eq, Structural)]
pub enum VerificationBar {
    /// No verification under way: the bar hides.
    Hidden,
    /// The user wants to be verified: verify or decline.
    Requested,
    /// A verification is in progress: continue or cancel.
    InProgress,
}

/// The info bar of an identity verification: hidden without a verification
/// or once it finished; otherwise the request, or the verification in
/// progress.
pub fn update_bar(has_verification: bool, is_finished: bool, is_requested: bool) -> (res: VerificationBar)
    ensures
        res == (if !has_verification || is_finished {
            VerificationBar::Hidden
        } else if is_requested {
            VerificationBar::Requested
        } else {
            VerificationBar::InProgress
        }),
{
    if !has_verification || is_finished {
        VerificationBar::Hidden
    } else if is_requested {
        VerificationBar::Requested
    } else {
        VerificationBar::InProgress
    }
}

} // verus!
