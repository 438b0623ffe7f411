use vstd::prelude::*;

use crate::event_actions::{action_available, event_actions_group, no_duplicates, EventAction, EventFacts};
use crate::text::str_equal;

verus! {

/// The widget that presents an event in the room history.
#[derive(Clone, Copy, Debug, PartialEq, Eq, Structural)]
pub enum EventWidget {
    Call,
    State,
    Message,
}

/// The widget for an event: a call event gets a call row, a state event a
/// state row, any other event a message row.
pub fn build_event_widget(is_call_event: bool, is_state_event: bool) -> (res: EventWidget)
    ensures
        res == (if is_call_event {
            EventWidget::Call
        } else if is_state_event {
            EventWidget::State
        } else {
            EventWidget::Message
        }),
{
    if is_call_event {
        EventWidget::Call
    } else if is_state_event {
        EventWidget::State
    } else {
        EventWidget::Message
    }
}

/// The actions of a row and what depends on them.
#[derive(Debug)]
pub struct RowActions {
    /// The actions of the event of the row, if there is an event.
    pub actions: Option<Vec<EventAction>>,
    /// Whether copying the image is enabled, when the row offers it.
    pub copy_image_enabled: Option<bool>,
    /// Whether the row has the shortcut to show the properties of the event.
    pub properties_shortcut: bool,
    /// Whether the row has a context menu.
    pub has_context_menu: bool,
}

fn contains_action(actions: &Vec<EventAction>, a: EventAction) -> (res: bool)
    ensures
        res == actions@.contains(a),
{
    let n = actions.len();
    let mut i: usize = 0;
    while i < n
        invariant
            n == actions@.len(),
            0 <= i <= n,
            forall|k: int| 0 <= k < i ==> actions@[k] != a,
        decreases n - i,
    {
        if actions[i] == a {
            return true;
        }
        i = i + 1;
    }
    false
}

/// Updates the actions of a row for its event, if any: the actions of the
/// event; copying the image is enabled when there is an image to copy; the
/// shortcut to the properties is there when the properties are; and the row
/// has a context menu when it has an event.
pub fn update_actions(event: Option<&EventFacts>, has_texture: bool) -> (res: RowActions)
    ensures
        res.has_context_menu == event is Some,
        match event {
            Some(f) => res.actions matches Some(v) && no_duplicates(v@) && (forall|x: EventAction|
                #[trigger] v@.contains(x) <==> action_available(*f, x)) && res.copy_image_enabled == (
            if action_available(*f, EventAction::CopyImage) {
                Some(has_texture)
            } else {
                None
            }) && res.properties_shortcut == action_available(*f, EventAction::Properties),
            None => res.actions is None && res.copy_image_enabled is None && !res.properties_shortcut,
        },
{
    match event {
        Some(f) => {
            let actions = event_actions_group(f);
            let copy_image_enabled = if contains_action(&actions, EventAction::CopyImage) {
                Some(has_texture)
            } else {
                None
            };
            let properties_shortcut = contains_action(&actions, EventAction::Properties);
            RowActions {
                actions: Some(actions),
                copy_image_enabled,
                properties_shortcut,
                has_context_menu: true,
            }
        },
        None => RowActions {
            actions: None,
            copy_image_enabled: None,
            properties_shortcut: false,
            has_context_menu: false,
        },
    }
}

/// What opening the context menu of a row shows.
#[derive(Clone, Copy, Debug, PartialEq, Eq, Structural)]
pub enum MenuDecision {
    /// No menu: the row has no event, or no actions.
    NoPopover,
    /// The menu, with the quick reactions or not.
    Menu { quick_reactions: bool },
}

/// What opening the context menu of a row shows: nothing without an event or
/// actions; otherwise the menu, with the quick reactions when the event can
/// be reacted to.
pub fn menu_opened(has_event: bool, has_actions: bool, can_be_reacted_to: bool) -> (res: MenuDecision)
    ensures
        res == (if !has_event || !has_actions {
            MenuDecision::NoPopover
        } else {
            MenuDecision::Menu { quick_reactions: can_be_reacted_to }
        }),
{
    if !has_event || !has_actions {
        return MenuDecision::NoPopover;
    }
    MenuDecision::Menu { quick_reactions: can_be_reacted_to }
}

/// Whether a row shows as selected: the composer relates to (replies to or
/// edits) its event.
pub fn update_for_related_event(related_event_id: Option<&str>, event_id: Option<&str>) -> (res: bool)
    ensures
        res == (match (related_event_id, event_id) {
            (Some(r), Some(e)) => r@ == e@,
            _ => false,
        }),
{
    match (related_event_id, event_id) {
        (Some(r), Some(e)) => str_equal(r, e),
        _ => false,
    }
}

} // verus!
