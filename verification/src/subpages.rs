use vstd::prelude::*;

use crate::general_page::HistoryVisibilityValue;

verus! {

/// The join rule of a room, as the page presents it.
#[derive(Clone, Copy, Debug, PartialEq, Eq, Structural)]
pub enum JoinRuleValue {
    /// Only invited users, or those whose request was accepted.
    Invite,
    /// Anyone.
    Public,
    /// Members of some other rooms.
    RoomMembership,
    /// A rule the page does not support.
    Unsupported,
}

/// A join rule as the homeserver stores it.
#[derive(Clone, Copy, Debug, PartialEq, Eq, Structural)]
pub enum MatrixJoinRule {
    Invite,
    Knock,
    Public,
    Restricted,
    KnockRestricted,
    Private,
    Other,
}

/// The answer to the question about unsaved changes.
#[derive(Clone, Copy, Debug, PartialEq, Eq, Structural)]
pub enum UnsavedChangesResponse {
    Save,
    Discard,
    Cancel,
}

/// What going back from a page with a save button does.
#[derive(Clone, Copy, Debug, PartialEq, Eq, Structural)]
pub enum GoBack {
    /// Save the changes, then go back.
    SaveThenPop,
    /// Go back, then reset the page.
    PopThenReset,
    /// Go back.
    Pop,
    /// Stay.
    Stay,
}

/// What going back does: without changes the page just goes back; with
/// changes the user was asked, and their answer decides.
pub fn go_back(changed: bool, response: UnsavedChangesResponse) -> (res: GoBack)
    ensures
        res == (if !changed {
            GoBack::Pop
        } else {
            match response {
                UnsavedChangesResponse::Save => GoBack::SaveThenPop,
                UnsavedChangesResponse::Discard => GoBack::PopThenReset,
                UnsavedChangesResponse::Cancel => GoBack::Stay,
            }
        }),
{
    if !changed {
        return GoBack::Pop;
    }
    match response {
        UnsavedChangesResponse::Save => GoBack::SaveThenPop,
        UnsavedChangesResponse::Discard => GoBack::PopThenReset,
        UnsavedChangesResponse::Cancel => GoBack::Stay,
    }
}

/// The subpage to choose who can join a room.
#[derive(Clone, Copy, Debug, PartialEq, Eq, Structural)]
pub struct JoinRuleSubpage {
    pub local_value: JoinRuleValue,
    /// Whether the room version supports knocking: the switch to allow
    /// invite requests shows, otherwise an explanation does.
    pub knock_visible: bool,
    pub knock_sensitive: bool,
    pub knock_active: bool,
    pub changed: bool,
    pub save_loading: bool,
}

/// Whether the local value is one that the page can save.
pub open spec fn is_savable(v: JoinRuleValue) -> bool {
    v is Invite || v is Public
}

/// Whether the switch to allow invite requests is usable for a value.
pub open spec fn knock_usable(v: JoinRuleValue) -> bool {
    v is Invite || v is RoomMembership
}

impl JoinRuleSubpage {
    /// Whether users can request an invite: the switch shows, is usable and
    /// is on.
    pub open spec fn spec_can_knock(&self) -> bool {
        self.knock_visible && self.knock_sensitive && self.knock_active
    }

    /// The join rule that saving would set: invite-only, with requests when
    /// they are allowed, or public.
    pub open spec fn spec_new_join_rule(&self) -> MatrixJoinRule {
        if self.local_value is Invite {
            if self.spec_can_knock() {
                MatrixJoinRule::Knock
            } else {
                MatrixJoinRule::Invite
            }
        } else {
            MatrixJoinRule::Public
        }
    }

    /// The subpage for a room whose version does or does not support
    /// knocking.
    pub fn new(supports_knocking: bool) -> (res: Self)
        ensures
            res.knock_visible == supports_knocking,
            res.local_value == JoinRuleValue::Unsupported,
            !res.changed && !res.save_loading,
    {
        JoinRuleSubpage {
            local_value: JoinRuleValue::Unsupported,
            knock_visible: supports_knocking,
            knock_sensitive: false,
            knock_active: false,
            changed: false,
            save_loading: false,
        }
    }

    /// Whether users can request an invite.
    pub fn can_knock(&self) -> (res: bool)
        ensures
            res == self.spec_can_knock(),
    {
        self.knock_visible && self.knock_sensitive && self.knock_active
    }

    /// The join rule that saving would set.
    pub fn new_join_rule(&self) -> (res: MatrixJoinRule)
        requires
            is_savable(self.local_value),
        ensures
            res == self.spec_new_join_rule(),
    {
        match self.local_value {
            JoinRuleValue::Invite => if self.can_knock() {
                MatrixJoinRule::Knock
            } else {
                MatrixJoinRule::Invite
            },
            _ => MatrixJoinRule::Public,
        }
    }

    /// Updates whether the page holds a change: the rule can be changed and
    /// the rule that saving would set differs from the current one (a room
    /// without a rule counts as invite-only).
    pub fn update_changed(&mut self, can_change: bool, current: Option<MatrixJoinRule>)
        requires
            can_change ==> is_savable(old(self).local_value),
        ensures
            final(self).changed == (can_change && (match current {
                Some(r) => r,
                None => MatrixJoinRule::Invite,
            }) != old(self).spec_new_join_rule()),
            final(self).local_value == old(self).local_value,
            final(self).knock_active == old(self).knock_active,
            final(self).knock_sensitive == old(self).knock_sensitive,
            final(self).knock_visible == old(self).knock_visible,
            final(self).save_loading == old(self).save_loading,
    {
        self.changed = if can_change {
            let current_rule = match current {
                Some(r) => r,
                None => MatrixJoinRule::Invite,
            };
            current_rule != self.new_join_rule()
        } else {
            false
        };
    }

    /// Sets the value chosen on the page: the switch for requests is usable
    /// with invite-only and room-membership rules; then whether the page
    /// holds a change is updated.
    pub fn set_local_value(&mut self, value: JoinRuleValue, can_change: bool, current: Option<MatrixJoinRule>)
        requires
            can_change ==> is_savable(value),
        ensures
            final(self).local_value == value,
            final(self).knock_sensitive == (if value == old(self).local_value {
                old(self).knock_sensitive
            } else {
                knock_usable(value)
            }),
            final(self).knock_active == old(self).knock_active,
            value != old(self).local_value ==> final(self).changed == (can_change && (match current {
                Some(r) => r,
                None => MatrixJoinRule::Invite,
            }) != final(self).spec_new_join_rule()),
            value == old(self).local_value ==> final(self).changed == old(self).changed,
    {
        if self.local_value == value {
            return;
        }
        self.local_value = value;
        self.knock_sensitive = value == JoinRuleValue::Invite || value == JoinRuleValue::RoomMembership;
        self.update_changed(can_change, current);
    }

    /// Brings the page in line with the room: its rule, whether it allows
    /// requests, whether the own user can change it, and its stored rule.
    pub fn update(
        &mut self,
        value: JoinRuleValue,
        room_can_knock: bool,
        can_change: bool,
        current: Option<MatrixJoinRule>,
    )
        requires
            can_change ==> is_savable(value),
        ensures
            final(self).local_value == value,
            final(self).knock_active == room_can_knock,
            !final(self).save_loading,
            final(self).changed == (can_change && (match current {
                Some(r) => r,
                None => MatrixJoinRule::Invite,
            }) != final(self).spec_new_join_rule()),
    {
        self.set_local_value(value, can_change, current);
        self.knock_active = room_can_knock;
        self.save_loading = false;
        self.update_changed(can_change, current);
    }

    /// Saves the change, if there is one: the button loads and the rule to
    /// set is returned.
    pub fn save(&mut self) -> (res: Option<MatrixJoinRule>)
        requires
            old(self).changed ==> is_savable(old(self).local_value),
        ensures
            res == (if old(self).changed {
                Some(old(self).spec_new_join_rule())
            } else {
                None
            }),
            final(self).save_loading == (old(self).changed || old(self).save_loading),
            final(self).changed == old(self).changed,
            final(self).local_value == old(self).local_value,
    {
        if !self.changed {
            return None;
        }
        self.save_loading = true;
        Some(self.new_join_rule())
    }
}

/// The subpage to choose who can read the history of a room.
#[derive(Clone, Copy, Debug, PartialEq, Eq, Structural)]
pub struct HistoryVisibilitySubpage {
    pub local_value: HistoryVisibilityValue,
    pub changed: bool,
    pub save_loading: bool,
}

/// Whether the history visibility can be changed: the current one is
/// supported and the own user may change it.
pub open spec fn spec_history_can_change(current: HistoryVisibilityValue, permitted: bool) -> bool {
    !(current is Unsupported) && permitted
}

impl HistoryVisibilitySubpage {
    /// The subpage before a room is set.
    pub fn new() -> (res: Self)
        ensures
            res.local_value == HistoryVisibilityValue::Unsupported,
            !res.changed && !res.save_loading,
    {
        HistoryVisibilitySubpage {
            local_value: HistoryVisibilityValue::Unsupported,
            changed: false,
            save_loading: false,
        }
    }

    /// Updates whether the page holds a change: the visibility can be changed
    /// and the chosen one differs from the current one.
    pub fn update_changed(&mut self, current: HistoryVisibilityValue, permitted: bool)
        ensures
            final(self).changed == (spec_history_can_change(current, permitted) && current
                != old(self).local_value),
            final(self).local_value == old(self).local_value,
            final(self).save_loading == old(self).save_loading,
    {
        let can_change = current != HistoryVisibilityValue::Unsupported && permitted;
        self.changed = can_change && current != self.local_value;
    }

    /// Sets the visibility chosen on the page.
    pub fn set_local_value(&mut self, value: HistoryVisibilityValue, current: HistoryVisibilityValue, permitted: bool)
        ensures
            final(self).local_value == value,
            value != old(self).local_value ==> final(self).changed == (spec_history_can_change(
                current,
                permitted,
            ) && current != value),
            value == old(self).local_value ==> final(self).changed == old(self).changed,
            final(self).save_loading == old(self).save_loading,
    {
        if self.local_value == value {
            return;
        }
        self.local_value = value;
        self.update_changed(current, permitted);
    }

    /// Brings the page in line with the room: the chosen visibility becomes
    /// the current one, so the page holds no change.
    pub fn update(&mut self, current: HistoryVisibilityValue, permitted: bool)
        ensures
            final(self).local_value == current,
            !final(self).changed,
            !final(self).save_loading,
    {
        self.set_local_value(current, current, permitted);
        self.save_loading = false;
        self.update_changed(current, permitted);
    }

    /// Saves the change, if there is one: the button loads and the
    /// visibility to set is returned.
    pub fn save(&mut self) -> (res: Option<HistoryVisibilityValue>)
        ensures
            res == (if old(self).changed {
                Some(old(self).local_value)
            } else {
                None
            }),
            final(self).save_loading == (old(self).changed || old(self).save_loading),
            final(self).local_value == old(self).local_value,
            final(self).changed == old(self).changed,
    {
        if !self.changed {
            return None;
        }
        self.save_loading = true;
        Some(self.local_value)
    }
}

} // verus!
