use vstd::prelude::*;

use vstd::string::StrSliceExecFns;

use crate::text::{spec_trim, trim};

verus! {

/// The view of an optional string.
pub open spec fn opt_view(s: Option<String>) -> Option<Seq<char>> {
    match s {
        Some(s) => Some(s@),
        None => None,
    }
}

/// The view of an optional string slice.
pub open spec fn opt_str(s: Option<&str>) -> Option<Seq<char>> {
    match s {
        Some(s) => Some(s@),
        None => None,
    }
}

/// A text, or `None` when it is empty.
pub open spec fn non_empty(t: Seq<char>) -> Option<Seq<char>> {
    if t.len() > 0 {
        Some(t)
    } else {
        None
    }
}

/// The value to send for a text: the text without leading and trailing
/// whitespace, or `None` (a removal) when nothing is left.
pub open spec fn spec_value_to_send(text: Seq<char>) -> Option<Seq<char>> {
    non_empty(spec_trim(text))
}

/// Whether the text of an entry is an edit of the current value: it differs
/// from the value, and still does without its leading and trailing
/// whitespace. An empty text stands for no value.
pub open spec fn spec_was_edited(current: Option<Seq<char>>, text: Seq<char>) -> bool {
    let t = non_empty(text);
    let trimmed = match t {
        Some(x) => non_empty(spec_trim(x)),
        None => None,
    };
    current != t && current != trimmed
}

fn opt_equal(a: Option<&str>, b: Option<&str>) -> (res: bool)
    ensures
        res == (opt_str(a) == opt_str(b)),
{
    match (a, b) {
        (Some(x), Some(y)) => crate::text::str_equal(x, y),
        (None, None) => true,
        _ => false,
    }
}

/// Whether the text of an entry is an edit of the current value.
pub fn was_edited(current: Option<&str>, text: &str) -> (res: bool)
    ensures
        res == spec_was_edited(opt_str(current), text@),
{
    let t: Option<&str> = if text.unicode_len() > 0 {
        Some(text)
    } else {
        None
    };
    let trimmed = match t {
        Some(x) => {
            let y = trim(x);
            if y.as_str().unicode_len() > 0 {
                Some(y)
            } else {
                None
            }
        },
        None => None,
    };
    let trimmed_str: Option<&str> = match &trimmed {
        Some(y) => Some(y.as_str()),
        None => None,
    };
    !opt_equal(current, t) && !opt_equal(current, trimmed_str)
}

/// The value to send for the text of an entry: trimmed, `None` when empty.
pub fn value_to_send(text: &str) -> (res: Option<String>)
    ensures
        opt_view(res) == spec_value_to_send(text@),
{
    let t = trim(text);
    if t.as_str().unicode_len() > 0 {
        Some(t)
    } else {
        None
    }
}

/// What the avatar editor shows.
#[derive(Clone, Copy, Debug, PartialEq, Eq, Structural)]
pub enum AvatarEditState {
    Default,
    EditInProgress,
    RemovalInProgress,
    Success,
}

/// The state of the button of the name entry.
#[derive(Clone, Copy, Debug, PartialEq, Eq, Structural)]
pub enum ActionState {
    Confirm,
    Loading,
    Retry,
}

/// What the user was told when the avatar change went through.
#[derive(Clone, Copy, Debug, PartialEq, Eq, Structural)]
pub enum AvatarToast {
    Removed,
    Changed,
}

/// A change of the avatar, name or topic under way: the ID that tells it
/// from the other changes, and the value that was sent (`None` for a
/// removal).
#[derive(Debug)]
pub struct OngoingChange {
    pub id: u64,
    pub value: Option<String>,
}

/// The subpage to edit the avatar, name and topic of a room: the changes
/// under way, the ID of the next change, and the state of the widgets.
#[derive(Debug)]
pub struct EditDetailsSubpage {
    pub changing_avatar: Option<OngoingChange>,
    pub changing_name: Option<OngoingChange>,
    pub changing_topic: Option<OngoingChange>,
    pub next_change_id: u64,
    pub avatar: AvatarEditState,
    pub name_sensitive: bool,
    pub name_button_visible: bool,
    pub name_button: ActionState,
    pub topic_sensitive: bool,
    pub save_topic_loading: bool,
    pub save_topic_sensitive: bool,
}

/// Whether the value that came from the homeserver is the one that the
/// change under way sent.
pub open spec fn completes(changing: Option<OngoingChange>, received: Option<Seq<char>>) -> bool {
    match changing {
        Some(c) => opt_view(c.value) == received,
        None => false,
    }
}

/// Whether the change under way is the one with the given ID.
pub open spec fn is_current(changing: Option<OngoingChange>, id: u64) -> bool {
    changing matches Some(c) && c.id == id
}

/// The ID that follows `id` (after the last one, IDs start again at 0).
pub open spec fn spec_next_id(id: u64) -> u64 {
    if id == u64::MAX {
        0
    } else {
        (id + 1) as u64
    }
}

fn clone_opt(s: &Option<String>) -> (res: Option<String>)
    ensures
        opt_view(res) == opt_view(*s),
{
    match s {
        Some(s) => Some(s.clone()),
        None => None,
    }
}

fn opt_string_equal(a: &Option<String>, b: Option<&str>) -> (res: bool)
    ensures
        res == (opt_view(*a) == opt_str(b)),
{
    match a {
        Some(x) => opt_equal(Some(x.as_str()), b),
        None => opt_equal(None, b),
    }
}

impl EditDetailsSubpage {
    /// The subpage for a room, where the own user may or may not change the
    /// name and the topic.
    pub fn new(can_change_name: bool, can_change_topic: bool) -> (res: Self)
        ensures
            res.changing_avatar is None && res.changing_name is None && res.changing_topic is None,
            res.next_change_id == 0,
            res.avatar == AvatarEditState::Default,
            res.name_sensitive == can_change_name,
            !res.name_button_visible,
            res.name_button == ActionState::Confirm,
            res.topic_sensitive == can_change_topic,
            !res.save_topic_loading && !res.save_topic_sensitive,
    {
        EditDetailsSubpage {
            changing_avatar: None,
            changing_name: None,
            changing_topic: None,
            next_change_id: 0,
            avatar: AvatarEditState::Default,
            name_sensitive: can_change_name,
            name_button_visible: false,
            name_button: ActionState::Confirm,
            topic_sensitive: can_change_topic,
            save_topic_loading: false,
            save_topic_sensitive: false,
        }
    }

    /// Takes the ID of a new change.
    fn take_change_id(&mut self) -> (id: u64)
        ensures
            id == old(self).next_change_id,
            final(self).next_change_id == spec_next_id(id),
            final(self).changing_avatar == old(self).changing_avatar,
            final(self).changing_name == old(self).changing_name,
            final(self).changing_topic == old(self).changing_topic,
            final(self).avatar == old(self).avatar,
            final(self).name_sensitive == old(self).name_sensitive,
            final(self).name_button == old(self).name_button,
            final(self).topic_sensitive == old(self).topic_sensitive,
            final(self).save_topic_loading == old(self).save_topic_loading,
    {
        let id = self.next_change_id;
        self.next_change_id = if id == u64::MAX {
            0
        } else {
            id + 1
        };
        id
    }

    /// Resets the name entry and its button.
    pub fn reset_name(&mut self, can_change_name: bool)
        ensures
            final(self).name_sensitive == can_change_name,
            !final(self).name_button_visible,
            final(self).name_button == ActionState::Confirm,
            final(self).changing_name == old(self).changing_name,
            final(self).changing_topic == old(self).changing_topic,
            final(self).changing_avatar == old(self).changing_avatar,
    {
        self.name_sensitive = can_change_name;
        self.name_button_visible = false;
        self.name_button = ActionState::Confirm;
    }

    /// Resets the topic view and its button.
    pub fn reset_topic(&mut self, can_change_topic: bool)
        ensures
            final(self).topic_sensitive == can_change_topic,
            !final(self).save_topic_loading,
            !final(self).save_topic_sensitive,
            final(self).changing_name == old(self).changing_name,
            final(self).changing_topic == old(self).changing_topic,
            final(self).changing_avatar == old(self).changing_avatar,
    {
        self.topic_sensitive = can_change_topic;
        self.save_topic_loading = false;
        self.save_topic_sensitive = false;
    }

    /// The avatar of the room changed on the homeserver. When it is the
    /// change under way, that change is done: the editor shows success and the
    /// user is told whether the avatar was changed or removed.
    pub fn avatar_changed(&mut self, uri: Option<&str>) -> (res: Option<AvatarToast>)
        ensures
            completes(old(self).changing_avatar, opt_str(uri)) ==> final(self).changing_avatar is None
                && final(self).avatar == AvatarEditState::Success && res == Some(if uri is None {
                AvatarToast::Removed
            } else {
                AvatarToast::Changed
            }),
            !completes(old(self).changing_avatar, opt_str(uri)) ==> res is None
                && final(self).changing_avatar == old(self).changing_avatar
                && final(self).avatar == old(self).avatar,
    {
        let done = match &self.changing_avatar {
            Some(c) => opt_string_equal(&c.value, uri),
            None => false,
        };
        if !done {
            return None;
        }
        self.changing_avatar = None;
        self.avatar = AvatarEditState::Success;
        match uri {
            None => Some(AvatarToast::Removed),
            Some(_) => Some(AvatarToast::Changed),
        }
    }

    /// Starts editing the avatar, in a joined room; returns whether the file
    /// is to be loaded and uploaded.
    pub fn start_avatar_edit(&mut self, is_joined: bool) -> (res: bool)
        ensures
            res == is_joined,
            res ==> final(self).avatar == AvatarEditState::EditInProgress,
            !res ==> final(self).avatar == old(self).avatar,
            final(self).changing_avatar == old(self).changing_avatar,
    {
        if !is_joined {
            return false;
        }
        self.avatar = AvatarEditState::EditInProgress;
        true
    }

    /// Loading or uploading the new avatar failed: the editor is reset.
    pub fn avatar_upload_failed(&mut self)
        ensures
            final(self).avatar == AvatarEditState::Default,
            final(self).changing_avatar == old(self).changing_avatar,
    {
        self.avatar = AvatarEditState::Default;
    }

    /// The new avatar was uploaded at `uri`: it becomes the change under way,
    /// whose ID is returned.
    pub fn avatar_uploaded(&mut self, uri: String) -> (id: u64)
        ensures
            id == old(self).next_change_id,
            final(self).next_change_id == spec_next_id(id),
            final(self).changing_avatar matches Some(c) && c.id == id && opt_view(c.value) == Some(uri@),
            final(self).avatar == old(self).avatar,
    {
        let id = self.take_change_id();
        self.changing_avatar = Some(OngoingChange { id, value: Some(uri) });
        id
    }

    /// The user confirmed the removal of the avatar, in a joined room: the
    /// removal becomes the change under way; returns its ID, when it is to
    /// be sent.
    pub fn remove_avatar(&mut self, is_joined: bool) -> (res: Option<u64>)
        ensures
            res is Some <==> is_joined,
            match res {
                Some(id) => id == old(self).next_change_id && final(self).next_change_id == spec_next_id(id)
                    && final(self).avatar == AvatarEditState::RemovalInProgress
                    && final(self).changing_avatar == Some(OngoingChange { id, value: None }),
                None => final(self).avatar == old(self).avatar && final(self).changing_avatar == old(
                    self,
                ).changing_avatar && final(self).next_change_id == old(self).next_change_id,
            },
    {
        if !is_joined {
            return None;
        }
        let id = self.take_change_id();
        self.avatar = AvatarEditState::RemovalInProgress;
        self.changing_avatar = Some(OngoingChange { id, value: None });
        Some(id)
    }

    /// The request of the change of the avatar with ID `id` failed: if that
    /// change is still the one under way, it ends and the editor is reset;
    /// otherwise (it was done, or a newer change replaced it) nothing
    /// changes. Returns whether the user must be told.
    pub fn avatar_request_failed(&mut self, id: u64) -> (res: bool)
        ensures
            res == is_current(old(self).changing_avatar, id),
            res ==> final(self).changing_avatar is None && final(self).avatar == AvatarEditState::Default,
            !res ==> final(self).changing_avatar == old(self).changing_avatar
                && final(self).avatar == old(self).avatar,
            final(self).next_change_id == old(self).next_change_id,
    {
        let current = match &self.changing_avatar {
            Some(c) => c.id == id,
            None => false,
        };
        if !current {
            return false;
        }
        self.changing_avatar = None;
        self.avatar = AvatarEditState::Default;
        true
    }

    /// The name of the room changed on the homeserver. When it is the change
    /// under way, that change is done and the entry is reset; returns whether
    /// the user must be told that the name was saved.
    pub fn name_changed(&mut self, name: Option<&str>, can_change_name: bool) -> (res: bool)
        ensures
            res == completes(old(self).changing_name, opt_str(name)),
            res ==> final(self).changing_name is None && final(self).name_sensitive == can_change_name
                && !final(self).name_button_visible && final(self).name_button == ActionState::Confirm,
            !res ==> final(self).changing_name == old(self).changing_name
                && final(self).name_sensitive == old(self).name_sensitive
                && final(self).name_button == old(self).name_button,
    {
        let done = match &self.changing_name {
            Some(c) => opt_string_equal(&c.value, name),
            None => false,
        };
        if !done {
            return false;
        }
        self.changing_name = None;
        self.reset_name(can_change_name);
        true
    }

    /// The name entry was edited: its button shows when the text is an edit
    /// of the name.
    pub fn name_edited(&mut self, current: Option<&str>, text: &str)
        ensures
            final(self).name_button_visible == spec_was_edited(opt_str(current), text@),
            final(self).changing_name == old(self).changing_name,
    {
        self.name_button_visible = was_edited(current, text);
    }

    /// Saves the name typed in the entry, when it is an edit of the name and
    /// the room is joined: the entry becomes insensitive, its button loading,
    /// and the trimmed text (or a removal) the change under way, whose ID and
    /// value are returned, the value to be sent.
    pub fn change_name(&mut self, current: Option<&str>, text: &str, is_joined: bool) -> (res: Option<
        (u64, Option<String>),
    >)
        ensures
            res is Some <==> (spec_was_edited(opt_str(current), text@) && is_joined),
            match res {
                Some((id, v)) => opt_view(v) == spec_value_to_send(text@) && !final(self).name_sensitive
                    && final(self).name_button == ActionState::Loading && id == old(self).next_change_id
                    && final(self).next_change_id == spec_next_id(id) && (final(self).changing_name matches Some(
                    c,
                ) && c.id == id && opt_view(c.value) == opt_view(v)),
                None => final(self).changing_name == old(self).changing_name
                    && final(self).name_sensitive == old(self).name_sensitive
                    && final(self).name_button == old(self).name_button
                    && final(self).next_change_id == old(self).next_change_id,
            },
    {
        if !was_edited(current, text) || !is_joined {
            return None;
        }
        self.name_sensitive = false;
        self.name_button = ActionState::Loading;
        let value = value_to_send(text);
        let id = self.take_change_id();
        self.changing_name = Some(OngoingChange { id, value: clone_opt(&value) });
        Some((id, value))
    }

    /// The request of the change of the name with ID `id` failed: if that
    /// change is still the one under way, it ends, the entry becomes
    /// sensitive again and its button offers to retry; otherwise nothing
    /// changes. Returns whether the user must be told.
    pub fn name_change_failed(&mut self, id: u64) -> (res: bool)
        ensures
            res == is_current(old(self).changing_name, id),
            res ==> final(self).changing_name is None && final(self).name_sensitive && final(self).name_button
                == ActionState::Retry,
            !res ==> final(self).changing_name == old(self).changing_name
                && final(self).name_sensitive == old(self).name_sensitive
                && final(self).name_button == old(self).name_button,
            final(self).next_change_id == old(self).next_change_id,
    {
        let current = match &self.changing_name {
            Some(c) => c.id == id,
            None => false,
        };
        if !current {
            return false;
        }
        self.changing_name = None;
        self.name_sensitive = true;
        self.name_button = ActionState::Retry;
        true
    }

    /// The topic of the room changed on the homeserver (a missing topic
    /// counts as an empty one). When it is the change under way, that change
    /// is done and the view is reset; returns whether the user must be told
    /// that the topic was saved.
    pub fn topic_changed(&mut self, topic: Option<&str>, can_change_topic: bool) -> (res: bool)
        ensures
            res == completes(
                old(self).changing_topic,
                Some(
                    match topic {
                        Some(t) => t@,
                        None => Seq::<char>::empty(),
                    },
                ),
            ),
            res ==> final(self).changing_topic is None && final(self).topic_sensitive == can_change_topic
                && !final(self).save_topic_loading && !final(self).save_topic_sensitive,
            !res ==> final(self).changing_topic == old(self).changing_topic
                && final(self).topic_sensitive == old(self).topic_sensitive
                && final(self).save_topic_loading == old(self).save_topic_loading,
    {
        let topic = match topic {
            Some(t) => t,
            None => "",
        };
        proof {
            reveal_strlit("");
            assert(""@ =~= Seq::<char>::empty());
        }
        let done = match &self.changing_topic {
            Some(c) => opt_string_equal(&c.value, Some(topic)),
            None => false,
        };
        if !done {
            return false;
        }
        self.changing_topic = None;
        self.reset_topic(can_change_topic);
        true
    }

    /// The topic view was edited: its save button is sensitive when the text
    /// is an edit of the topic.
    pub fn topic_edited(&mut self, current: Option<&str>, text: &str)
        ensures
            final(self).save_topic_sensitive == spec_was_edited(opt_str(current), text@),
            final(self).changing_topic == old(self).changing_topic,
    {
        self.save_topic_sensitive = was_edited(current, text);
    }

    /// Saves the topic typed in the view, when it is an edit of the topic and
    /// the room is joined: the view becomes insensitive, its button loading,
    /// and the trimmed text (or a removal) the change under way, whose ID and
    /// value are returned, the value to be sent.
    pub fn change_topic(&mut self, current: Option<&str>, text: &str, is_joined: bool) -> (res: Option<
        (u64, Option<String>),
    >)
        ensures
            res is Some <==> (spec_was_edited(opt_str(current), text@) && is_joined),
            match res {
                Some((id, v)) => opt_view(v) == spec_value_to_send(text@) && !final(self).topic_sensitive
                    && final(self).save_topic_loading && id == old(self).next_change_id
                    && final(self).next_change_id == spec_next_id(id) && (final(self).changing_topic matches Some(
                    c,
                ) && c.id == id && opt_view(c.value) == opt_view(v)),
                None => final(self).changing_topic == old(self).changing_topic
                    && final(self).topic_sensitive == old(self).topic_sensitive
                    && final(self).save_topic_loading == old(self).save_topic_loading
                    && final(self).next_change_id == old(self).next_change_id,
            },
    {
        if !was_edited(current, text) || !is_joined {
            return None;
        }
        self.topic_sensitive = false;
        self.save_topic_loading = true;
        let value = value_to_send(text);
        let id = self.take_change_id();
        self.changing_topic = Some(OngoingChange { id, value: clone_opt(&value) });
        Some((id, value))
    }

    /// The request of the change of the topic with ID `id` failed: if that
    /// change is still the one under way, it ends and the view becomes
    /// sensitive again; otherwise nothing changes. Returns whether the user
    /// must be told.
    pub fn topic_change_failed(&mut self, id: u64) -> (res: bool)
        ensures
            res == is_current(old(self).changing_topic, id),
            res ==> final(self).changing_topic is None && final(self).topic_sensitive
                && !final(self).save_topic_loading,
            !res ==> final(self).changing_topic == old(self).changing_topic
                && final(self).topic_sensitive == old(self).topic_sensitive
                && final(self).save_topic_loading == old(self).save_topic_loading,
            final(self).next_change_id == old(self).next_change_id,
    {
        let current = match &self.changing_topic {
            Some(c) => c.id == id,
            None => false,
        };
        if !current {
            return false;
        }
        self.changing_topic = None;
        self.topic_sensitive = true;
        self.save_topic_loading = false;
        true
    }

    /// Which unsaved edits going back must ask about: the name and the topic
    /// when they were edited and no change of them is under way.
    pub fn unsaved_edits(&self, name: Option<&str>, name_text: &str, topic: Option<&str>, topic_text: &str) -> (res: (
        bool,
        bool,
    ))
        ensures
            res.0 == (spec_was_edited(opt_str(name), name_text@) && self.changing_name is None),
            res.1 == (spec_was_edited(opt_str(topic), topic_text@) && self.changing_topic is None),
    {
        (
            was_edited(name, name_text) && self.changing_name.is_none(),
            was_edited(topic, topic_text) && self.changing_topic.is_none(),
        )
    }
}

/// A change started right after another gets another ID, so a failure of
/// the earlier change never ends the later one.
pub proof fn law_next_change_has_another_id(id: u64)
    ensures
        spec_next_id(id) != id,
{
}

/// A text that is its own trimmed value is no edit of that value.
pub proof fn law_saved_value_is_not_an_edit(text: Seq<char>)
    requires
        spec_trim(text) == text,
        text.len() > 0,
    ensures
        !spec_was_edited(spec_value_to_send(text), text),
{
}

} // verus!
