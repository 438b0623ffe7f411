use vstd::prelude::*;

use crate::message_state::MessageState;
use crate::text::push_str;

verus! {

/// The kind of content of a room message.
#[derive(Clone, Copy, Debug, PartialEq, Eq, Structural)]
pub enum MessageKind {
    Text,
    Emote,
    Notice,
    File,
    Image,
    Video,
    Audio,
    Location,
    ServerNotice,
    Other,
}

/// How the membership of the target of a member event changed.
#[derive(Clone, Copy, Debug, PartialEq, Eq, Structural)]
pub enum MembershipChangeKind {
    /// The target user was invited.
    Invited,
    /// Any other change.
    Other,
}

/// The membership of a room member.
#[derive(Clone, Copy, Debug, PartialEq, Eq, Structural)]
pub enum Membership {
    Join,
    Invite,
    Leave,
    Ban,
    Knock,
    Unsupported,
}

/// An action that the context menu of an event can offer.
#[derive(Clone, Copy, Debug, PartialEq, Eq, Structural)]
pub enum EventAction {
    Permalink,
    Properties,
    Report,
    CancelSend,
    Remove,
    ToggleReaction,
    ShowReactionsChooser,
    Reply,
    EndPoll,
    CopyText,
    Edit,
    FileSave,
    CopyImage,
    SaveImage,
    SaveVideo,
    SaveAudio,
    RevokeInvite,
}

impl EventAction {
    /// The name of the action in the action group of the event.
    pub fn name(&self) -> (res: &'static str)
        ensures
            res@ == self.spec_name(),
    {
        match self {
            EventAction::Permalink => "permalink",
            EventAction::Properties => "properties",
            EventAction::Report => "report",
            EventAction::CancelSend => "cancel-send",
            EventAction::Remove => "remove",
            EventAction::ToggleReaction => "toggle-reaction",
            EventAction::ShowReactionsChooser => "show-reactions-chooser",
            EventAction::Reply => "reply",
            EventAction::EndPoll => "end-poll",
            EventAction::CopyText => "copy-text",
            EventAction::Edit => "edit",
            EventAction::FileSave => "file-save",
            EventAction::CopyImage => "copy-image",
            EventAction::SaveImage => "save-image",
            EventAction::SaveVideo => "save-video",
            EventAction::SaveAudio => "save-audio",
            EventAction::RevokeInvite => "revoke-invite",
        }
    }

    /// The name of the action in the action group of the event.
    pub open spec fn spec_name(&self) -> Seq<char> {
        match self {
            EventAction::Permalink => "permalink"@,
            EventAction::Properties => "properties"@,
            EventAction::Report => "report"@,
            EventAction::CancelSend => "cancel-send"@,
            EventAction::Remove => "remove"@,
            EventAction::ToggleReaction => "toggle-reaction"@,
            EventAction::ShowReactionsChooser => "show-reactions-chooser"@,
            EventAction::Reply => "reply"@,
            EventAction::EndPoll => "end-poll"@,
            EventAction::CopyText => "copy-text"@,
            EventAction::Edit => "edit"@,
            EventAction::FileSave => "file-save"@,
            EventAction::CopyImage => "copy-image"@,
            EventAction::SaveImage => "save-image"@,
            EventAction::SaveVideo => "save-video"@,
            EventAction::SaveAudio => "save-audio"@,
            EventAction::RevokeInvite => "revoke-invite"@,
        }
    }
}

/// What the actions of an event depend on: the event, the room it is in, and
/// the permissions of the own user in that room.
#[derive(Debug)]
pub struct EventFacts {
    /// Whether the event has an event ID (it was received by the server).
    pub has_event_id: bool,
    /// Whether the own user is joined to the room.
    pub room_is_joined: bool,
    /// The sending state of the event.
    pub state: MessageState,
    /// Whether the event is message-like.
    pub is_message_like: bool,
    /// The ID of the sender of the event.
    pub sender_id: String,
    /// The ID of the own user.
    pub own_user_id: String,
    /// Whether the own user can redact their own events.
    pub can_redact_own: bool,
    /// Whether the own user can redact the events of other users.
    pub can_redact_other: bool,
    /// Whether the own user can send messages.
    pub can_send_message: bool,
    /// Whether the event can be reacted to.
    pub can_be_reacted_to: bool,
    /// Whether the event can be replied to.
    pub can_be_replied_to: bool,
    /// When the event is a poll, whether the poll has ended.
    pub poll_ended: Option<bool>,
    /// When the event is a room message, the kind of its content.
    pub message: Option<MessageKind>,
    /// Whether the event is a media message with a caption.
    pub has_caption: bool,
    /// When the event is a member event, how the membership changed.
    pub membership_change: Option<MembershipChangeKind>,
    /// The current membership of the target user of a member event.
    pub target_membership: Option<Membership>,
    /// Whether the own user can kick the target user of a member event.
    pub can_kick_target: bool,
}

/// Whether the event was sent by the own user.
pub open spec fn is_from_own_user(f: EventFacts) -> bool {
    f.sender_id@ == f.own_user_id@
}

/// Whether the sending state lets a local event be cancelled.
pub open spec fn can_cancel_state(s: MessageState) -> bool {
    s is Sending || s is RecoverableError || s is PermanentError
}

/// The actions that depend on the event ID and the sending state.
pub open spec fn base_action_available(f: EventFacts, a: EventAction) -> bool {
    match a {
        EventAction::Permalink => f.has_event_id,
        EventAction::Properties => f.has_event_id,
        EventAction::Report => f.has_event_id && f.room_is_joined,
        EventAction::CancelSend => !f.has_event_id && can_cancel_state(f.state),
        _ => false,
    }
}

/// The actions that depend on the kind of the message of the event.
pub open spec fn message_action_available(f: EventFacts, a: EventAction) -> bool {
    match f.message {
        None => false,
        Some(kind) => match a {
            EventAction::CopyText => kind is Text || kind is Emote || kind is Notice || f.has_caption,
            EventAction::Edit => (kind is Text || kind is Emote) && f.has_event_id && is_from_own_user(f)
                && f.can_send_message,
            EventAction::FileSave => kind is File,
            EventAction::CopyImage => kind is Image,
            EventAction::SaveImage => kind is Image,
            EventAction::SaveVideo => kind is Video,
            EventAction::SaveAudio => kind is Audio,
            _ => false,
        },
    }
}

/// The actions of a message-like event.
pub open spec fn message_like_action_available(f: EventFacts, a: EventAction) -> bool {
    f.is_message_like && (match a {
        EventAction::Remove => f.has_event_id && ((is_from_own_user(f) && f.can_redact_own)
            || f.can_redact_other),
        EventAction::ToggleReaction => f.can_be_reacted_to,
        EventAction::ShowReactionsChooser => f.can_be_reacted_to,
        EventAction::Reply => f.can_be_replied_to,
        EventAction::EndPoll => f.has_event_id && f.poll_ended == Some(false) && (is_from_own_user(f)
            || f.can_redact_other) && f.can_send_message,
        _ => message_action_available(f, a),
    })
}

/// The actions of a state event.
pub open spec fn state_action_available(f: EventFacts, a: EventAction) -> bool {
    a is RevokeInvite && f.membership_change == Some(MembershipChangeKind::Invited)
        && f.target_membership == Some(Membership::Invite) && f.can_kick_target
}

/// Whether the context menu of an event offers an action.
pub open spec fn action_available(f: EventFacts, a: EventAction) -> bool {
    base_action_available(f, a) || message_like_action_available(f, a) || state_action_available(
        f,
        a,
    )
}

/// Whether no action occurs twice.
pub open spec fn no_duplicates(s: Seq<EventAction>) -> bool {
    forall|i: int, j: int| 0 <= i < j < s.len() ==> s[i] != s[j]
}

/// Adds an action unless it is there already.
fn add_action(actions: &mut Vec<EventAction>, a: EventAction)
    requires
        no_duplicates(old(actions)@),
    ensures
        no_duplicates(final(actions)@),
        forall|x: EventAction| final(actions)@.contains(x) <==> (old(actions)@.contains(x) || x == a),
{
    let n = actions.len();
    let mut i: usize = 0;
    while i < n
        invariant
            n == actions@.len(),
            actions@ == old(actions)@,
            no_duplicates(old(actions)@),
            0 <= i <= n,
            forall|k: int| 0 <= k < i ==> actions@[k] != a,
        decreases n - i,
    {
        if actions[i] == a {
            return;
        }
        i = i + 1;
    }
    actions.push(a);
    proof {
        assert forall|x: EventAction| actions@.contains(x) <==> (old(actions)@.contains(x) || x == a) by {
            if old(actions)@.contains(x) {
                let k = choose|k: int| 0 <= k < old(actions)@.len() && old(actions)@[k] == x;
                assert(actions@[k] == x);
            }
            if x == a {
                assert(actions@[n as int] == x);
            }
            if actions@.contains(x) {
                let k = choose|k: int| 0 <= k < actions@.len() && actions@[k] == x;
                if k < n {
                    assert(old(actions)@[k] == x);
                }
            }
        }
    }
}

/// Adds to the actions of an event those that come from the kind of its
/// message, if it is a message.
pub fn add_message_actions(actions: &mut Vec<EventAction>, f: &EventFacts)
    requires
        no_duplicates(old(actions)@),
    ensures
        no_duplicates(final(actions)@),
        forall|x: EventAction| #[trigger]
            final(actions)@.contains(x) <==> (old(actions)@.contains(x) || message_action_available(*f, x)),
{
    let kind = match f.message {
        Some(kind) => kind,
        None => {
            return;
        },
    };
    let is_from_own_user = f.sender_id == f.own_user_id;
    match kind {
        MessageKind::Text | MessageKind::Emote => {
            add_action(actions, EventAction::CopyText);
            if f.has_event_id && is_from_own_user && f.can_send_message {
                add_action(actions, EventAction::Edit);
            }
        },
        MessageKind::File => {
            add_action(actions, EventAction::FileSave);
        },
        MessageKind::Notice => {
            add_action(actions, EventAction::CopyText);
        },
        MessageKind::Image => {
            add_action(actions, EventAction::CopyImage);
            add_action(actions, EventAction::SaveImage);
        },
        MessageKind::Video => {
            add_action(actions, EventAction::SaveVideo);
        },
        MessageKind::Audio => {
            add_action(actions, EventAction::SaveAudio);
        },
        MessageKind::Location | MessageKind::ServerNotice | MessageKind::Other => {},
    }
    if f.has_caption {
        add_action(actions, EventAction::CopyText);
    }
}

/// Adds to the actions of an event those of a message-like event, if it is
/// one.
pub fn add_message_like_actions(actions: &mut Vec<EventAction>, f: &EventFacts)
    requires
        no_duplicates(old(actions)@),
    ensures
        no_duplicates(final(actions)@),
        forall|x: EventAction| #[trigger]
            final(actions)@.contains(x) <==> (old(actions)@.contains(x) || message_like_action_available(
                *f,
                x,
            )),
{
    if !f.is_message_like {
        return;
    }
    let is_from_own_user = f.sender_id == f.own_user_id;
    if f.has_event_id && ((is_from_own_user && f.can_redact_own) || f.can_redact_other) {
        add_action(actions, EventAction::Remove);
    }
    if f.can_be_reacted_to {
        add_action(actions, EventAction::ToggleReaction);
        add_action(actions, EventAction::ShowReactionsChooser);
    }
    if f.can_be_replied_to {
        add_action(actions, EventAction::Reply);
    }
    let poll_open = match f.poll_ended {
        Some(ended) => !ended,
        None => false,
    };
    if f.has_event_id && poll_open && (is_from_own_user || f.can_redact_other) && f.can_send_message {
        add_action(actions, EventAction::EndPoll);
    }
    add_message_actions(actions, f);
}

/// Adds to the actions of an event those of a member event, if it is one: the
/// invite of a user who is still invited can be revoked by who may kick them.
pub fn add_state_actions(actions: &mut Vec<EventAction>, f: &EventFacts)
    requires
        no_duplicates(old(actions)@),
    ensures
        no_duplicates(final(actions)@),
        forall|x: EventAction| #[trigger]
            final(actions)@.contains(x) <==> (old(actions)@.contains(x) || state_action_available(*f, x)),
{
    let change = match f.membership_change {
        Some(change) => change,
        None => {
            return;
        },
    };
    let target = match f.target_membership {
        Some(target) => target,
        None => {
            return;
        },
    };
    if change == MembershipChangeKind::Invited && target == Membership::Invite && f.can_kick_target {
        add_action(actions, EventAction::RevokeInvite);
    }
}

/// The actions that the context menu of an event offers, each once.
pub fn event_actions_group(f: &EventFacts) -> (res: Vec<EventAction>)
    ensures
        no_duplicates(res@),
        forall|x: EventAction| #[trigger] res@.contains(x) <==> action_available(*f, x),
        f.is_message_like ==> (res@.contains(EventAction::FileSave) <==> f.message == Some(MessageKind::File)),
{
    let mut actions: Vec<EventAction> = Vec::new();
    if f.has_event_id {
        add_action(&mut actions, EventAction::Permalink);
        add_action(&mut actions, EventAction::Properties);
        if f.room_is_joined {
            add_action(&mut actions, EventAction::Report);
        }
    } else {
        let cancellable = match f.state {
            MessageState::Sending | MessageState::RecoverableError | MessageState::PermanentError => true,
            _ => false,
        };
        if cancellable {
            add_action(&mut actions, EventAction::CancelSend);
        }
    }
    proof {
        assert forall|x: EventAction| #[trigger] actions@.contains(x) <==> base_action_available(*f, x) by {}
    }
    add_message_like_actions(&mut actions, f);
    add_state_actions(&mut actions, f);
    actions
}

/// An event that has not reached the server (no event ID) offers none of
/// the actions that refer to it there: no link, properties, report, removal,
/// end of poll or edit. Only such an event can be cancelled.
pub proof fn law_local_events_offer_no_server_actions(f: EventFacts)
    ensures
        !f.has_event_id ==> !action_available(f, EventAction::Permalink) && !action_available(
            f,
            EventAction::Properties,
        ) && !action_available(f, EventAction::Report) && !action_available(f, EventAction::Remove)
            && !action_available(f, EventAction::EndPoll) && !action_available(f, EventAction::Edit),
        action_available(f, EventAction::CancelSend) ==> !f.has_event_id,
{
}

/// A message offers the actions that its kind calls for, and no other kind
/// offers them: a file can be saved; an image can be copied and saved; a
/// video and an audio message can be saved; the text of a text, emote or
/// notice can be copied.
pub proof fn law_messages_offer_the_actions_of_their_kind(f: EventFacts)
    requires
        f.is_message_like,
    ensures
        action_available(f, EventAction::FileSave) <==> f.message == Some(MessageKind::File),
        action_available(f, EventAction::CopyImage) <==> f.message == Some(MessageKind::Image),
        action_available(f, EventAction::SaveImage) <==> f.message == Some(MessageKind::Image),
        action_available(f, EventAction::SaveVideo) <==> f.message == Some(MessageKind::Video),
        action_available(f, EventAction::SaveAudio) <==> f.message == Some(MessageKind::Audio),
        f.message == Some(MessageKind::Text) || f.message == Some(MessageKind::Emote) || f.message == Some(
            MessageKind::Notice,
        ) ==> action_available(f, EventAction::CopyText),
{
}

/// An event that is not message-like offers none of the actions of
/// messages.
pub proof fn law_only_messages_offer_message_actions(f: EventFacts)
    requires
        !f.is_message_like,
    ensures
        !action_available(f, EventAction::FileSave),
        !action_available(f, EventAction::CopyImage),
        !action_available(f, EventAction::SaveImage),
        !action_available(f, EventAction::SaveVideo),
        !action_available(f, EventAction::SaveAudio),
        !action_available(f, EventAction::CopyText),
        !action_available(f, EventAction::Edit),
{
}

/// The textual content of a message, as far as copying its text needs it.
#[derive(Debug)]
pub struct TextualContent {
    /// The kind of the message.
    pub kind: MessageKind,
    /// The body of a text, emote or notice message.
    pub body: String,
    /// The caption of a media message, if any.
    pub caption: Option<String>,
    /// The display name of the sender.
    pub sender_display_name: String,
}

/// The text that copying a message puts on the clipboard.
pub open spec fn spec_copy_text(m: TextualContent) -> Option<Seq<char>> {
    match m.kind {
        MessageKind::Text => Some(m.body@),
        MessageKind::Notice => Some(m.body@),
        MessageKind::Emote => Some(m.sender_display_name@ + " "@ + m.body@),
        _ => match m.caption {
            Some(c) => Some(c@),
            None => None,
        },
    }
}

/// The text that copying a message puts on the clipboard: the body of a text
/// or notice, the display name of the sender and the body of an emote, or
/// the caption of a media message; `None` when there is no text to copy.
pub fn copy_text(m: &TextualContent) -> (res: Option<String>)
    ensures
        match res {
            Some(t) => spec_copy_text(*m) == Some(t@),
            None => spec_copy_text(*m) is None,
        },
{
    match m.kind {
        MessageKind::Text | MessageKind::Notice => Some(m.body.clone()),
        MessageKind::Emote => {
            let mut text = m.sender_display_name.clone();
            push_str(&mut text, " ");
            push_str(&mut text, m.body.as_str());
            Some(text)
        },
        _ => match &m.caption {
            Some(c) => Some(c.clone()),
            None => None,
        },
    }
}

/// The reason sent with the report of an event: the text entered, unless it
/// is empty.
pub fn report_reason(text: String) -> (res: Option<String>)
    ensures
        match res {
            Some(r) => r@ == text@ && text@.len() > 0,
            None => text@.len() == 0,
        },
{
    if text.as_str().is_empty() {
        None
    } else {
        Some(text)
    }
}

} // verus!
