use vstd::prelude::*;

use crate::event_actions::MessageKind;

verus! {

/// The format in which the content of a message shows.
#[derive(Clone, Copy, Debug, PartialEq, Eq, Structural)]
pub enum ContentFormat {
    /// At its natural size.
    Natural,
    /// Smaller and without interactions, if possible; the related events of
    /// replies do not show.
    Compact,
    /// Like `Compact`, and ellipsized to a single line if possible.
    Ellipsized,
}

/// The content of a timeline item, as far as the choice of its widget goes.
#[derive(Clone, Copy, Debug, PartialEq, Eq, Structural)]
pub enum ItemContent {
    /// A room message of the given kind, and whether it is a media message
    /// with a caption.
    Message { kind: MessageKind, has_caption: bool },
    /// A sticker.
    Sticker,
    /// A poll.
    Poll,
    /// An event that could not be decrypted.
    UnableToDecrypt,
    /// A removed (redacted) event.
    Redacted,
    /// Another message-like event.
    OtherMessageLike,
    /// Any other event.
    Other,
}

/// The text of an information widget.
#[derive(Clone, Copy, Debug, PartialEq, Eq, Structural)]
pub enum InfoText {
    /// The message could not be decrypted; decryption is retried once the
    /// keys are there.
    CouldNotDecrypt,
    /// The message was removed.
    Removed,
    /// The event is not supported.
    Unsupported,
    /// The body of a server notice.
    ServerNoticeBody,
}

/// The icon of an information widget.
#[derive(Clone, Copy, Debug, PartialEq, Eq, Structural)]
pub enum InfoIcon {
    Info,
    Warning,
}

/// The widget that presents some content.
#[derive(Clone, Copy, Debug, PartialEq, Eq, Structural)]
pub enum ContentWidget {
    /// Text with markup; `emote` for an emote, that starts with the name of
    /// the sender.
    Text { emote: bool },
    Location,
    Info { icon: InfoIcon, text: InfoText },
    Audio,
    File,
    /// An image, a video or a sticker.
    VisualMedia,
    Poll,
}

/// How some content is built: its widget, whether the widget sits under a
/// caption, and whether `@room` mentions are highlighted. `widget` is `None`
/// when nothing can be built (audio without a session): the previous
/// content stays.
#[derive(Clone, Copy, Debug, PartialEq, Eq, Structural)]
pub struct ContentPlan {
    pub widget: Option<ContentWidget>,
    pub caption: bool,
    pub format: ContentFormat,
    pub detect_at_room: bool,
}

/// The widget for a media message of the given kind.
pub open spec fn spec_media_widget(kind: MessageKind, has_session: bool) -> Option<ContentWidget> {
    match kind {
        MessageKind::Audio => if has_session {
            Some(ContentWidget::Audio)
        } else {
            None
        },
        MessageKind::File => Some(ContentWidget::File),
        _ => Some(ContentWidget::VisualMedia),
    }
}

/// Whether a message of this kind is a media message.
pub open spec fn is_media(kind: MessageKind) -> bool {
    kind is Audio || kind is File || kind is Image || kind is Video
}

/// The widget for a message of the given kind.
pub open spec fn spec_message_widget(kind: MessageKind, has_session: bool) -> Option<ContentWidget> {
    if is_media(kind) {
        spec_media_widget(kind, has_session)
    } else {
        Some(
            match kind {
                MessageKind::Emote => ContentWidget::Text { emote: true },
                MessageKind::Location => ContentWidget::Location,
                MessageKind::Notice => ContentWidget::Text { emote: false },
                MessageKind::Text => ContentWidget::Text { emote: false },
                MessageKind::ServerNotice => ContentWidget::Info {
                    icon: InfoIcon::Warning,
                    text: InfoText::ServerNoticeBody,
                },
                _ => ContentWidget::Info { icon: InfoIcon::Warning, text: InfoText::Unsupported },
            },
        )
    }
}

/// How the content of a timeline item is built.
pub open spec fn spec_build_content(
    content: ItemContent,
    format: ContentFormat,
    detect_at_room: bool,
    has_session: bool,
) -> ContentPlan {
    let (widget, caption) = match content {
        ItemContent::Message { kind, has_caption } => (
            spec_message_widget(kind, has_session),
            is_media(kind) && has_caption,
        ),
        ItemContent::Sticker => (Some(ContentWidget::VisualMedia), false),
        ItemContent::Poll => (Some(ContentWidget::Poll), false),
        ItemContent::UnableToDecrypt => (
            Some(ContentWidget::Info { icon: InfoIcon::Warning, text: InfoText::CouldNotDecrypt }),
            false,
        ),
        ItemContent::Redacted => (
            Some(ContentWidget::Info { icon: InfoIcon::Info, text: InfoText::Removed }),
            false,
        ),
        _ => (Some(ContentWidget::Info { icon: InfoIcon::Warning, text: InfoText::Unsupported }), false),
    };
    ContentPlan { widget, caption, format, detect_at_room }
}

fn media_widget(kind: MessageKind, has_session: bool) -> (res: Option<ContentWidget>)
    requires
        is_media(kind),
    ensures
        res == spec_media_widget(kind, has_session),
{
    match kind {
        MessageKind::Audio => if has_session {
            Some(ContentWidget::Audio)
        } else {
            None
        },
        MessageKind::File => Some(ContentWidget::File),
        _ => Some(ContentWidget::VisualMedia),
    }
}

/// The widget that presents a message of the given kind: a media message
/// gets its media widget (audio needs a session), text, notices and emotes
/// get text, a location gets a map, a server notice shows its body as a
/// warning, and the other kinds are unsupported.
pub fn build_message_content(kind: MessageKind, has_session: bool) -> (res: Option<ContentWidget>)
    ensures
        res == spec_message_widget(kind, has_session),
        (res == Some(ContentWidget::Text { emote: true })) <==> kind is Emote,
        kind is Notice || kind is Text ==> res == Some(ContentWidget::Text { emote: false }),
{
    match kind {
        MessageKind::Audio | MessageKind::File | MessageKind::Image | MessageKind::Video => media_widget(
            kind,
            has_session,
        ),
        MessageKind::Emote => Some(ContentWidget::Text { emote: true }),
        MessageKind::Location => Some(ContentWidget::Location),
        MessageKind::Notice | MessageKind::Text => Some(ContentWidget::Text { emote: false }),
        MessageKind::ServerNotice => Some(
            ContentWidget::Info { icon: InfoIcon::Warning, text: InfoText::ServerNoticeBody },
        ),
        MessageKind::Other => Some(
            ContentWidget::Info { icon: InfoIcon::Warning, text: InfoText::Unsupported },
        ),
    }
}

/// How the content of a timeline item is built, in the given format.
pub fn build_content(
    content: ItemContent,
    format: ContentFormat,
    detect_at_room: bool,
    has_session: bool,
) -> (res: ContentPlan)
    ensures
        res == spec_build_content(content, format, detect_at_room, has_session),
{
    let (widget, caption) = match content {
        ItemContent::Message { kind, has_caption } => {
            let media = match kind {
                MessageKind::Audio | MessageKind::File | MessageKind::Image | MessageKind::Video => true,
                _ => false,
            };
            (build_message_content(kind, has_session), media && has_caption)
        },
        ItemContent::Sticker => (Some(ContentWidget::VisualMedia), false),
        ItemContent::Poll => (Some(ContentWidget::Poll), false),
        ItemContent::UnableToDecrypt => (
            Some(ContentWidget::Info { icon: InfoIcon::Warning, text: InfoText::CouldNotDecrypt }),
            false,
        ),
        ItemContent::Redacted => (
            Some(ContentWidget::Info { icon: InfoIcon::Info, text: InfoText::Removed }),
            false,
        ),
        ItemContent::OtherMessageLike | ItemContent::Other => (
            Some(ContentWidget::Info { icon: InfoIcon::Warning, text: InfoText::Unsupported }),
            false,
        ),
    };
    ContentPlan { widget, caption, format, detect_at_room }
}

/// Only an emote shows as an emote; a notice shows as a text message does;
/// text, notices and emotes show as text whatever the session; each media
/// kind gets its own widget (audio only with a session).
pub proof fn law_message_widgets_follow_the_kind(kind: MessageKind, has_session: bool)
    ensures
        spec_message_widget(kind, has_session) == Some(ContentWidget::Text { emote: true }) <==> kind is Emote,
        spec_message_widget(MessageKind::Notice, has_session) == spec_message_widget(
            MessageKind::Text,
            has_session,
        ),
        spec_message_widget(MessageKind::Text, has_session) == Some(ContentWidget::Text { emote: false }),
        (spec_message_widget(kind, has_session) matches Some(ContentWidget::Text { .. })) <==> (kind is Text
            || kind is Notice || kind is Emote),
        spec_message_widget(MessageKind::File, has_session) == Some(ContentWidget::File),
        spec_message_widget(MessageKind::Image, has_session) == Some(ContentWidget::VisualMedia),
        spec_message_widget(MessageKind::Video, has_session) == Some(ContentWidget::VisualMedia),
        spec_message_widget(MessageKind::Audio, has_session) == (if has_session {
            Some(ContentWidget::Audio)
        } else {
            None
        }),
        spec_message_widget(MessageKind::Location, has_session) == Some(ContentWidget::Location),
{
}

/// The state of the details of the event that a reply replies to.
#[derive(Clone, Copy, Debug, PartialEq, Eq, Structural)]
pub enum RepliedTo {
    /// The details were not fetched yet.
    Unavailable,
    /// They are being fetched.
    Pending,
    /// Fetching them failed.
    Error,
    /// They are there: the content of the replied-to event, whether it can
    /// contain `@room`, whether its sender can notify the room, and whether
    /// its content shows a header.
    Ready {
        content: ItemContent,
        can_contain_at_room: bool,
        sender_can_notify_room: bool,
        can_show_header: bool,
    },
}

/// What presenting an event needs of its view.
#[derive(Debug)]
pub struct EventContentFacts {
    pub content: ItemContent,
    /// Whether the content can contain an `@room` mention.
    pub can_contain_at_room: bool,
    /// Whether the sender may notify the whole room.
    pub sender_can_notify_room: bool,
    /// The replied-to event, when the event is a reply.
    pub reply_to: Option<RepliedTo>,
    /// Whether there is a session (to play audio).
    pub has_session: bool,
}

/// The layout of the content of an event.
#[derive(Clone, Copy, Debug, PartialEq, Eq, Structural)]
pub enum ContentLayout {
    /// The content alone.
    Single(ContentPlan),
    /// A reply: the replied-to content, compact, above the content.
    Reply { related: ContentPlan, main: ContentPlan, show_header: bool },
}

/// How an event is presented, and whether the details of the replied-to
/// event must be fetched first.
#[derive(Clone, Copy, Debug, PartialEq, Eq, Structural)]
pub struct EventContentPlan {
    pub layout: ContentLayout,
    pub fetch_missing_details: bool,
}

/// How an event is presented in the given format: in the natural format a
/// reply whose replied-to event is there shows it above the content, and
/// one whose replied-to event was not fetched yet asks for it; `@room` is
/// highlighted when the content can contain it and the sender may notify
/// the room.
pub open spec fn spec_update_for_event(f: EventContentFacts, format: ContentFormat) -> EventContentPlan {
    let detect = f.can_contain_at_room && f.sender_can_notify_room;
    let single = ContentLayout::Single(spec_build_content(f.content, format, detect, f.has_session));
    if format is Natural {
        match f.reply_to {
            Some(RepliedTo::Ready { content, can_contain_at_room, sender_can_notify_room, can_show_header }) =>
                EventContentPlan {
                layout: ContentLayout::Reply {
                    related: spec_build_content(
                        content,
                        ContentFormat::Compact,
                        can_contain_at_room && sender_can_notify_room,
                        f.has_session,
                    ),
                    main: spec_build_content(f.content, ContentFormat::Natural, detect, f.has_session),
                    show_header: can_show_header,
                },
                fetch_missing_details: false,
            },
            Some(RepliedTo::Unavailable) => EventContentPlan { layout: single, fetch_missing_details: true },
            _ => EventContentPlan { layout: single, fetch_missing_details: false },
        }
    } else {
        EventContentPlan { layout: single, fetch_missing_details: false }
    }
}

/// Presents an event in the given format.
pub fn update_for_event(f: &EventContentFacts, format: ContentFormat) -> (res: EventContentPlan)
    ensures
        res == spec_update_for_event(*f, format),
{
    let detect = f.can_contain_at_room && f.sender_can_notify_room;
    let mut fetch = false;
    if format == ContentFormat::Natural {
        match f.reply_to {
            Some(RepliedTo::Unavailable) => {
                fetch = true;
            },
            Some(RepliedTo::Ready { content, can_contain_at_room, sender_can_notify_room, can_show_header }) => {
                let related = build_content(
                    content,
                    ContentFormat::Compact,
                    can_contain_at_room && sender_can_notify_room,
                    f.has_session,
                );
                let main = build_content(f.content, ContentFormat::Natural, detect, f.has_session);
                return EventContentPlan {
                    layout: ContentLayout::Reply { related, main, show_header: can_show_header },
                    fetch_missing_details: false,
                };
            },
            _ => {},
        }
    }
    EventContentPlan {
        layout: ContentLayout::Single(build_content(f.content, format, detect, f.has_session)),
        fetch_missing_details: fetch,
    }
}

/// A reply shows the replied-to content in the compact format, never in
/// the natural one, and only when the event is shown in the natural format.
pub proof fn law_replies_nest_once(f: EventContentFacts, format: ContentFormat)
    ensures
        spec_update_for_event(f, format).layout matches ContentLayout::Reply { related, main, .. }
            ==> format is Natural && related.format is Compact && main.format is Natural,
{
}

} // verus!
