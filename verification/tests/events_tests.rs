use session_view::content::{
    build_content, build_message_content, update_for_event, ContentFormat, ContentLayout, ContentWidget,
    EventContentFacts, InfoIcon, InfoText, ItemContent, RepliedTo,
};
use session_view::event_actions::{
    copy_text, event_actions_group, EventAction, EventFacts, Membership, MembershipChangeKind, MessageKind,
    TextualContent,
};
use session_view::event_row::{build_event_widget, menu_opened, update_actions, update_for_related_event, EventWidget, MenuDecision};
use session_view::message_state::{
    DelayedPage, MessageState, MessageStateStack, StatePage, StateTransition, SENT_VISIBLE_SECONDS,
};
use session_view::timeline_rows::{latest_editable_message, TimelineItemFacts};

fn facts() -> EventFacts {
    EventFacts {
        has_event_id: true,
        room_is_joined: true,
        state: MessageState::Delivered,
        is_message_like: true,
        sender_id: "@me:x.org".to_string(),
        own_user_id: "@me:x.org".to_string(),
        can_redact_own: true,
        can_redact_other: false,
        can_send_message: true,
        can_be_reacted_to: true,
        can_be_replied_to: true,
        poll_ended: None,
        message: Some(MessageKind::Text),
        has_caption: false,
        membership_change: None,
        target_membership: None,
        can_kick_target: false,
    }
}

fn has(actions: &[EventAction], a: EventAction) -> bool {
    actions.contains(&a)
}

#[test]
fn own_text_message_actions() {
    let actions = event_actions_group(&facts());
    for a in [
        EventAction::Permalink,
        EventAction::Properties,
        EventAction::Report,
        EventAction::Remove,
        EventAction::ToggleReaction,
        EventAction::ShowReactionsChooser,
        EventAction::Reply,
        EventAction::CopyText,
        EventAction::Edit,
    ] {
        assert!(has(&actions, a), "missing {a:?}");
    }
    assert_eq!(actions.len(), 9);
    assert_eq!(EventAction::CancelSend.name(), "cancel-send");
}

#[test]
fn local_echo_offers_no_server_actions() {
    let mut f = facts();
    f.has_event_id = false;
    f.state = MessageState::Sending;
    let actions = event_actions_group(&f);
    assert!(has(&actions, EventAction::CancelSend));
    for a in [EventAction::Permalink, EventAction::Properties, EventAction::Report, EventAction::Remove, EventAction::Edit] {
        assert!(!has(&actions, a));
    }
}

#[test]
fn other_users_messages_need_redaction_permission() {
    let mut f = facts();
    f.sender_id = "@other:x.org".to_string();
    let actions = event_actions_group(&f);
    assert!(!has(&actions, EventAction::Remove));
    assert!(!has(&actions, EventAction::Edit));
    f.can_redact_other = true;
    assert!(has(&event_actions_group(&f), EventAction::Remove));
}

#[test]
fn media_and_poll_actions() {
    let mut f = facts();
    f.message = Some(MessageKind::Image);
    f.has_caption = true;
    let actions = event_actions_group(&f);
    assert!(has(&actions, EventAction::CopyImage));
    assert!(has(&actions, EventAction::SaveImage));
    assert!(has(&actions, EventAction::CopyText));
    assert!(!has(&actions, EventAction::Edit));
    let mut f = facts();
    f.message = None;
    f.poll_ended = Some(false);
    assert!(has(&event_actions_group(&f), EventAction::EndPoll));
    f.poll_ended = Some(true);
    assert!(!has(&event_actions_group(&f), EventAction::EndPoll));
}

#[test]
fn invites_can_be_revoked() {
    let mut f = facts();
    f.is_message_like = false;
    f.message = None;
    f.membership_change = Some(MembershipChangeKind::Invited);
    f.target_membership = Some(Membership::Invite);
    f.can_kick_target = true;
    assert!(has(&event_actions_group(&f), EventAction::RevokeInvite));
    f.target_membership = Some(Membership::Join);
    assert!(!has(&event_actions_group(&f), EventAction::RevokeInvite));
}

#[test]
fn copy_text_of_messages() {
    let emote = TextualContent {
        kind: MessageKind::Emote,
        body: "waves".to_string(),
        caption: None,
        sender_display_name: "Alice".to_string(),
    };
    assert_eq!(copy_text(&emote), Some("Alice waves".to_string()));
    let file = TextualContent {
        kind: MessageKind::File,
        body: "report.pdf".to_string(),
        caption: Some("The report".to_string()),
        sender_display_name: "Alice".to_string(),
    };
    assert_eq!(copy_text(&file), Some("The report".to_string()));
    let video = TextualContent { kind: MessageKind::Video, body: String::new(), caption: None, sender_display_name: String::new() };
    assert_eq!(copy_text(&video), None);
}

#[test]
fn state_indicator_shows_sent_then_settles() {
    let mut stack = MessageStateStack::new();
    assert_eq!(
        stack.set_state(MessageState::Sending),
        Some(StateTransition { page: StatePage::Sending, later: None })
    );
    assert_eq!(
        stack.set_state(MessageState::Delivered),
        Some(StateTransition {
            page: StatePage::Sent,
            later: Some(DelayedPage { after_seconds: 3, page: StatePage::Empty })
        })
    );
    assert_eq!(stack.set_state(MessageState::Delivered), None);
    assert_eq!(
        stack.set_state(MessageState::Edited),
        Some(StateTransition { page: StatePage::Edited, later: None })
    );
    assert_eq!(
        stack.set_state(MessageState::Sending),
        Some(StateTransition { page: StatePage::Sending, later: None })
    );
    assert_eq!(
        stack.set_state(MessageState::Edited),
        Some(StateTransition {
            page: StatePage::Sent,
            later: Some(DelayedPage { after_seconds: SENT_VISIBLE_SECONDS, page: StatePage::Edited })
        })
    );
    assert_eq!(StatePage::Warning.name(), "warning");
}

#[test]
fn message_content_widgets() {
    assert_eq!(build_message_content(MessageKind::Audio, false), None);
    assert_eq!(build_message_content(MessageKind::Emote, true), Some(ContentWidget::Text { emote: true }));
    let plan = build_content(ItemContent::Redacted, ContentFormat::Natural, false, true);
    assert_eq!(plan.widget, Some(ContentWidget::Info { icon: InfoIcon::Info, text: InfoText::Removed }));
    let plan = build_content(
        ItemContent::Message { kind: MessageKind::Image, has_caption: true },
        ContentFormat::Compact,
        true,
        true,
    );
    assert_eq!(plan.widget, Some(ContentWidget::VisualMedia));
    assert!(plan.caption);
}

#[test]
fn replies_nest_in_natural_format_only() {
    let f = EventContentFacts {
        content: ItemContent::Message { kind: MessageKind::Text, has_caption: false },
        can_contain_at_room: true,
        sender_can_notify_room: true,
        reply_to: Some(RepliedTo::Ready {
            content: ItemContent::Poll,
            can_contain_at_room: false,
            sender_can_notify_room: true,
            can_show_header: true,
        }),
        has_session: true,
    };
    let plan = update_for_event(&f, ContentFormat::Natural);
    match plan.layout {
        ContentLayout::Reply { related, main, show_header } => {
            assert_eq!(related.format, ContentFormat::Compact);
            assert_eq!(related.widget, Some(ContentWidget::Poll));
            assert!(!related.detect_at_room);
            assert_eq!(main.format, ContentFormat::Natural);
            assert!(main.detect_at_room);
            assert!(show_header);
        },
        ContentLayout::Single(_) => panic!("expected a reply"),
    }
    assert!(matches!(update_for_event(&f, ContentFormat::Compact).layout, ContentLayout::Single(_)));
    let unavailable = EventContentFacts { reply_to: Some(RepliedTo::Unavailable), ..f };
    assert!(update_for_event(&unavailable, ContentFormat::Natural).fetch_missing_details);
}

#[test]
fn event_rows() {
    assert_eq!(build_event_widget(true, true), EventWidget::Call);
    assert_eq!(build_event_widget(false, true), EventWidget::State);
    assert_eq!(menu_opened(true, true, false), MenuDecision::Menu { quick_reactions: false });
    assert_eq!(menu_opened(true, false, true), MenuDecision::NoPopover);
    assert!(update_for_related_event(Some("$e"), Some("$e")));
    assert!(!update_for_related_event(Some("$e"), Some("$f")));
    let mut f = facts();
    f.message = Some(MessageKind::Image);
    let row = update_actions(Some(&f), false);
    assert_eq!(row.copy_image_enabled, Some(false));
    assert!(row.properties_shortcut);
    assert!(row.has_context_menu);
    let row = update_actions(None, true);
    assert!(!row.has_context_menu);
}

#[test]
fn latest_editable_message_is_found() {
    let item = |sender: &str, id: bool, kind: Option<MessageKind>| TimelineItemFacts {
        is_event: true,
        sender_id: sender.to_string(),
        has_event_id: id,
        message: kind,
    };
    let items = vec![
        item("@me:x.org", true, Some(MessageKind::Text)),
        item("@me:x.org", true, Some(MessageKind::Emote)),
        item("@me:x.org", false, Some(MessageKind::Text)),
        item("@you:x.org", true, Some(MessageKind::Text)),
        item("@me:x.org", true, Some(MessageKind::Image)),
    ];
    assert_eq!(latest_editable_message(&items, "@me:x.org"), Some(1));
    assert_eq!(latest_editable_message(&items, "@them:x.org"), None);
}
