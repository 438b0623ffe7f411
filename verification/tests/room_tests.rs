use session_view::content::ContentFormat;
use session_view::general_page::{
    members_section, GeneralPage, HistoryVisibilityValue, MembersSection, MembersTitle, NotificationsRoomSetting,
    NotificationsSettings, RoomFacts, RoomPermissions, SwitchRow,
};
use session_view::indicators::{count_tooltip, receipts_label, splice, typing_label, CountTooltip, TypingLabel};
use session_view::invite::{close, invite_done, update_view as invite_page, CloseAction, InviteListState, InviteOutcome, InvitePage};
use session_view::location::{allocated_width, measure, set_geo_uri, LocationView};
use session_view::media::{call_label, needs_more_items, placeholder_loaded, update_state, CallLabel, MediaPreview, ViewerPage};
use session_view::members_list::{
    extra_items, subpage_row_label, update_view, ExtraItem, ListTitle, LoadingState, MembersListPage, MembershipListKind,
    OtherListCounts,
};
use session_view::poll::{answer_toggled, set_poll, AnswerToggle, PollAnswer, PollFooter, PollResults, PollVotes};
use session_view::reactions::{quick_reaction_key, quick_reaction_position, update_reactions, ReactionGroup};
use session_view::room_details::{show_initial_view, show_member, InitialView, Navigation, SubpageCache, SubpageName};
use session_view::room_history::{update_pending_knocks, update_room_menu, ReceiptPosition, ScrollEffect, RoomHistory, receipt_position};
use session_view::event_actions::Membership;
use session_view::subpages::{go_back, GoBack, HistoryVisibilitySubpage, JoinRuleSubpage, JoinRuleValue, MatrixJoinRule, UnsavedChangesResponse};
use session_view::timestamps::{divider_label, event_time_format, receipt_timestamp_format, ClockFormat, DividerLabel, VirtualItemKind};

fn permissions(all: bool) -> RoomPermissions {
    RoomPermissions {
        can_change_avatar: all,
        can_change_name: all,
        can_change_topic: all,
        can_send_power_levels: all,
        can_send_join_rules: all,
        can_send_guest_access: all,
        can_send_canonical_alias: all,
        can_send_history_visibility: all,
        can_send_encryption: all,
        can_send_tombstone: all,
    }
}

fn room() -> RoomFacts {
    RoomFacts {
        is_direct: false,
        is_joined: true,
        is_left: false,
        joined_members_server: 12,
        joined_members_local: 3,
        notifications: Some(NotificationsSettings { account_enabled: true, session_enabled: true }),
        canonical_alias: Some("#a:x.org".to_string()),
        alt_aliases: vec!["#b:x.org".to_string()],
        join_rule_can_be_edited: true,
        guests_allowed: false,
        history_visibility: HistoryVisibilityValue::Shared,
        is_encrypted: true,
        is_tombstoned: false,
        federated: true,
        has_upgrade_info: true,
        permissions: permissions(true),
    }
}

#[test]
fn members_section_counts() {
    let mut f = room();
    assert_eq!(members_section(&f), MembersSection::Count { title: MembersTitle::Members, count: 12 });
    f.is_left = true;
    f.joined_members_server = 2;
    f.joined_members_local = 0;
    assert_eq!(members_section(&f), MembersSection::Count { title: MembersTitle::Member, count: 1 });
    f.joined_members_server = 0;
    assert_eq!(members_section(&f), MembersSection::Count { title: MembersTitle::Members, count: 0 });
    f.is_direct = true;
    f.joined_members_local = 1;
    assert_eq!(members_section(&f), MembersSection::Direct { title: MembersTitle::Member, has_members: true });
}

#[test]
fn general_page_for_a_room() {
    let mut page = GeneralPage::new();
    let f = room();
    page.set_room(&f);
    assert!(page.edit_details_visible);
    assert!(page.edit_addresses_visible);
    assert_eq!(page.addresses.main.as_deref(), Some("#a:x.org"));
    assert_eq!(page.addresses.alt, vec!["#b:x.org".to_string()]);
    assert!(!page.no_addresses_visible);
    assert_eq!(page.encryption, SwitchRow { active: true, loading: false, read_only: true });
    assert!(page.upgrade_visible);
    assert!(page.notifications_visible);
    assert!(page.notifications_sensitive);
    let mut left = room();
    left.is_joined = false;
    left.permissions = permissions(false);
    left.canonical_alias = None;
    left.alt_aliases = vec![];
    left.history_visibility = HistoryVisibilityValue::Unsupported;
    page.set_room(&left);
    assert!(!page.notifications_visible);
    assert!(!page.edit_addresses_visible);
    assert!(page.no_addresses_visible);
    assert!(page.addresses.main.is_none());
    assert!(!page.history_visibility_activatable);
}

#[test]
fn general_page_switches() {
    let mut page = GeneralPage::new();
    page.set_room(&room());
    page.guest_access.active = true;
    assert_eq!(page.toggle_guest_access(false), Some(true));
    assert!(page.guest_access.loading);
    page.publish_visibility_loaded(Some(true));
    assert!(page.is_published);
    assert!(!page.publish.loading);
    page.publish.active = false;
    assert_eq!(page.toggle_publish(), Some(false));
    assert!(page.notifications_setting_changed(NotificationsRoomSetting::Mute, NotificationsRoomSetting::All, true));
    assert!(page.notifications_loading);
    assert_eq!(page.set_notifications_loading(true, NotificationsRoomSetting::Mute), (false, false, false, true));
    assert!(!page.notifications_setting_changed(NotificationsRoomSetting::All, NotificationsRoomSetting::All, true));
}

#[test]
fn members_list_views() {
    let v = update_view(MembershipListKind::Invite, 1, LoadingState::Ready, false);
    assert_eq!(v.title, ListTitle { kind: MembershipListKind::Invite, plural: false });
    assert_eq!(v.page, MembersListPage::Members);
    assert!(v.search_visible);
    let v = update_view(MembershipListKind::Join, 0, LoadingState::Loading, true);
    assert_eq!(v.page, MembersListPage::Loading);
    assert!(!v.search_visible);
    let v = update_view(MembershipListKind::Join, 0, LoadingState::Ready, true);
    assert_eq!(v.page, MembersListPage::Empty { with_extra_items: true });
    let items = extra_items(MembershipListKind::Join, LoadingState::Error, OtherListCounts { knock: 2, invite: 0, ban: 1 });
    assert_eq!(
        items,
        vec![
            ExtraItem::LoadingRow { error: true },
            ExtraItem::Subpage(MembershipListKind::Knock),
            ExtraItem::Subpage(MembershipListKind::Ban),
        ]
    );
    assert!(extra_items(MembershipListKind::Ban, LoadingState::Loading, OtherListCounts { knock: 2, invite: 2, ban: 2 }).is_empty());
    assert_eq!(subpage_row_label(MembershipListKind::Join, 3), None);
}

#[test]
fn join_rule_changes() {
    let mut page = JoinRuleSubpage::new(true);
    page.update(JoinRuleValue::Invite, true, true, Some(MatrixJoinRule::Knock));
    assert!(!page.changed);
    page.knock_active = false;
    page.update_changed(true, Some(MatrixJoinRule::Knock));
    assert!(page.changed);
    assert_eq!(page.save(), Some(MatrixJoinRule::Invite));
    page.set_local_value(JoinRuleValue::Public, true, Some(MatrixJoinRule::Knock));
    assert!(!page.knock_sensitive);
    assert_eq!(page.new_join_rule(), MatrixJoinRule::Public);
    let mut page = JoinRuleSubpage::new(false);
    page.update(JoinRuleValue::Invite, false, false, None);
    assert!(!page.changed);
    assert_eq!(go_back(true, UnsavedChangesResponse::Discard), GoBack::PopThenReset);
    assert_eq!(go_back(false, UnsavedChangesResponse::Cancel), GoBack::Pop);
}

#[test]
fn history_visibility_changes() {
    let mut page = HistoryVisibilitySubpage::new();
    page.update(HistoryVisibilityValue::Shared, true);
    assert!(!page.changed);
    page.set_local_value(HistoryVisibilityValue::Joined, HistoryVisibilityValue::Shared, true);
    assert!(page.changed);
    assert_eq!(page.save(), Some(HistoryVisibilityValue::Joined));
    assert!(page.save_loading);
    page.set_local_value(HistoryVisibilityValue::Invited, HistoryVisibilityValue::Shared, false);
    assert!(!page.changed);
}

#[test]
fn room_history_menu_and_scroll() {
    let menu = update_room_menu(Some((Membership::Leave, true)));
    assert!(menu.visible && menu.join && menu.forget && !menu.leave);
    assert!(!update_room_menu(None).visible);
    let mut scroll = RoomHistory::new();
    assert_eq!(scroll.scroll_value_changed(false), ScrollEffect::UserScrolled { away_from_bottom: true });
    assert!(!scroll.is_sticky);
    assert!(scroll.scroll_button_revealed);
    assert!(scroll.scroll_down(false));
    assert_eq!(scroll.scroll_value_changed(false), ScrollEffect::ScrollToEnd);
    assert_eq!(scroll.scroll_value_changed(true), ScrollEffect::UserScrolled { away_from_bottom: false });
    assert!(scroll.is_sticky);
    assert!(matches!(receipt_position(true, None), Some(ReceiptPosition::End)));
    assert!(matches!(receipt_position(false, Some("$e".to_string())), Some(ReceiptPosition::Event(e)) if e == "$e"));
    assert!(receipt_position(false, None).is_none());
    assert_eq!(update_pending_knocks(false, false, true, Some(3)), Some(3));
    assert_eq!(update_pending_knocks(false, false, false, Some(3)), None);
}

#[test]
fn invite_outcomes() {
    assert_eq!(invite_page(InviteListState::NoMatching), InvitePage::NoResults);
    assert_eq!(close(false), CloseAction::CloseWindow);
    let mut invitees = vec!["@a:x.org".to_string(), "@b:x.org".to_string(), "@c:x.org".to_string()];
    let failed = vec!["@c:x.org".to_string()];
    match invite_done(&mut invitees, Some(&failed)) {
        InviteOutcome::FailedOne(u) => assert_eq!(u, "@c:x.org"),
        other => panic!("unexpected {other:?}"),
    }
    assert_eq!(invitees, vec!["@c:x.org".to_string()]);
    let mut invitees = vec!["@a:x.org".to_string(), "@b:x.org".to_string()];
    let failed = vec!["@b:x.org".to_string(), "@a:x.org".to_string()];
    assert!(matches!(invite_done(&mut invitees, Some(&failed)), InviteOutcome::FailedMany(2)));
    assert!(matches!(invite_done(&mut invitees, None), InviteOutcome::Close));
}

fn poll() -> PollResults {
    PollResults {
        answers: vec![
            PollAnswer { id: "a".to_string(), text: "Yes".to_string() },
            PollAnswer { id: "b".to_string(), text: "No".to_string() },
            PollAnswer { id: "c".to_string(), text: "Maybe".to_string() },
        ],
        votes: vec![
            PollVotes { answer_id: "a".to_string(), voters: vec!["@x:o".to_string(), "@y:o".to_string()] },
            PollVotes { answer_id: "b".to_string(), voters: vec!["@me:o".to_string(), "@z:o".to_string()] },
        ],
        max_selections: 1,
        ended: true,
        disclosed: false,
    }
}

#[test]
fn ended_poll_has_winners() {
    let view = set_poll(&poll(), "@me:o", true, true, ContentFormat::Natural);
    assert!(view.show_results);
    assert!(!view.can_vote);
    assert!(view.single_choice);
    assert_eq!(view.rows.len(), 3);
    assert!(view.rows[0].is_winner && view.rows[1].is_winner && !view.rows[2].is_winner);
    assert!(view.rows[1].is_selected && !view.rows[0].is_selected);
    assert_eq!(view.rows[2].count, 0);
    assert_eq!(view.footer, PollFooter::FinalResult(4));
}

#[test]
fn open_poll_hides_results() {
    let mut p = poll();
    p.ended = false;
    let view = set_poll(&p, "@me:o", true, true, ContentFormat::Natural);
    assert!(!view.show_results);
    assert!(view.can_vote);
    assert!(!view.rows[0].is_winner);
    assert_eq!(view.footer, PollFooter::RevealedWhenEnded);
    p.disclosed = true;
    let view = set_poll(&p, "@me:o", false, true, ContentFormat::Natural);
    assert!(view.show_results);
    assert!(!view.can_vote);
    assert_eq!(view.footer, PollFooter::VotesCast(4));
    let view = set_poll(&p, "@new:o", true, true, ContentFormat::Natural);
    assert_eq!(view.footer, PollFooter::VoteToSeeResults);
    let view = set_poll(&p, "@me:o", true, true, ContentFormat::Compact);
    assert!(view.compact);
    assert!(view.rows.is_empty());
}

#[test]
fn poll_answer_toggles() {
    assert!(matches!(answer_toggled(1, "a", false, vec![]), AnswerToggle::Nothing));
    assert!(matches!(answer_toggled(1, "a", true, vec![]), AnswerToggle::Send(v) if v == vec!["a".to_string()]));
    let checked = vec!["a".to_string(), "b".to_string(), "c".to_string()];
    assert!(matches!(answer_toggled(2, "c", true, checked.clone()), AnswerToggle::Revert));
    assert!(matches!(answer_toggled(3, "c", true, checked.clone()), AnswerToggle::Send(v) if v == checked));
}

#[test]
fn indicators_labels() {
    assert_eq!(receipts_label(7), Some(2));
    assert_eq!(receipts_label(5), None);
    assert_eq!(count_tooltip(1, true), CountTooltip::OneMember);
    assert_eq!(count_tooltip(1, false), CountTooltip::Count(1));
    assert_eq!(count_tooltip(0, false), CountTooltip::Nothing);
    assert_eq!(typing_label(3), TypingLabel::Members(3));
    assert_eq!(typing_label(0), TypingLabel::Unchanged);
    let mut list = vec![1, 2, 3, 4];
    splice(&mut list, 1, 2, vec![7, 8, 9]);
    assert_eq!(list, vec![1, 7, 8, 9, 4]);
}

#[test]
fn quick_reactions_follow_own_reactions() {
    let groups = vec![
        ReactionGroup { key: "🎉".to_string(), has_own_user: true },
        ReactionGroup { key: "👍️".to_string(), has_own_user: false },
    ];
    let active = update_reactions(&groups);
    assert_eq!(active, vec![false, false, false, true, false, false, false]);
    assert_eq!(quick_reaction_key(3), "🎉");
    assert_eq!(quick_reaction_position(5), (1, 1));
    assert_eq!(quick_reaction_key(6), "🚀");
    assert_eq!(quick_reaction_position(6), (2, 1));
}

#[test]
fn locations_and_media() {
    assert_eq!(set_geo_uri("geo:48.2,16.3", ContentFormat::Natural), LocationView { compact: false, valid: true });
    assert_eq!(set_geo_uri("48.2,16.3", ContentFormat::Ellipsized), LocationView { compact: true, valid: false });
    assert_eq!(measure(true, false), 50);
    assert_eq!(allocated_width(true, 200), 75);
    assert_eq!(allocated_width(false, 200), 200);
    assert_eq!(call_label(true, false), CallLabel::IncomingVideo);
    assert_eq!(update_state(LoadingState::Loading, 1, true), ViewerPage::Loading);
    assert_eq!(update_state(LoadingState::Ready, 0, false), ViewerPage::Empty);
    assert!(needs_more_items(19, false));
    assert!(!needs_more_items(20, false));
    assert_eq!(placeholder_loaded(MediaPreview::Thumbnail), MediaPreview::Thumbnail);
    assert_eq!(placeholder_loaded(MediaPreview::Empty), MediaPreview::Placeholder);
}

#[test]
fn timestamps_and_dividers() {
    assert_eq!(divider_label(VirtualItemKind::DayDivider { year: 2024 }, 2024), DividerLabel::DayWithoutYear);
    assert_eq!(divider_label(VirtualItemKind::DayDivider { year: 2023 }, 2024), DividerLabel::DayWithYear);
    assert_eq!(event_time_format(ClockFormat::TwentyFourHours), "%R");
    assert_eq!(receipt_timestamp_format(0, ClockFormat::TwelveHours), None);
    assert_eq!(receipt_timestamp_format(5, ClockFormat::TwelveHours), Some("%B %-e at %I:%M %p"));
}

#[test]
fn room_details_navigation() {
    assert_eq!(
        show_initial_view(InitialView::Subpage(SubpageName::Invite)),
        Navigation::PushSubpage { name: SubpageName::Invite, can_pop: false }
    );
    assert_eq!(show_initial_view(InitialView::General), Navigation::Stay);
    let mut cache = SubpageCache::new();
    assert!(cache.subpage(SubpageName::Members));
    assert!(!cache.subpage(SubpageName::Members));
    assert!(cache.subpage(SubpageName::Addresses));
    assert!(show_member("@a:example.org"));
    assert!(!show_member("a"));
}
