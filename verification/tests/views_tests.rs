use session_view::edit_details::{AvatarEditState, EditDetailsSubpage};
use session_view::event_actions::Membership;
use session_view::general_page::{GeneralPage, SwitchRow};
use session_view::content::ContentFormat;
use session_view::media::{call_icon, MessageFile, file_button, media_item_measure, media_item_plan, FileButton, MediaItemPlan};
use session_view::members_list::{activate_listview_row, ExtraItem, ItemActivation, ListItem, MembershipListKind};
use session_view::permissions::{form_from_power_levels, rows_read_only};
use session_view::power_levels::{EventKind, PowerLevel, RoomPowerLevels};
use session_view::reactions::count_visible;
use session_view::room_history::{should_update_read_receipts, update_invite_action, RoomHistory};
use session_view::timeline_rows::{sender_activatable, update_bar, update_header, EventHeaderState, VerificationBar};
use session_view::timestamps::{divider_date_format, DividerLabel};

#[test]
fn list_items_activate() {
    assert_eq!(activate_listview_row(ListItem::Member(4)), ItemActivation::ShowMember(4));
    assert_eq!(
        activate_listview_row(ListItem::Extra(ExtraItem::Subpage(MembershipListKind::Ban))),
        ItemActivation::ShowMembershipList(MembershipListKind::Ban)
    );
    assert_eq!(activate_listview_row(ListItem::Extra(ExtraItem::LoadingRow { error: false })), ItemActivation::Nothing);
}

#[test]
fn avatar_failures_reset_the_editor() {
    let mut page = EditDetailsSubpage::new(false, false);
    assert!(!page.start_avatar_edit(false));
    assert!(page.start_avatar_edit(true));
    page.avatar_upload_failed();
    assert_eq!(page.avatar, AvatarEditState::Default);
    let id = page.avatar_uploaded("mxc://x.org/a".to_string());
    assert!(page.avatar_request_failed(id));
    assert!(!page.avatar_request_failed(id));
    assert!(page.changing_avatar.is_none());
    // A failure of a replaced change does not reset the newer one.
    let older = page.avatar_uploaded("mxc://x.org/b".to_string());
    let newer = page.remove_avatar(true).expect("joined");
    assert!(!page.avatar_request_failed(older));
    assert_eq!(page.avatar, AvatarEditState::RemovalInProgress);
    assert!(page.avatar_request_failed(newer));
    assert_eq!(page.avatar, AvatarEditState::Default);
    assert_eq!(page.remove_avatar(false), None);
}

#[test]
fn topic_and_name_edits_update_buttons() {
    let mut page = EditDetailsSubpage::new(true, true);
    page.name_edited(Some("Room"), "Room 2");
    assert!(page.name_button_visible);
    page.topic_edited(Some("About"), " About ");
    assert!(!page.save_topic_sensitive);
    assert_eq!(page.unsaved_edits(Some("Room"), "Room 2", Some("About"), "About"), (true, false));
    let (id, value) = page.change_topic(Some("About"), "New", true).expect("change");
    assert_eq!(value, Some("New".to_string()));
    assert_eq!(page.unsaved_edits(Some("Room"), "Room", Some("About"), "Other"), (false, false));
    assert!(!page.topic_change_failed(id + 1));
    assert!(page.topic_change_failed(id));
    assert!(page.topic_sensitive);
    assert!(!page.save_topic_loading);
}

#[test]
fn encryption_can_only_be_enabled() {
    let mut page = GeneralPage::new();
    assert!(!page.enable_encryption(false));
    page.encryption.active = true;
    assert!(!page.enable_encryption(true));
    assert!(page.enable_encryption(false));
    assert_eq!(page.encryption, SwitchRow { active: true, loading: true, read_only: true });
}

#[test]
fn read_only_rows_of_a_form() {
    let pl = RoomPowerLevels {
        ban: 50,
        events: vec![(EventKind::RoomTombstone, 100)],
        events_default: 0,
        invite: 0,
        kick: 50,
        redact: 50,
        state_default: 50,
        users: vec![],
        users_default: 0,
        notifications_room: 50,
    };
    let form = form_from_power_levels(&pl);
    let read_only = rows_read_only(&form, true, PowerLevel::Int(50));
    assert!(read_only.upgrade);
    assert!(!read_only.kick);
    assert!(!read_only.messages);
    let read_only = rows_read_only(&form, true, PowerLevel::Infinite);
    assert!(!read_only.upgrade);
}

#[test]
fn history_scroll_when_content_grows() {
    let mut scroll = RoomHistory::new();
    assert!(scroll.scroll_max_value_changed(false));
    assert!(scroll.is_auto_scrolling);
    assert!(!scroll.scroll_max_value_changed(false));
    let mut scroll = RoomHistory::new();
    scroll.scroll_value_changed(false);
    assert!(!scroll.scroll_max_value_changed(true));
    assert!(!scroll.scroll_button_revealed);
    assert!(update_invite_action(false, true));
    assert!(!update_invite_action(true, true));
    assert!(should_update_read_receipts(false, true));
    assert!(!should_update_read_receipts(true, true));
}

#[test]
fn rows_of_the_timeline() {
    assert!(sender_activatable(false, Membership::Join, true));
    assert!(!sender_activatable(true, Membership::Join, true));
    assert!(!sender_activatable(false, Membership::Leave, true));
    assert_eq!(update_header(EventHeaderState::Full), (true, true));
    assert_eq!(update_header(EventHeaderState::TimestampOnly), (false, true));
    assert_eq!(update_header(EventHeaderState::Hidden), (false, false));
    assert_eq!(update_bar(true, false, true), VerificationBar::Requested);
    assert_eq!(update_bar(true, true, true), VerificationBar::Hidden);
    assert_eq!(update_bar(true, false, false), VerificationBar::InProgress);
}

#[test]
fn media_rows() {
    assert_eq!(call_icon(true), "video-symbolic");
    assert_eq!(file_button(true), FileButton::Open);
    assert_eq!(file_button(false), FileButton::Save);
    assert_eq!(media_item_measure(10, 40), (10, 40));
    assert_eq!(media_item_measure(10, 4), (10, 10));
    assert_eq!(
        media_item_plan(true, false, true, false),
        MediaItemPlan { play_icon: true, load_placeholder: false, load_thumbnail: false }
    );
    assert!(count_visible(2));
    assert!(!count_visible(1));
    assert_eq!(divider_date_format(DividerLabel::DayWithYear), Some("%A, %B %-e, %Y"));
    assert_eq!(divider_date_format(DividerLabel::NewMessages), None);
}

#[test]
fn file_names_drop_empty_ones() {
    let mut file = MessageFile::new();
    assert!(!file.set_filename(Some(String::new())));
    assert_eq!(file.filename, None);
    assert!(file.set_filename(Some("report.pdf".to_string())));
    assert!(!file.set_filename(Some("report.pdf".to_string())));
    assert!(file.set_filename(Some(String::new())));
    assert_eq!(file.filename, None);
    file.set_format(ContentFormat::Ellipsized);
    assert!(file.compact);
    file.set_format(ContentFormat::Natural);
    assert!(!file.compact);
}
