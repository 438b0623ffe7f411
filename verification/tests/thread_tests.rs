use session_view::event_actions::report_reason;
use session_view::thread_panel::{
    event_for_action_target, needs_more_events_at_the_start, thread_page, ThreadPage, ThreadPanel,
};

#[test]
fn thread_page_waits_for_events() {
    assert_eq!(thread_page(None), ThreadPage::Loading);
    assert_eq!(thread_page(Some(true)), ThreadPage::Loading);
    assert_eq!(thread_page(Some(false)), ThreadPage::Content);
}

#[test]
fn thread_loads_more_events_near_the_start() {
    assert!(!needs_more_events_at_the_start(None, true));
    assert!(needs_more_events_at_the_start(Some(true), false));
    assert!(needs_more_events_at_the_start(Some(false), true));
    assert!(!needs_more_events_at_the_start(Some(false), false));
}

#[test]
fn thread_scroll_sticks_to_the_newest_message() {
    let mut scroll = ThreadPanel::new();
    assert!(scroll.is_sticky && !scroll.is_auto_scrolling);
    // The thread grows while the panel is at the bottom of a shorter thread.
    assert!(scroll.scroll_max_value_changed(false));
    assert!(scroll.is_auto_scrolling);
    // Scrolling by itself: nothing to check until it reaches the bottom.
    assert!(!scroll.scroll_value_changed(false));
    assert!(scroll.is_auto_scrolling);
    assert!(!scroll.scroll_value_changed(true));
    assert!(!scroll.is_auto_scrolling && scroll.is_sticky);
    // The user scrolls up: the panel no longer sticks.
    assert!(scroll.scroll_value_changed(false));
    assert!(!scroll.is_sticky);
    assert!(!scroll.scroll_max_value_changed(false));
    assert_eq!(scroll, ThreadPanel { is_sticky: false, is_auto_scrolling: false });
    // A new thread sticks again and scrolls down.
    assert!(scroll.timeline_set(false));
    assert_eq!(scroll, ThreadPanel { is_sticky: true, is_auto_scrolling: true });
    let mut at_bottom = ThreadPanel::new();
    assert!(!at_bottom.scroll_down(true));
    assert_eq!(at_bottom, ThreadPanel::new());
}

#[test]
fn thread_actions_target_valid_event_ids() {
    let ids = vec![None, Some("$abc".to_string()), Some("$def".to_string()), Some("$abc".to_string())];
    assert_eq!(event_for_action_target(&Some("$abc".to_string()), &ids), Some(1));
    assert_eq!(event_for_action_target(&Some("$def".to_string()), &ids), Some(2));
    assert_eq!(event_for_action_target(&Some("$ghi".to_string()), &ids), None);
    assert_eq!(event_for_action_target(&None, &ids), None);
    // Not an event ID: the leading `$` is missing.
    let plain = vec![Some("abc".to_string())];
    assert_eq!(event_for_action_target(&Some("abc".to_string()), &plain), None);
    // An event ID with a server name.
    let with_server = vec![Some("$39hvsi03hlne:example.com".to_string())];
    assert_eq!(event_for_action_target(&Some("$39hvsi03hlne:example.com".to_string()), &with_server), Some(0));
}

#[test]
fn report_reason_drops_empty_text() {
    assert_eq!(report_reason(String::new()), None);
    assert_eq!(report_reason("Spam".to_string()), Some("Spam".to_string()));
}
