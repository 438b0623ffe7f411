use session_view::member_selection::MemberSelection;
use session_view::permissions::{
    add_members_plan, can_be_given_custom_level, collect_power_levels, compute_changed,
    form_from_power_levels, member_level_changed, members_default_section, redact_others_changed,
    redact_own_changed, row_read_only, state_default_changed, MemberLevelPlan,
};
use session_view::power_levels::{
    event_power_level, saturate, set_event_power_level, EventKind, PowerLevel, RoomPowerLevels,
    MAX_SAFE_INT, MIN_SAFE_INT,
};

fn sample_power_levels() -> RoomPowerLevels {
    RoomPowerLevels {
        ban: 50,
        events: vec![(EventKind::RoomName, 50), (EventKind::RoomRedaction, 10), (EventKind::Other(7), 30)],
        events_default: 0,
        invite: 0,
        kick: 50,
        redact: 50,
        state_default: 50,
        users: vec![("@admin:example.org".to_string(), 100)],
        users_default: 0,
        notifications_room: 50,
    }
}

#[test]
fn saturate_clamps_to_matrix_integers() {
    assert_eq!(saturate(i64::MAX), MAX_SAFE_INT);
    assert_eq!(saturate(i64::MIN), MIN_SAFE_INT);
    assert_eq!(saturate(42), 42);
    assert_eq!(MAX_SAFE_INT, 9_007_199_254_740_991);
}

#[test]
fn infinite_power_level_is_above_every_integer() {
    assert!(PowerLevel::Int(MAX_SAFE_INT).lt(&PowerLevel::Infinite));
    assert!(!PowerLevel::Infinite.lt(&PowerLevel::Int(100)));
    assert_eq!(PowerLevel::Int(3).max(&PowerLevel::Infinite), PowerLevel::Infinite);
    assert_eq!(PowerLevel::Int(3).min(&PowerLevel::Int(-4)), PowerLevel::Int(-4));
}

#[test]
fn event_power_level_falls_back_to_default() {
    let pl = sample_power_levels();
    assert_eq!(event_power_level(&pl, EventKind::RoomName, PowerLevel::Int(50)), PowerLevel::Int(50));
    assert_eq!(event_power_level(&pl, EventKind::RoomTopic, PowerLevel::Int(75)), PowerLevel::Int(75));
}

#[test]
fn set_then_read_event_level() {
    let mut pl = sample_power_levels();
    set_event_power_level(&mut pl, EventKind::RoomTopic, PowerLevel::Int(80), PowerLevel::Int(50));
    assert_eq!(event_power_level(&pl, EventKind::RoomTopic, PowerLevel::Int(50)), PowerLevel::Int(80));
    // Setting the default removes the kind.
    set_event_power_level(&mut pl, EventKind::RoomName, PowerLevel::Int(50), PowerLevel::Int(50));
    assert!(!pl.events.iter().any(|(k, _)| *k == EventKind::RoomName));
    // An infinite level is not stored.
    set_event_power_level(&mut pl, EventKind::RoomAvatar, PowerLevel::Infinite, PowerLevel::Int(50));
    assert_eq!(event_power_level(&pl, EventKind::RoomAvatar, PowerLevel::Int(50)), PowerLevel::Int(50));
}

#[test]
fn form_presents_power_levels() {
    let pl = sample_power_levels();
    let form = form_from_power_levels(&pl);
    assert_eq!(form.messages, PowerLevel::Int(0));
    assert_eq!(form.redact_own, PowerLevel::Int(10));
    assert_eq!(form.redact_others, PowerLevel::Int(50));
    assert_eq!(form.name, PowerLevel::Int(50));
    assert_eq!(form.topic, PowerLevel::Int(50));
    assert_eq!(form.kick, PowerLevel::Int(50));
    assert_eq!(form.members_default, 0);
}

#[test]
fn reset_form_is_unchanged() {
    let pl = sample_power_levels();
    let form = form_from_power_levels(&pl);
    assert!(!compute_changed(&form, &pl, false));
    assert!(compute_changed(&form, &pl, true));
    let mut edited = form;
    edited.topic = PowerLevel::Int(100);
    assert!(compute_changed(&edited, &pl, false));
}

#[test]
fn saved_form_round_trips() {
    let pl = sample_power_levels();
    let mut form = form_from_power_levels(&pl);
    form.topic = PowerLevel::Int(100);
    form.members_default = i64::MAX;
    let saved = collect_power_levels(&form, &pl, vec![]);
    assert_eq!(event_power_level(&saved, EventKind::RoomTopic, PowerLevel::Int(50)), PowerLevel::Int(100));
    assert_eq!(saved.users_default, MAX_SAFE_INT);
    assert!(saved.users.is_empty());
    // The unknown kind is kept.
    assert!(saved.events.iter().any(|e| *e == (EventKind::Other(7), 30)));
    let mut expected = form;
    expected.members_default = MAX_SAFE_INT;
    assert_eq!(form_from_power_levels(&saved), expected);
    assert!(!compute_changed(&expected, &saved, false));
}

#[test]
fn redaction_rows_stay_ordered() {
    let pl = sample_power_levels();
    let mut form = form_from_power_levels(&pl);
    form.redact_own = PowerLevel::Int(75);
    let form = redact_own_changed(form);
    assert_eq!(form.redact_others, PowerLevel::Int(75));
    let mut form = form;
    form.redact_others = PowerLevel::Int(5);
    let form = redact_others_changed(form);
    assert_eq!(form.redact_own, PowerLevel::Int(5));
}

#[test]
fn state_rows_follow_new_state_default() {
    let pl = sample_power_levels();
    let mut form = form_from_power_levels(&pl);
    form.state_default = PowerLevel::Int(90);
    let form = state_default_changed(form, &pl);
    assert_eq!(form.topic, PowerLevel::Int(90));
    assert_eq!(form.name, PowerLevel::Int(50));
}

#[test]
fn rows_above_own_level_are_read_only() {
    assert!(row_read_only(true, PowerLevel::Int(50), PowerLevel::Int(100)));
    assert!(!row_read_only(true, PowerLevel::Int(50), PowerLevel::Int(50)));
    assert!(row_read_only(false, PowerLevel::Infinite, PowerLevel::Int(0)));
}

#[test]
fn members_default_upper_bound() {
    let pl = sample_power_levels();
    let section = members_default_section(&pl, PowerLevel::Int(50), true);
    assert_eq!(section.upper, 50);
    assert!(section.can_change_default);
    assert_eq!(section.privileged_count, 1);
    let section = members_default_section(&pl, PowerLevel::Infinite, false);
    assert_eq!(section.upper, MAX_SAFE_INT);
    assert!(!section.can_change_default);
}

#[test]
fn member_level_change_confirmations() {
    // Muting another member who was not muted, at our own level.
    let plan = member_level_changed(0, PowerLevel::Int(50), PowerLevel::Int(50), false, 0, PowerLevel::Int(0));
    assert_eq!(
        plan,
        MemberLevelPlan::Apply { level: 0, confirm_own_demotion: false, confirm_mute: true, confirm_same_as_own: true }
    );
    // Demoting oneself.
    let plan = member_level_changed(10, PowerLevel::Int(100), PowerLevel::Int(100), true, 0, PowerLevel::Int(100));
    assert_eq!(
        plan,
        MemberLevelPlan::Apply { level: 10, confirm_own_demotion: true, confirm_mute: false, confirm_same_as_own: false }
    );
    // Back to the level in the room.
    let plan = member_level_changed(50, PowerLevel::Int(10), PowerLevel::Int(50), true, 0, PowerLevel::Int(100));
    assert_eq!(
        plan,
        MemberLevelPlan::Apply { level: 50, confirm_own_demotion: false, confirm_mute: false, confirm_same_as_own: false }
    );
    assert_eq!(
        member_level_changed(50, PowerLevel::Int(50), PowerLevel::Int(0), false, 0, PowerLevel::Int(100)),
        MemberLevelPlan::Unchanged
    );
    assert_eq!(
        member_level_changed(50, PowerLevel::Infinite, PowerLevel::Int(0), false, 0, PowerLevel::Int(100)),
        MemberLevelPlan::Unchanged
    );
}

#[test]
fn add_members_plan_confirmations() {
    let plan = add_members_plan(-5, 0, PowerLevel::Int(100));
    assert_eq!(plan.level, -5);
    assert!(plan.confirm_mute);
    assert!(!plan.confirm_same_as_own);
    let plan = add_members_plan(i64::MAX, 0, PowerLevel::Int(MAX_SAFE_INT));
    assert_eq!(plan.level, MAX_SAFE_INT);
    assert!(plan.confirm_same_as_own);
}

#[test]
fn only_default_members_get_custom_levels() {
    assert!(can_be_given_custom_level(PowerLevel::Int(0), 0));
    assert!(!can_be_given_custom_level(PowerLevel::Int(50), 0));
    assert!(!can_be_given_custom_level(PowerLevel::Infinite, 0));
}

#[test]
fn member_selection_toggles_twice_back() {
    let mut selection = MemberSelection::new();
    assert!(!selection.can_add());
    assert!(selection.add_selected("@a:example.org"));
    assert!(!selection.add_selected("@a:example.org"));
    selection.toggle_selected("@b:example.org");
    assert!(selection.is_selected("@b:example.org"));
    selection.toggle_selected("@b:example.org");
    assert!(!selection.is_selected("@b:example.org"));
    assert!(selection.can_add());
    assert!(selection.remove_selected("@a:example.org"));
    assert!(!selection.remove_selected("@a:example.org"));
    assert!(!selection.can_add());
    selection.add_selected("@c:example.org");
    let taken = selection.take();
    assert_eq!(taken, vec!["@c:example.org".to_string()]);
    assert!(!selection.can_add());
}
