use session_view::completion::{
    find_search_term, is_possible_word_char, Key, KeyModifiers, MentionKeyEffect, CompletionPopover, Propagation,
    SearchTerm, SearchTermTarget, MAX_ROWS,
};
use session_view::create_poll::{poll_start_content, CreatePollDialog, MAX_ANSWERS, MIN_ANSWERS};
use session_view::draft::{edit_text, mention_target, parse_draft, should_schedule_save, DraftSegment, MentionTarget};
use session_view::edit_details::{value_to_send, was_edited, ActionState, AvatarEditState, AvatarToast, EditDetailsSubpage};
use session_view::event_actions::MessageKind;
use session_view::markdown::in_escaped_markdown;
use session_view::text::trim;

fn positions(text: &str) -> Vec<bool> {
    vec![true; text.chars().count() + 1]
}

#[test]
fn search_term_of_a_mention() {
    let text = "Hello @ali";
    let word = find_search_term(text, &positions(text), 10, false, None).expect("a word");
    assert_eq!((word.start, word.end), (6, 10));
    assert_eq!(word.term.target, SearchTermTarget::Member);
    assert_eq!(word.term.term, "ali");
    let text = "see #roo";
    let word = find_search_term(text, &positions(text), 8, false, None).expect("a word");
    assert_eq!(word.term.target, SearchTermTarget::Room);
    assert_eq!(word.term.term, "roo");
}

#[test]
fn no_search_term_without_sigil() {
    let text = "Hello ali";
    assert!(find_search_term(text, &positions(text), 9, false, None).is_none());
    let word = find_search_term(text, &positions(text), 9, true, None).expect("triggered");
    assert_eq!(word.term.term, "ali");
}

#[test]
fn search_term_of_another_word_is_dropped() {
    let text = "@bob @ali";
    assert!(find_search_term(text, &positions(text), 9, false, Some("bo")).is_none());
    assert!(find_search_term(text, &positions(text), 9, false, Some("al")).is_some());
}

#[test]
fn words_in_code_are_not_completed() {
    let text = "`@ali` b";
    let chars: Vec<char> = text.chars().collect();
    assert!(in_escaped_markdown(text, &chars, 1, 5));
    // The search stops at the first event that ends before the end of the word.
    let text = "a `@ali` b";
    let chars: Vec<char> = text.chars().collect();
    assert!(!in_escaped_markdown(text, &chars, 3, 7));
    let text = "a @ali b";
    let chars: Vec<char> = text.chars().collect();
    assert!(!in_escaped_markdown(text, &chars, 2, 6));
    let text = "`@ali` x";
    assert!(find_search_term(text, &positions(text), 5, false, None).is_none());
}

#[test]
fn unicode_letters_are_word_characters() {
    assert!(is_possible_word_char('é'));
    assert!(is_possible_word_char('#'));
    assert!(!is_possible_word_char(' '));
    assert!(!is_possible_word_char('!'));
}

#[test]
fn search_term_is_normalized() {
    let term = SearchTerm { target: SearchTermTarget::Member, term: "Élodie".to_string() };
    assert_eq!(term.into_normalized_parts(), (SearchTermTarget::Member, Some("elodie".to_string())));
    let term = SearchTerm { target: SearchTermTarget::Room, term: String::new() };
    assert_eq!(term.into_normalized_parts(), (SearchTermTarget::Room, None));
}

#[test]
fn mention_popover_keys() {
    let none = KeyModifiers { lock: false, other: false };
    let mut popover = CompletionPopover::new();
    assert_eq!(popover.handle_key_pressed(Key::Tab, none), (Propagation::Stop, MentionKeyEffect::TriggerCompletion));
    popover.show_results(100);
    assert_eq!(popover.visible_rows, MAX_ROWS);
    assert_eq!(popover.selected, Some(0));
    popover.handle_key_pressed(Key::Down, none);
    assert_eq!(popover.selected, Some(1));
    assert_eq!(popover.handle_key_pressed(Key::Return, none), (Propagation::Stop, MentionKeyEffect::ActivateRow(1)));
    popover.handle_key_pressed(Key::Escape, none);
    assert!(popover.inhibited);
    assert!(!popover.visible);
    assert!(!popover.update_completion(true));
    assert!(!popover.update_completion(false));
    assert!(!popover.inhibited);
}

#[test]
fn draft_is_parsed_into_mentions() {
    let text = "Hi <org.gnome.fractal.mention>@a:x.org</org.gnome.fractal.mention>, see <org.gnome.fractal.mention>#r:x.org</org.gnome.fractal.mention>";
    let segments = parse_draft(text);
    let view: Vec<(bool, String)> = segments
        .into_iter()
        .map(|s| match s {
            DraftSegment::Text(t) => (false, t),
            DraftSegment::Mention(m) => (true, m),
        })
        .collect();
    assert_eq!(
        view,
        vec![
            (false, "Hi ".to_string()),
            (true, "@a:x.org".to_string()),
            (false, ", see ".to_string()),
            (true, "#r:x.org".to_string()),
        ]
    );
}

#[test]
fn draft_with_unclosed_mention_keeps_text() {
    let text = "a <org.gnome.fractal.mention>b";
    let segments = parse_draft(text);
    assert_eq!(segments.len(), 1);
    assert!(matches!(&segments[0], DraftSegment::Text(t) if t == text));
    assert!(parse_draft("").is_empty());
}

#[test]
fn parse_then_serialize_is_identity() {
    let text = "<org.gnome.fractal.mention>@room</org.gnome.fractal.mention>x<org.gnome.fractal.mention>";
    let rebuilt: String = parse_draft(text)
        .into_iter()
        .map(|s| match s {
            DraftSegment::Text(t) => t,
            DraftSegment::Mention(m) => format!("<org.gnome.fractal.mention>{m}</org.gnome.fractal.mention>"),
        })
        .collect();
    assert_eq!(rebuilt, text);
}

#[test]
fn mention_targets() {
    assert_eq!(mention_target("@room"), MentionTarget::AtRoom);
    assert_eq!(mention_target("@alice:example.org"), MentionTarget::User);
    assert_eq!(mention_target("@alice"), MentionTarget::Invalid);
    assert_eq!(mention_target("#room:example.org"), MentionTarget::Room);
    assert_eq!(mention_target("!abc:example.org"), MentionTarget::Room);
    assert_eq!(mention_target("room"), MentionTarget::Invalid);
}

#[test]
fn edit_text_of_messages() {
    assert_eq!(edit_text(MessageKind::Emote, "waves"), Some("/me waves".to_string()));
    assert_eq!(edit_text(MessageKind::Text, "hi"), Some("hi".to_string()));
    assert_eq!(edit_text(MessageKind::Notice, "hi"), None);
    assert!(should_schedule_save(false, false));
    assert!(!should_schedule_save(true, false));
}

#[test]
fn poll_creation() {
    let mut dialog = CreatePollDialog::new();
    assert_eq!(dialog.answers.len(), MIN_ANSWERS);
    assert!(!dialog.can_remove_answers());
    dialog.remove_answer(0);
    assert_eq!(dialog.answers.len(), MIN_ANSWERS);
    dialog.add_answer();
    dialog.answers[0] = "  Yes ".to_string();
    dialog.answers[1] = "   ".to_string();
    dialog.answers[2] = "No".to_string();
    assert!(dialog.validate(" Lunch? "));
    assert!(!dialog.validate("  "));
    let poll = dialog.create(" Lunch? ", true).expect("a poll");
    assert_eq!(poll.question, "Lunch?");
    assert_eq!(poll.answers, vec!["Yes".to_string(), "No".to_string()]);
    assert_eq!(poll.fallback_text, "Lunch?\n1. Yes\n2. No");
    assert!(poll.disclosed);
    dialog.answers[2] = String::new();
    assert!(dialog.create("Lunch?", false).is_none());
}

#[test]
fn poll_rows_are_bounded() {
    let mut dialog = CreatePollDialog::new();
    for _ in 0..30 {
        dialog.add_answer();
    }
    assert_eq!(dialog.answers.len(), MAX_ANSWERS);
    assert!(!dialog.can_add_answer());
    dialog.answers[0] = "a".to_string();
    dialog.answers[19] = "b".to_string();
    let poll = dialog.create("q", false).expect("a poll");
    assert_eq!(poll.fallback_text, "q\n1. a\n2. b");
}

#[test]
fn whitespace_is_trimmed_by_unicode_rules() {
    assert_eq!(trim("\u{3000} x \n"), "x");
    assert_eq!(trim("   "), "");
    assert_eq!(value_to_send("  Room  "), Some("Room".to_string()));
    assert_eq!(value_to_send(" \t "), None);
}

#[test]
fn name_edits() {
    assert!(!was_edited(Some("Room"), "Room"));
    assert!(!was_edited(Some("Room"), " Room "));
    assert!(was_edited(Some("Room"), "Room 2"));
    assert!(!was_edited(None, ""));
    assert!(was_edited(Some("Room"), ""));
}

#[test]
fn edit_details_changes() {
    let mut page = EditDetailsSubpage::new(true, true);
    assert_eq!(page.change_name(Some("Room"), "Room", true), None);
    let sent = page.change_name(Some("Room"), " New ", true);
    assert_eq!(sent, Some((0, Some("New".to_string()))));
    assert_eq!(page.name_button, ActionState::Loading);
    assert!(!page.name_changed(Some("Other"), true));
    assert!(page.name_changed(Some("New"), true));
    assert_eq!(page.name_button, ActionState::Confirm);
    assert!(page.name_sensitive);
    // A failed change offers to retry.
    let (first, _) = page.change_name(Some("New"), "Newer", true).expect("change");
    assert!(page.name_change_failed(first));
    assert_eq!(page.name_button, ActionState::Retry);
    // A late failure of an earlier change leaves the newer change under way.
    let (older, _) = page.change_name(Some("New"), "Newest", true).expect("change");
    let (newer, _) = page.change_name(Some("New"), "Latest", true).expect("change");
    assert_ne!(older, newer);
    assert!(!page.name_change_failed(older));
    assert_eq!(page.name_button, ActionState::Loading);
    assert!(!page.name_sensitive);
    assert_eq!(page.changing_name.as_ref().map(|c| c.id), Some(newer));
    assert!(page.name_change_failed(newer));
    assert!(page.changing_name.is_none());
    // Topics: a missing topic counts as empty.
    let sent = page.change_topic(Some("T"), "", true);
    assert_eq!(sent.map(|(_, v)| v), Some(None));
    assert!(!page.topic_changed(None, true));
    // Avatars.
    assert!(page.remove_avatar(true).is_some());
    assert_eq!(page.avatar_changed(Some("mxc://x.org/z")), None);
    assert_eq!(page.avatar, AvatarEditState::RemovalInProgress);
    assert_eq!(page.avatar_changed(None), Some(AvatarToast::Removed));
    assert_eq!(page.avatar, AvatarEditState::Success);
    assert!(page.start_avatar_edit(true));
    page.avatar_uploaded("mxc://x.org/a".to_string());
    assert_eq!(page.avatar_changed(Some("mxc://x.org/b")), None);
    assert_eq!(page.avatar_changed(Some("mxc://x.org/a")), Some(AvatarToast::Changed));
}

#[test]
fn created_poll_becomes_event_content() {
    let mut dialog = CreatePollDialog::new();
    dialog.answers[0] = "Yes".to_string();
    dialog.answers[1] = "No".to_string();
    let poll = dialog.create("Lunch?", true).expect("a poll");
    let content = poll_start_content(poll, vec!["id1".to_string(), "id2".to_string()]).expect("content");
    assert_eq!(content.text.as_deref(), Some("Lunch?\n1. Yes\n2. No"));
    assert_eq!(content.poll_start.question.text, "Lunch?");
    assert_eq!(content.poll_start.answers.len(), 2);
    assert_eq!(content.poll_start.answers[0].id, "id1");
    assert_eq!(content.poll_start.answers[1].text, "No");
    assert!(matches!(content.poll_start.kind, ruma::events::poll::start::PollKind::Disclosed));
}

#[test]
fn undisclosed_poll_content() {
    let mut dialog = CreatePollDialog::new();
    dialog.answers[0] = "Tea".to_string();
    dialog.answers[1] = "Coffee".to_string();
    let poll = dialog.create("Drink?", false).expect("a poll");
    let content = poll_start_content(poll, vec!["a".to_string(), "b".to_string()]).expect("content");
    assert_eq!(content.poll_start.question.text, "Drink?");
    assert_eq!(content.text.as_deref(), Some("Drink?\n1. Tea\n2. Coffee"));
    assert_eq!(content.poll_start.answers[1].id, "b");
    assert!(matches!(content.poll_start.kind, ruma::events::poll::start::PollKind::Undisclosed));
}
