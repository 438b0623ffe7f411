use session_view::address_completion::{CompletionPopover, EntryEffect};
use session_view::addresses::{
    add_public_address_error, can_add_public_address, can_register_local_address, is_valid_room_alias,
    local_address_suffix, new_addresses, new_local_address, register_local_address_error,
    remove_public_address, set_main_public_address, update_local_addresses, update_public_addresses,
    update_public_row_is_main, AddAltAliasError, AddressError, AliasRemoval, PublicAddress,
    PublicRowSuffix, RegisterLocalAliasError,
};
use session_view::completion::{Key, KeyModifiers, Propagation};

fn address(alias: &str, is_main: bool) -> PublicAddress {
    PublicAddress { alias: alias.to_string(), is_main }
}

fn pairs(list: &[PublicAddress]) -> Vec<(String, bool)> {
    list.iter().map(|a| (a.alias.clone(), a.is_main)).collect()
}

fn strings(list: &[&str]) -> Vec<String> {
    list.iter().map(|s| s.to_string()).collect()
}

#[test]
fn public_addresses_keep_their_place() {
    let current = vec![address("#b:x.org", false), address("#gone:x.org", false), address("#a:x.org", true)];
    let alt = strings(&["#b:x.org", "#c:x.org"]);
    let res = update_public_addresses(&current, Some("#a:x.org"), &alt);
    assert_eq!(
        pairs(&res),
        vec![("#b:x.org".to_string(), false), ("#a:x.org".to_string(), true), ("#c:x.org".to_string(), false)]
    );
}

#[test]
fn public_addresses_main_changes() {
    let current = vec![address("#a:x.org", true), address("#b:x.org", false)];
    let alt = strings(&["#a:x.org"]);
    let res = update_public_addresses(&current, Some("#b:x.org"), &alt);
    assert_eq!(pairs(&res), vec![("#a:x.org".to_string(), false), ("#b:x.org".to_string(), true)]);
    let res = update_public_addresses(&res, None, &vec![]);
    assert!(res.is_empty());
}

#[test]
fn local_addresses_refresh_to_registered_ones() {
    let current = strings(&["#b:x.org", "#old:x.org", "#a:x.org", "#b:x.org"]);
    let registered = strings(&["#new:x.org", "#a:x.org", "#b:x.org", "#new:x.org"]);
    let res = update_local_addresses(&current, &registered);
    assert_eq!(res, strings(&["#b:x.org", "#a:x.org", "#new:x.org"]));
}

#[test]
fn room_alias_validation() {
    assert!(is_valid_room_alias("#room:example.org"));
    assert!(!is_valid_room_alias("room:example.org"));
    assert!(!is_valid_room_alias("#room"));
    assert!(!is_valid_room_alias(""));
}

#[test]
fn public_address_can_be_added() {
    let public = vec![address("#a:x.org", true)];
    assert!(can_add_public_address("#b:x.org", &public));
    assert!(!can_add_public_address("#a:x.org", &public));
    assert!(!can_add_public_address("", &public));
    assert!(!can_add_public_address("b:x.org", &public));
}

#[test]
fn local_address_is_built_from_localpart() {
    let suffix = local_address_suffix("example.org");
    assert_eq!(suffix, ":example.org");
    assert_eq!(new_local_address("room", &suffix), Some("#room:example.org".to_string()));
    assert_eq!(new_local_address("", &suffix), None);
    let local = strings(&["#other:example.org"]);
    assert!(can_register_local_address("room", &suffix, &local));
    assert!(!can_register_local_address("", &suffix, &local));
    assert!(!can_register_local_address("a:b", &suffix, &local));
    // An address that is registered already cannot be added again.
    assert!(!can_register_local_address("other", &suffix, &local));
}

#[test]
fn new_addresses_leave_out_public_ones() {
    let local = strings(&["#a:x.org", "#b:x.org", "#c:x.org"]);
    let public = vec![address("#b:x.org", false)];
    assert_eq!(new_addresses(&local, &public), strings(&["#a:x.org", "#c:x.org"]));
}

#[test]
fn public_row_suffix_follows_main() {
    assert_eq!(update_public_row_is_main(PublicRowSuffix::Nothing, true), PublicRowSuffix::MainTag);
    assert_eq!(update_public_row_is_main(PublicRowSuffix::MainTag, false), PublicRowSuffix::SetMainButton);
    assert_eq!(update_public_row_is_main(PublicRowSuffix::SetMainButton, false), PublicRowSuffix::SetMainButton);
}

#[test]
fn removing_and_setting_main_addresses() {
    assert_eq!(remove_public_address("#a:x.org", true), Some(AliasRemoval::Canonical));
    assert_eq!(remove_public_address("#a:x.org", false), Some(AliasRemoval::Alternative));
    assert_eq!(remove_public_address("a", false), None);
    assert!(set_main_public_address("#a:x.org", PublicRowSuffix::SetMainButton));
    assert!(!set_main_public_address("#a:x.org", PublicRowSuffix::MainTag));
}

#[test]
fn address_errors_are_explained() {
    assert_eq!(add_public_address_error(AddAltAliasError::NotRegistered), Some(AddressError::NotRegistered));
    assert_eq!(add_public_address_error(AddAltAliasError::InvalidRoomId), Some(AddressError::OtherRoom));
    assert_eq!(add_public_address_error(AddAltAliasError::Other), None);
    assert_eq!(
        register_local_address_error(RegisterLocalAliasError::AlreadyInUse),
        Some(AddressError::AlreadyRegistered)
    );
    assert_eq!(register_local_address_error(RegisterLocalAliasError::Other), None);
}

#[test]
fn address_completion_shows_while_focused() {
    let mut popover = CompletionPopover::new();
    popover.set_items(strings(&["#a:x.org", "#ab:x.org"]));
    popover.update_completion("#a", true);
    assert!(popover.visible);
    popover.update_completion("#a", false);
    assert!(!popover.visible);
    popover.set_items(strings(&["#a:x.org"]));
    popover.update_completion("#a:x.org", true);
    assert!(!popover.visible);
    popover.set_items(vec![]);
    popover.update_completion("#a", true);
    assert!(!popover.visible);
}

#[test]
fn address_completion_keys() {
    let none = KeyModifiers { lock: false, other: false };
    let mut popover = CompletionPopover::new();
    popover.set_items(strings(&["#a:x.org", "#b:x.org"]));
    // Hidden: only Tab is handled, and the selection does not move.
    assert_eq!(popover.key_pressed(Key::Tab, none, "#"), (Propagation::Stop, EntryEffect::UpdateCompletion));
    assert_eq!(popover.key_pressed(Key::Down, none, "#"), (Propagation::Proceed, EntryEffect::Nothing));
    assert_eq!(popover.key_pressed(Key::Escape, none, "#"), (Propagation::Proceed, EntryEffect::Nothing));
    assert_eq!(popover.selected, None);
    // Shown: the arrows move the selection within the rows.
    popover.update_completion("#", true);
    assert!(popover.visible);
    assert_eq!(popover.key_pressed(Key::Down, none, "#"), (Propagation::Stop, EntryEffect::Nothing));
    assert_eq!(popover.selected, Some(0));
    popover.key_pressed(Key::Down, none, "#");
    assert_eq!(popover.selected, Some(1));
    popover.key_pressed(Key::KpDown, none, "#");
    assert_eq!(popover.selected, Some(1));
    popover.key_pressed(Key::Up, none, "#");
    assert_eq!(popover.selected, Some(0));
    popover.key_pressed(Key::KpUp, none, "#");
    assert_eq!(popover.selected, Some(0));
    assert_eq!(popover.key_pressed(Key::Tab, none, "#"), (Propagation::Proceed, EntryEffect::Nothing));
    assert_eq!(
        popover.key_pressed(Key::Down, KeyModifiers { lock: true, other: false }, "#"),
        (Propagation::Proceed, EntryEffect::Nothing)
    );
    assert_eq!(popover.selected, Some(0));
    // Enter activates the selected row.
    assert_eq!(
        popover.key_pressed(Key::Return, none, "#"),
        (Propagation::Stop, EntryEffect::SetText("#a:x.org".to_string()))
    );
    assert!(!popover.visible);
    // Escape hides a shown popover.
    popover.update_completion("#", true);
    assert_eq!(popover.key_pressed(Key::Escape, none, "#"), (Propagation::Stop, EntryEffect::Nothing));
    assert!(!popover.visible);
    // Enter on a row whose text is already the text of the entry does nothing.
    popover.update_completion("#", true);
    assert_eq!(popover.key_pressed(Key::KpEnter, none, "#a:x.org"), (Propagation::Stop, EntryEffect::Nothing));
    assert!(popover.visible);
    assert_eq!(popover.activate_selected_row("#"), Some("#a:x.org".to_string()));
    assert!(!popover.visible);
    assert_eq!(popover.activate_selected_row("#"), None);
}
