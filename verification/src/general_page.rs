use vstd::prelude::*;

verus! {

/// The visibility of the history of a room to its members.
#[derive(Clone, Copy, Debug, PartialEq, Eq, Structural)]
pub enum HistoryVisibilityValue {
    WorldReadable,
    Shared,
    Invited,
    Joined,
    Unsupported,
}

/// The notifications setting of a room.
#[derive(Clone, Copy, Debug, PartialEq, Eq, Structural)]
pub enum NotificationsRoomSetting {
    Global,
    All,
    MentionsOnly,
    Mute,
}

/// What the own user may change in a room.
#[derive(Clone, Copy, Debug, PartialEq, Eq, Structural)]
pub struct RoomPermissions {
    pub can_change_avatar: bool,
    pub can_change_name: bool,
    pub can_change_topic: bool,
    /// May send the power levels state event.
    pub can_send_power_levels: bool,
    /// May send the join rules state event.
    pub can_send_join_rules: bool,
    /// May send the guest access state event.
    pub can_send_guest_access: bool,
    /// May send the canonical alias state event.
    pub can_send_canonical_alias: bool,
    /// May send the history visibility state event.
    pub can_send_history_visibility: bool,
    /// May send the encryption state event.
    pub can_send_encryption: bool,
    /// May send the tombstone state event.
    pub can_send_tombstone: bool,
}

/// Whether notifications are enabled for the account and for this session.
#[derive(Clone, Copy, Debug, PartialEq, Eq, Structural)]
pub struct NotificationsSettings {
    pub account_enabled: bool,
    pub session_enabled: bool,
}

/// What the general page of the room details presents.
#[derive(Debug)]
pub struct RoomFacts {
    pub is_direct: bool,
    /// Whether the own user is joined to the room.
    pub is_joined: bool,
    /// Whether the room is in the category of rooms the own user left.
    pub is_left: bool,
    /// The count of joined members that the homeserver gave.
    pub joined_members_server: u64,
    /// The count of joined members in the local list of members.
    pub joined_members_local: u32,
    /// The notifications settings of the session, when there is a session.
    pub notifications: Option<NotificationsSettings>,
    pub canonical_alias: Option<String>,
    pub alt_aliases: Vec<String>,
    /// Whether the current join rule is one that the page can edit.
    pub join_rule_can_be_edited: bool,
    pub guests_allowed: bool,
    pub history_visibility: HistoryVisibilityValue,
    pub is_encrypted: bool,
    pub is_tombstoned: bool,
    pub federated: bool,
    /// Whether the information needed to upgrade the room is there.
    pub has_upgrade_info: bool,
    pub permissions: RoomPermissions,
}

/// The title of the members section.
#[derive(Clone, Copy, Debug, PartialEq, Eq, Structural)]
pub enum MembersTitle {
    Member,
    Members,
}

/// The members section: the list of members of a direct room with few
/// members, or a row with the count of members.
#[derive(Clone, Copy, Debug, PartialEq, Eq, Structural)]
pub enum MembersSection {
    Direct { title: MembersTitle, has_members: bool },
    Count { title: MembersTitle, count: u64 },
}

/// A row with a switch.
#[derive(Clone, Copy, Debug, PartialEq, Eq, Structural)]
pub struct SwitchRow {
    pub active: bool,
    pub loading: bool,
    pub read_only: bool,
}

/// The rows of the addresses group.
#[derive(Debug)]
pub struct AddressRows {
    /// The title of the row of the main address, if there is one.
    pub main: Option<String>,
    /// The titles of the rows of the other addresses.
    pub alt: Vec<String>,
}

/// The general page of the room details.
#[derive(Debug)]
pub struct GeneralPage {
    pub edit_details_visible: bool,
    pub members: MembersSection,
    pub notifications_visible: bool,
    pub notifications_sensitive: bool,
    /// Whether a change of the notifications setting is under way.
    pub notifications_loading: bool,
    pub edit_addresses_visible: bool,
    pub addresses: AddressRows,
    pub no_addresses_visible: bool,
    pub join_rule_activatable: bool,
    pub guest_access: SwitchRow,
    pub publish: SwitchRow,
    /// Whether the room is published in the directory of the homeserver.
    pub is_published: bool,
    pub history_visibility_text: HistoryVisibilityValue,
    pub history_visibility_activatable: bool,
    pub encryption: SwitchRow,
    pub upgrade_visible: bool,
    pub federated: bool,
}

/// The title for a count of members.
pub open spec fn spec_members_title(count: int) -> MembersTitle {
    if count == 1 {
        MembersTitle::Member
    } else {
        MembersTitle::Members
    }
}

/// The members section: a direct room with fewer than five joined members
/// lists them; another room shows the count of joined members, the larger of
/// the local count and the count of the homeserver, the own user taken out
/// of the latter once they left.
pub open spec fn spec_members_section(f: RoomFacts) -> MembersSection {
    if f.is_direct && f.joined_members_local < 5 {
        MembersSection::Direct {
            title: spec_members_title(f.joined_members_local as int),
            has_members: f.joined_members_local > 0,
        }
    } else {
        let server: int = if f.is_left && f.joined_members_server > 0 {
            f.joined_members_server - 1
        } else {
            f.joined_members_server as int
        };
        let count: int = if server >= f.joined_members_local {
            server
        } else {
            f.joined_members_local as int
        };
        MembersSection::Count { title: spec_members_title(count), count: count as u64 }
    }
}

/// The members section of the room.
pub fn members_section(f: &RoomFacts) -> (res: MembersSection)
    ensures
        res == spec_members_section(*f),
{
    let local = f.joined_members_local;
    if f.is_direct && local < 5 {
        let title = if local == 1 {
            MembersTitle::Member
        } else {
            MembersTitle::Members
        };
        MembersSection::Direct { title, has_members: local > 0 }
    } else {
        let mut server = f.joined_members_server;
        if f.is_left {
            server = server.saturating_sub(1);
        }
        let local_count: u64 = local as u64;
        let count = if server >= local_count {
            server
        } else {
            local_count
        };
        let title = if count == 1 {
            MembersTitle::Member
        } else {
            MembersTitle::Members
        };
        MembersSection::Count { title, count }
    }
}

/// Whether the button to edit the name, topic and avatar shows: the room is
/// not direct and one of them can be changed.
pub open spec fn spec_edit_details_visible(f: RoomFacts) -> bool {
    !f.is_direct && (f.permissions.can_change_name || f.permissions.can_change_topic
        || f.permissions.can_change_avatar)
}

/// Whether the addresses can be edited.
pub open spec fn spec_edit_addresses_visible(f: RoomFacts) -> bool {
    f.is_joined && f.permissions.can_send_power_levels
}

/// Whether the join rule row can be activated.
pub open spec fn spec_join_rule_activatable(f: RoomFacts) -> bool {
    f.join_rule_can_be_edited && f.permissions.can_send_join_rules
}

/// The guest access row.
pub open spec fn spec_guest_access(f: RoomFacts) -> SwitchRow {
    SwitchRow { active: f.guests_allowed, loading: false, read_only: !f.permissions.can_send_guest_access }
}

/// Whether the history visibility row can be activated.
pub open spec fn spec_history_visibility_activatable(f: RoomFacts) -> bool {
    !(f.history_visibility is Unsupported) && f.permissions.can_send_history_visibility
}

/// The encryption row: encryption can only be enabled, never disabled.
pub open spec fn spec_encryption(f: RoomFacts) -> SwitchRow {
    SwitchRow {
        active: f.is_encrypted,
        loading: false,
        read_only: !(!f.is_encrypted && f.permissions.can_send_encryption),
    }
}

/// Whether the button to upgrade the room shows.
pub open spec fn spec_upgrade_visible(f: RoomFacts) -> bool {
    !f.is_direct && !f.is_tombstoned && f.permissions.can_send_tombstone && f.has_upgrade_info
}

/// Whether no address shows.
pub open spec fn spec_no_addresses(f: RoomFacts) -> bool {
    f.canonical_alias is None && f.alt_aliases@.len() == 0
}

/// The views of a list of strings.
pub open spec fn strings_view(v: Seq<String>) -> Seq<Seq<char>> {
    v.map_values(|s: String| s@)
}

/// The view of an optional string.
pub open spec fn opt_string_view(s: Option<String>) -> Option<Seq<char>> {
    match s {
        Some(s) => Some(s@),
        None => None,
    }
}

impl AddressRows {
    /// No rows.
    pub fn new() -> (res: Self)
        ensures
            res.main is None,
            res.alt@.len() == 0,
    {
        AddressRows { main: None, alt: Vec::new() }
    }

    /// Brings the rows in line with the addresses of the room: the main
    /// address on top, then a row for each other address, in order; the rows
    /// that are there already are reused, those left over are removed.
    /// Returns whether the room has no address at all.
    pub fn update(&mut self, canonical_alias: &Option<String>, alt_aliases: &Vec<String>) -> (no_addresses: bool)
        ensures
            opt_string_view(final(self).main) == opt_string_view(*canonical_alias),
            strings_view(final(self).alt@) == strings_view(alt_aliases@),
            no_addresses == (canonical_alias is None && alt_aliases@.len() == 0),
    {
        match canonical_alias {
            Some(alias) => {
                if self.main.is_none() {
                    // The main row goes on top: the other rows are added again below it.
                    self.alt = Vec::new();
                }
                self.main = Some(alias.clone());
            },
            None => {
                self.main = None;
            },
        }
        let count = alt_aliases.len();
        if count == 0 {
            self.alt = Vec::new();
        } else {
            let mut pos: usize = 0;
            while pos < count
                invariant
                    count == alt_aliases@.len(),
                    0 <= pos <= count,
                    opt_string_view(self.main) == opt_string_view(*canonical_alias),
                    self.alt@.len() >= pos,
                    forall|k: int| 0 <= k < pos ==> #[trigger] self.alt@[k]@ == alt_aliases@[k]@,
                decreases count - pos,
            {
                let title = alt_aliases[pos].clone();
                if pos < self.alt.len() {
                    self.alt.set(pos, title);
                } else {
                    self.alt.push(title);
                }
                pos = pos + 1;
            }
            while self.alt.len() > count
                invariant
                    count == alt_aliases@.len(),
                    opt_string_view(self.main) == opt_string_view(*canonical_alias),
                    self.alt@.len() >= count,
                    forall|k: int| 0 <= k < count ==> #[trigger] self.alt@[k]@ == alt_aliases@[k]@,
                decreases self.alt@.len(),
            {
                self.alt.pop();
            }
        }
        proof {
            assert(strings_view(self.alt@) =~= strings_view(alt_aliases@));
        }
        canonical_alias.is_none() && count == 0
    }
}

impl GeneralPage {
    /// The page before a room is set.
    pub fn new() -> (res: Self)
        ensures
            !res.notifications_loading,
            !res.is_published,
            res.publish == (SwitchRow { active: false, loading: true, read_only: true }),
    {
        GeneralPage {
            edit_details_visible: false,
            members: MembersSection::Count { title: MembersTitle::Members, count: 0 },
            notifications_visible: false,
            notifications_sensitive: false,
            notifications_loading: false,
            edit_addresses_visible: false,
            addresses: AddressRows::new(),
            no_addresses_visible: true,
            join_rule_activatable: false,
            guest_access: SwitchRow { active: false, loading: false, read_only: true },
            publish: SwitchRow { active: false, loading: true, read_only: true },
            is_published: false,
            history_visibility_text: HistoryVisibilityValue::Unsupported,
            history_visibility_activatable: false,
            encryption: SwitchRow { active: false, loading: false, read_only: true },
            upgrade_visible: false,
            federated: false,
        }
    }

    /// Updates the section about notifications: hidden when the own user is
    /// not joined; otherwise, when there is a session, shown, and sensitive
    /// when notifications are enabled for the account and the session and no
    /// change is under way; left as it is without a session.
    pub fn update_notifications(&mut self, f: &RoomFacts)
        ensures
            final(self).notifications_visible == (if !f.is_joined {
                false
            } else if f.notifications is Some {
                true
            } else {
                old(self).notifications_visible
            }),
            final(self).notifications_sensitive == (match f.notifications {
                Some(s) => if f.is_joined {
                    s.account_enabled && s.session_enabled && !old(self).notifications_loading
                } else {
                    old(self).notifications_sensitive
                },
                None => old(self).notifications_sensitive,
            }),
            final(self).members == old(self).members,
            final(self).addresses.main == old(self).addresses.main,
            final(self).addresses.alt@ == old(self).addresses.alt@,
            final(self).no_addresses_visible == old(self).no_addresses_visible,
            final(self).notifications_loading == old(self).notifications_loading,
            final(self).publish == old(self).publish,
            final(self).is_published == old(self).is_published,
    {
        if !f.is_joined {
            self.notifications_visible = false;
            return;
        }
        match f.notifications {
            Some(settings) => {
                self.notifications_sensitive = settings.account_enabled && settings.session_enabled
                    && !self.notifications_loading;
                self.notifications_visible = true;
            },
            None => {},
        }
    }

    /// Updates the permission-dependent rows and the rows that show the state
    /// of the room, as a change of permissions or of the room requires.
    pub fn update_rows(&mut self, f: &RoomFacts)
        ensures
            final(self).edit_details_visible == spec_edit_details_visible(*f),
            final(self).edit_addresses_visible == spec_edit_addresses_visible(*f),
            final(self).join_rule_activatable == spec_join_rule_activatable(*f),
            final(self).join_rule_activatable == (f.join_rule_can_be_edited && f.permissions.can_send_join_rules),
            final(self).guest_access == spec_guest_access(*f),
            final(self).publish.read_only == !f.permissions.can_send_canonical_alias,
            final(self).publish.active == old(self).publish.active,
            final(self).publish.loading == old(self).publish.loading,
            final(self).history_visibility_text == f.history_visibility,
            final(self).history_visibility_activatable == spec_history_visibility_activatable(*f),
            final(self).encryption == spec_encryption(*f),
            final(self).upgrade_visible == spec_upgrade_visible(*f),
            final(self).federated == f.federated,
            final(self).is_published == old(self).is_published,
            final(self).members == old(self).members,
            final(self).addresses.main == old(self).addresses.main,
            final(self).addresses.alt@ == old(self).addresses.alt@,
            final(self).no_addresses_visible == old(self).no_addresses_visible,
            final(self).notifications_loading == old(self).notifications_loading,
            final(self).notifications_visible == old(self).notifications_visible,
            final(self).notifications_sensitive == old(self).notifications_sensitive,
    {
        let p = &f.permissions;
        self.edit_details_visible = !f.is_direct && (p.can_change_name || p.can_change_topic
            || p.can_change_avatar);
        self.edit_addresses_visible = f.is_joined && p.can_send_power_levels;
        self.join_rule_activatable = f.join_rule_can_be_edited && p.can_send_join_rules;
        self.guest_access = SwitchRow {
            active: f.guests_allowed,
            loading: false,
            read_only: !p.can_send_guest_access,
        };
        self.publish.read_only = !p.can_send_canonical_alias;
        self.history_visibility_text = f.history_visibility;
        self.history_visibility_activatable = f.history_visibility != HistoryVisibilityValue::Unsupported
            && p.can_send_history_visibility;
        self.encryption = SwitchRow {
            active: f.is_encrypted,
            loading: false,
            read_only: !(!f.is_encrypted && p.can_send_encryption),
        };
        self.upgrade_visible = !f.is_direct && !f.is_tombstoned && p.can_send_tombstone
            && f.has_upgrade_info;
        self.federated = f.federated;
    }

    /// Presents a room: every section of the page is brought in line with it.
    pub fn set_room(&mut self, f: &RoomFacts)
        ensures
            final(self).members == spec_members_section(*f),
            final(self).edit_details_visible == spec_edit_details_visible(*f),
            final(self).edit_addresses_visible == spec_edit_addresses_visible(*f),
            opt_string_view(final(self).addresses.main) == opt_string_view(f.canonical_alias),
            strings_view(final(self).addresses.alt@) == strings_view(f.alt_aliases@),
            final(self).no_addresses_visible == spec_no_addresses(*f),
            final(self).join_rule_activatable == spec_join_rule_activatable(*f),
            final(self).join_rule_activatable == (f.join_rule_can_be_edited && f.permissions.can_send_join_rules),
            final(self).guest_access == spec_guest_access(*f),
            final(self).publish.read_only == !f.permissions.can_send_canonical_alias,
            final(self).history_visibility_text == f.history_visibility,
            final(self).history_visibility_activatable == spec_history_visibility_activatable(*f),
            final(self).encryption == spec_encryption(*f),
            final(self).upgrade_visible == spec_upgrade_visible(*f),
            final(self).federated == f.federated,
            !f.is_joined ==> !final(self).notifications_visible,
            f.is_joined && f.notifications is Some ==> final(self).notifications_visible,
            f.is_joined ==> (match f.notifications {
                Some(s) => final(self).notifications_sensitive == (s.account_enabled && s.session_enabled
                    && !old(self).notifications_loading),
                None => final(self).notifications_sensitive == old(self).notifications_sensitive,
            }),
            !f.is_joined ==> final(self).notifications_sensitive == old(self).notifications_sensitive,
            f.is_joined && f.notifications is None ==> final(self).notifications_visible == old(
                self,
            ).notifications_visible,
            final(self).notifications_loading == old(self).notifications_loading,
            final(self).publish.active == old(self).publish.active,
            final(self).publish.loading == old(self).publish.loading,
            final(self).is_published == old(self).is_published,
    {
        self.members = members_section(f);
        self.update_notifications(f);
        let no_addresses = self.addresses.update(&f.canonical_alias, &f.alt_aliases);
        self.no_addresses_visible = no_addresses;
        self.update_rows(f);
    }

    /// Marks the row of the setting being applied as loading, and only it.
    /// Returns, for the rows Global, All, MentionsOnly and Mute in this
    /// order, whether each shows a spinner.
    pub fn set_notifications_loading(&mut self, loading: bool, setting: NotificationsRoomSetting) -> (res: (
        bool,
        bool,
        bool,
        bool,
    ))
        ensures
            final(self).notifications_loading == loading,
            final(self).notifications_sensitive == old(self).notifications_sensitive,
            res == (
                loading && setting is Global,
                loading && setting is All,
                loading && setting is MentionsOnly,
                loading && setting is Mute,
            ),
    {
        self.notifications_loading = loading;
        (
            loading && setting == NotificationsRoomSetting::Global,
            loading && setting == NotificationsRoomSetting::All,
            loading && setting == NotificationsRoomSetting::MentionsOnly,
            loading && setting == NotificationsRoomSetting::Mute,
        )
    }

    /// Handles the choice of a notifications setting: when it differs from
    /// the current one and there is a session, the section is made
    /// insensitive, the chosen row loading, and `true` is returned (the
    /// setting is to be sent); otherwise nothing changes.
    pub fn notifications_setting_changed(
        &mut self,
        setting: NotificationsRoomSetting,
        current: NotificationsRoomSetting,
        has_session: bool,
    ) -> (send: bool)
        ensures
            send == (has_session && setting != current),
            send ==> !final(self).notifications_sensitive && final(self).notifications_loading,
            !send ==> final(self).notifications_sensitive == old(self).notifications_sensitive
                && final(self).notifications_loading == old(self).notifications_loading,
    {
        if !has_session || setting == current {
            return false;
        }
        self.notifications_sensitive = false;
        let _ = self.set_notifications_loading(true, setting);
        true
    }

    /// Handles the switch of guest access: when it differs from the room, the
    /// row is made loading and read-only, and whether guests may join is
    /// returned, to be sent; otherwise `None`.
    pub fn toggle_guest_access(&mut self, guests_allowed: bool) -> (res: Option<bool>)
        ensures
            res == (if old(self).guest_access.active == guests_allowed {
                None
            } else {
                Some(old(self).guest_access.active)
            }),
            res is Some ==> final(self).guest_access.loading && final(self).guest_access.read_only,
            res is None ==> final(self).guest_access == old(self).guest_access,
    {
        let wanted = self.guest_access.active;
        if wanted == guests_allowed {
            return None;
        }
        self.guest_access.loading = true;
        self.guest_access.read_only = true;
        Some(wanted)
    }

    /// Takes the answer of the homeserver on the visibility of the room in
    /// its directory (`Some(is_public)`, or `None` when the request failed)
    /// and ends loading.
    pub fn publish_visibility_loaded(&mut self, is_public: Option<bool>)
        ensures
            !final(self).publish.loading,
            final(self).publish.read_only == old(self).publish.read_only,
            final(self).is_published == (match is_public {
                Some(p) => p,
                None => old(self).is_published,
            }),
            final(self).publish.active == (match is_public {
                Some(p) => p,
                None => old(self).publish.active,
            }),
    {
        match is_public {
            Some(p) => {
                self.is_published = p;
                self.publish.active = p;
            },
            None => {},
        }
        self.publish.loading = false;
    }

    /// Handles the switch to publish the room: when it differs from whether
    /// the room is published, the row is made loading and read-only, and
    /// whether to publish is returned, to be sent; otherwise `None`.
    pub fn toggle_publish(&mut self) -> (res: Option<bool>)
        ensures
            res == (if old(self).is_published == old(self).publish.active {
                None
            } else {
                Some(old(self).publish.active)
            }),
            res is Some ==> final(self).publish.loading && final(self).publish.read_only,
            res is None ==> final(self).publish == old(self).publish,
            final(self).is_published == old(self).is_published,
    {
        let publish = self.publish.active;
        if self.is_published == publish {
            return None;
        }
        self.publish.loading = true;
        self.publish.read_only = true;
        Some(publish)
    }

    /// Handles the switch to enable encryption: it goes on (after the user
    /// confirms) only when the room is not encrypted and the switch is on, and
    /// then the row is made loading and read-only.
    pub fn enable_encryption(&mut self, is_encrypted: bool) -> (ask: bool)
        ensures
            ask == (!is_encrypted && old(self).encryption.active),
            ask ==> final(self).encryption.loading && final(self).encryption.read_only,
            !ask ==> final(self).encryption == old(self).encryption,
    {
        if is_encrypted || !self.encryption.active {
            return false;
        }
        self.encryption.loading = true;
        self.encryption.read_only = true;
        true
    }
}

/// A row or button that changes the room is offered only to who may make
/// the change, and to them whenever the room allows it: the join rule row
/// needs the right to send `m.room.join_rules`, the addresses the right to
/// send the power levels (and a joined room), guest access the right to send
/// `m.room.guest_access`, the history visibility the right to send
/// `m.room.history_visibility`, encryption the right to send
/// `m.room.encryption`, an upgrade the right to send `m.room.tombstone`, and
/// editing the details the right to change the name, topic or avatar.
pub proof fn law_rows_need_their_permission(f: RoomFacts)
    ensures
        spec_join_rule_activatable(f) <==> (f.join_rule_can_be_edited && f.permissions.can_send_join_rules),
        spec_edit_addresses_visible(f) <==> (f.is_joined && f.permissions.can_send_power_levels),
        spec_guest_access(f).read_only <==> !f.permissions.can_send_guest_access,
        spec_history_visibility_activatable(f) ==> f.permissions.can_send_history_visibility,
        f.permissions.can_send_history_visibility && !(f.history_visibility is Unsupported)
            ==> spec_history_visibility_activatable(f),
        !spec_encryption(f).read_only <==> (!f.is_encrypted && f.permissions.can_send_encryption),
        spec_upgrade_visible(f) ==> f.permissions.can_send_tombstone && !f.is_direct && !f.is_tombstoned,
        spec_edit_details_visible(f) ==> !f.is_direct && (f.permissions.can_change_name
            || f.permissions.can_change_topic || f.permissions.can_change_avatar),
{
}

/// The count of members shown is never below the count of the local list,
/// and is that count, the count of the homeserver, or the latter less the own
/// user once they left; a direct room lists its members only while they are
/// fewer than five.
pub proof fn law_members_section_bounds(f: RoomFacts)
    ensures
        spec_members_section(f) matches MembersSection::Count { count, .. } ==> count >= f.joined_members_local
            && (count as int == f.joined_members_local || count as int == f.joined_members_server
            || (f.is_left && count as int == f.joined_members_server - 1)),
        spec_members_section(f) matches MembersSection::Direct { has_members, .. } ==> f.is_direct
            && f.joined_members_local < 5 && has_members == (f.joined_members_local > 0),
{
}

} // verus!
