use vstd::prelude::*;

use crate::power_levels::{
    event_power_level, lemma_lookup_index, lemma_lookup_none, is_safe_int, lookup_event, pl_is_finite, pl_le, pl_lt, pl_max, pl_min, saturate,
    set_event_power_level, spec_event_power_level, POWER_LEVEL_MAX, spec_saturate, spec_set_event_level,
    spec_set_level, EventKind, PowerLevel, RoomPowerLevels,
};

verus! {

/// The power levels that the rows of the permissions page present.
///
/// Each field is the level selected in one row; `members_default` is the
/// default power level of members, as an integer.
#[derive(Clone, Copy, Debug, PartialEq, Eq, Structural)]
pub struct PermissionsForm {
    pub messages: PowerLevel,
    pub redact_own: PowerLevel,
    pub redact_others: PowerLevel,
    pub notify_room: PowerLevel,
    pub state_default: PowerLevel,
    pub name: PowerLevel,
    pub topic: PowerLevel,
    pub avatar: PowerLevel,
    pub aliases: PowerLevel,
    pub history_visibility: PowerLevel,
    pub encryption: PowerLevel,
    pub power_levels: PowerLevel,
    pub server_acl: PowerLevel,
    pub upgrade: PowerLevel,
    pub invite: PowerLevel,
    pub kick: PowerLevel,
    pub ban: PowerLevel,
    pub members_default: i64,
}

/// The form that presents the given power levels.
///
/// Messages fall back to the events default, the redaction of one's own events
/// to the events default, the redaction of others' events is at least the
/// redaction of one's own, and the rows about state events fall back to the
/// state default.
pub open spec fn spec_form_from(
    events: Seq<(EventKind, i64)>,
    events_default: i64,
    redact: i64,
    notifications_room: i64,
    state_default: i64,
    invite: i64,
    kick: i64,
    ban: i64,
    users_default: i64,
) -> PermissionsForm {
    let messages = PowerLevel::Int(events_default);
    let redact_own = spec_event_power_level(events, EventKind::RoomRedaction, messages);
    let state = PowerLevel::Int(state_default);
    PermissionsForm {
        messages,
        redact_own,
        redact_others: pl_max(redact_own, PowerLevel::Int(redact)),
        notify_room: PowerLevel::Int(notifications_room),
        state_default: state,
        name: spec_event_power_level(events, EventKind::RoomName, state),
        topic: spec_event_power_level(events, EventKind::RoomTopic, state),
        avatar: spec_event_power_level(events, EventKind::RoomAvatar, state),
        aliases: spec_event_power_level(events, EventKind::RoomCanonicalAlias, state),
        history_visibility: spec_event_power_level(events, EventKind::RoomHistoryVisibility, state),
        encryption: spec_event_power_level(events, EventKind::RoomEncryption, state),
        power_levels: spec_event_power_level(events, EventKind::RoomPowerLevels, state),
        server_acl: spec_event_power_level(events, EventKind::RoomServerAcl, state),
        upgrade: spec_event_power_level(events, EventKind::RoomTombstone, state),
        invite: PowerLevel::Int(invite),
        kick: PowerLevel::Int(kick),
        ban: PowerLevel::Int(ban),
        members_default: users_default,
    }
}

/// The form that presents the given power levels.
pub open spec fn form_of(pl: &RoomPowerLevels) -> PermissionsForm {
    spec_form_from(
        pl.events@,
        pl.events_default,
        pl.redact,
        pl.notifications_room,
        pl.state_default,
        pl.invite,
        pl.kick,
        pl.ban,
        pl.users_default,
    )
}

/// The form that the permissions page shows for the given power levels.
pub fn form_from_power_levels(pl: &RoomPowerLevels) -> (form: PermissionsForm)
    ensures
        form == form_of(pl),
        form.name == spec_event_power_level(pl.events@, EventKind::RoomName, PowerLevel::Int(pl.state_default)),
        form.topic == spec_event_power_level(pl.events@, EventKind::RoomTopic, PowerLevel::Int(pl.state_default)),
        form.avatar == spec_event_power_level(pl.events@, EventKind::RoomAvatar, PowerLevel::Int(pl.state_default)),
        form.aliases == spec_event_power_level(
            pl.events@,
            EventKind::RoomCanonicalAlias,
            PowerLevel::Int(pl.state_default),
        ),
        form.history_visibility == spec_event_power_level(
            pl.events@,
            EventKind::RoomHistoryVisibility,
            PowerLevel::Int(pl.state_default),
        ),
        form.encryption == spec_event_power_level(
            pl.events@,
            EventKind::RoomEncryption,
            PowerLevel::Int(pl.state_default),
        ),
        form.power_levels == spec_event_power_level(
            pl.events@,
            EventKind::RoomPowerLevels,
            PowerLevel::Int(pl.state_default),
        ),
        form.server_acl == spec_event_power_level(
            pl.events@,
            EventKind::RoomServerAcl,
            PowerLevel::Int(pl.state_default),
        ),
        form.upgrade == spec_event_power_level(
            pl.events@,
            EventKind::RoomTombstone,
            PowerLevel::Int(pl.state_default),
        ),
{
    let messages = PowerLevel::Int(pl.events_default);
    let redact_own = event_power_level(pl, EventKind::RoomRedaction, messages);
    let state = PowerLevel::Int(pl.state_default);
    PermissionsForm {
        messages,
        redact_own,
        redact_others: redact_own.max(&PowerLevel::Int(pl.redact)),
        notify_room: PowerLevel::Int(pl.notifications_room),
        state_default: state,
        name: event_power_level(pl, EventKind::RoomName, state),
        topic: event_power_level(pl, EventKind::RoomTopic, state),
        avatar: event_power_level(pl, EventKind::RoomAvatar, state),
        aliases: event_power_level(pl, EventKind::RoomCanonicalAlias, state),
        history_visibility: event_power_level(pl, EventKind::RoomHistoryVisibility, state),
        encryption: event_power_level(pl, EventKind::RoomEncryption, state),
        power_levels: event_power_level(pl, EventKind::RoomPowerLevels, state),
        server_acl: event_power_level(pl, EventKind::RoomServerAcl, state),
        upgrade: event_power_level(pl, EventKind::RoomTombstone, state),
        invite: PowerLevel::Int(pl.invite),
        kick: PowerLevel::Int(pl.kick),
        ban: PowerLevel::Int(pl.ban),
        members_default: pl.users_default,
    }
}

/// The form after the state default row changed: the rows about state events
/// are shown again from the power levels, falling back to the newly selected
/// state default.
pub open spec fn spec_refresh_state_rows(
    form: PermissionsForm,
    events: Seq<(EventKind, i64)>,
) -> PermissionsForm {
    let state = form.state_default;
    PermissionsForm {
        name: spec_event_power_level(events, EventKind::RoomName, state),
        topic: spec_event_power_level(events, EventKind::RoomTopic, state),
        avatar: spec_event_power_level(events, EventKind::RoomAvatar, state),
        aliases: spec_event_power_level(events, EventKind::RoomCanonicalAlias, state),
        history_visibility: spec_event_power_level(events, EventKind::RoomHistoryVisibility, state),
        encryption: spec_event_power_level(events, EventKind::RoomEncryption, state),
        power_levels: spec_event_power_level(events, EventKind::RoomPowerLevels, state),
        server_acl: spec_event_power_level(events, EventKind::RoomServerAcl, state),
        upgrade: spec_event_power_level(events, EventKind::RoomTombstone, state),
        ..form
    }
}

/// Show again the rows about state events after the state default changed.
pub fn state_default_changed(form: PermissionsForm, pl: &RoomPowerLevels) -> (res: PermissionsForm)
    ensures
        res == spec_refresh_state_rows(form, pl.events@),
{
    let state = form.state_default;
    PermissionsForm {
        name: event_power_level(pl, EventKind::RoomName, state),
        topic: event_power_level(pl, EventKind::RoomTopic, state),
        avatar: event_power_level(pl, EventKind::RoomAvatar, state),
        aliases: event_power_level(pl, EventKind::RoomCanonicalAlias, state),
        history_visibility: event_power_level(pl, EventKind::RoomHistoryVisibility, state),
        encryption: event_power_level(pl, EventKind::RoomEncryption, state),
        power_levels: event_power_level(pl, EventKind::RoomPowerLevels, state),
        server_acl: event_power_level(pl, EventKind::RoomServerAcl, state),
        upgrade: event_power_level(pl, EventKind::RoomTombstone, state),
        ..form
    }
}

/// Whether the user changed the permissions: the list of members with custom
/// power levels changed, or a row differs from what the power levels give.
pub open spec fn spec_changed(form: PermissionsForm, pl: &RoomPowerLevels, privileged_members_changed: bool) -> bool {
    privileged_members_changed || form != form_of(pl)
}

/// Whether the user changed the permissions.
pub fn compute_changed(form: &PermissionsForm, pl: &RoomPowerLevels, privileged_members_changed: bool) -> (changed: bool)
    ensures
        changed == spec_changed(*form, pl, privileged_members_changed),
{
    if privileged_members_changed {
        return true;
    }
    let current = form_from_power_levels(pl);
    !(*form == current)
}

/// The form after the redaction of one's own events changed: the redaction of
/// others' events is raised to it when it was lower.
pub open spec fn spec_redact_own_changed(form: PermissionsForm) -> PermissionsForm {
    if pl_lt(form.redact_others, form.redact_own) {
        PermissionsForm { redact_others: form.redact_own, ..form }
    } else {
        form
    }
}

/// The form after the redaction of others' events changed: the redaction of
/// one's own events is lowered to it when it was higher.
pub open spec fn spec_redact_others_changed(form: PermissionsForm) -> PermissionsForm {
    if pl_lt(form.redact_others, form.redact_own) {
        PermissionsForm { redact_own: form.redact_others, ..form }
    } else {
        form
    }
}

/// Adjust the redaction of others' events after the redaction of one's own
/// changed.
pub fn redact_own_changed(form: PermissionsForm) -> (res: PermissionsForm)
    ensures
        res == spec_redact_own_changed(form),
{
    if form.redact_others.lt(&form.redact_own) {
        PermissionsForm { redact_others: form.redact_own, ..form }
    } else {
        form
    }
}

/// Adjust the redaction of one's own events after the redaction of others'
/// changed.
pub fn redact_others_changed(form: PermissionsForm) -> (res: PermissionsForm)
    ensures
        res == spec_redact_others_changed(form),
{
    if form.redact_others.lt(&form.redact_own) {
        PermissionsForm { redact_own: form.redact_others, ..form }
    } else {
        form
    }
}

/// A field of the power levels after it was given `value`: an infinite level
/// cannot be stored and leaves the field unchanged.
pub open spec fn spec_set_field(current: i64, value: PowerLevel) -> i64 {
    match value {
        PowerLevel::Infinite => current,
        PowerLevel::Int(v) => v,
    }
}

/// Give a field of the power levels the value `value`.
pub fn set_power_level_field(current: &mut i64, value: PowerLevel)
    ensures
        *final(current) == spec_set_field(*old(current), value),
{
    match value {
        PowerLevel::Infinite => {},
        PowerLevel::Int(v) => {
            *current = v;
        },
    }
}

/// The level of `k` in the events map that saving the form writes.
pub open spec fn spec_collected_event(
    events: Seq<(EventKind, i64)>,
    form: PermissionsForm,
    k: EventKind,
) -> Option<i64> {
    let cur = lookup_event(events, k);
    match k {
        EventKind::RoomRedaction => spec_set_level(
            cur,
            pl_min(form.redact_own, form.redact_others),
            form.messages,
        ),
        EventKind::RoomName => spec_set_level(cur, form.name, form.state_default),
        EventKind::RoomTopic => spec_set_level(cur, form.topic, form.state_default),
        EventKind::RoomAvatar => spec_set_level(cur, form.avatar, form.state_default),
        EventKind::RoomCanonicalAlias => spec_set_level(cur, form.aliases, form.state_default),
        EventKind::RoomHistoryVisibility => spec_set_level(
            cur,
            form.history_visibility,
            form.state_default,
        ),
        EventKind::RoomEncryption => spec_set_level(cur, form.encryption, form.state_default),
        EventKind::RoomPowerLevels => spec_set_level(cur, form.power_levels, form.state_default),
        EventKind::RoomServerAcl => spec_set_level(cur, form.server_acl, form.state_default),
        EventKind::RoomTombstone => spec_set_level(cur, form.upgrade, form.state_default),
        EventKind::Other(_) => cur,
    }
}

/// `saved` holds the power levels that saving `form` over `pl` writes, apart
/// from the members with custom power levels.
pub open spec fn is_collected(form: PermissionsForm, pl: &RoomPowerLevels, saved: &RoomPowerLevels) -> bool {
    &&& saved.events_default == spec_set_field(pl.events_default, form.messages)
    &&& saved.redact == spec_set_field(pl.redact, form.redact_others)
    &&& saved.notifications_room == spec_set_field(pl.notifications_room, form.notify_room)
    &&& saved.state_default == spec_set_field(pl.state_default, form.state_default)
    &&& saved.invite == spec_set_field(pl.invite, form.invite)
    &&& saved.kick == spec_set_field(pl.kick, form.kick)
    &&& saved.ban == spec_set_field(pl.ban, form.ban)
    &&& saved.users_default == spec_saturate(form.members_default as int)
    &&& forall|k: EventKind| #[trigger] lookup_event(saved.events@, k) == spec_collected_event(pl.events@, form, k)
}

/// Copy the events map.
fn copy_events(events: &Vec<(EventKind, i64)>) -> (res: Vec<(EventKind, i64)>)
    ensures
        res@ == events@,
{
    let mut res: Vec<(EventKind, i64)> = Vec::new();
    let n = events.len();
    let mut i: usize = 0;
    while i < n
        invariant
            n == events@.len(),
            0 <= i <= n,
            res@ == events@.take(i as int),
        decreases n - i,
    {
        res.push(events[i]);
        proof {
            assert(events@.take(i as int + 1) =~= events@.take(i as int).push(events@[i as int]));
        }
        i = i + 1;
    }
    proof {
        assert(events@.take(n as int) =~= events@);
    }
    res
}

/// The power levels that saving the permissions page writes: the power levels
/// of the room, with each field and event kind taken from its row, the
/// default level of members clamped to the range of Matrix integers, and the
/// given members with custom power levels.
///
/// The redaction of one's own events is capped by the redaction of others'.
/// An event kind whose row shows its fallback level is removed from the events
/// map; an infinite level is never written.
pub fn collect_power_levels(
    form: &PermissionsForm,
    pl: &RoomPowerLevels,
    users: Vec<(String, i64)>,
) -> (res: RoomPowerLevels)
    ensures
        is_collected(*form, pl, &res),
        res.users@ == users@,
        pl.wf() ==> res.wf(),
{
    let mut res = RoomPowerLevels {
        ban: pl.ban,
        events: copy_events(&pl.events),
        events_default: pl.events_default,
        invite: pl.invite,
        kick: pl.kick,
        redact: pl.redact,
        state_default: pl.state_default,
        users: users,
        users_default: pl.users_default,
        notifications_room: pl.notifications_room,
    };
    let ghost e0 = res.events@;

    set_power_level_field(&mut res.events_default, form.messages);
    let redact_own = form.redact_own.min(&form.redact_others);
    set_event_power_level(&mut res, EventKind::RoomRedaction, redact_own, form.messages);
    let ghost e1 = res.events@;
    set_power_level_field(&mut res.redact, form.redact_others);
    set_power_level_field(&mut res.notifications_room, form.notify_room);
    set_power_level_field(&mut res.state_default, form.state_default);

    let state = form.state_default;
    set_event_power_level(&mut res, EventKind::RoomName, form.name, state);
    let ghost e2 = res.events@;
    set_event_power_level(&mut res, EventKind::RoomTopic, form.topic, state);
    let ghost e3 = res.events@;
    set_event_power_level(&mut res, EventKind::RoomAvatar, form.avatar, state);
    let ghost e4 = res.events@;
    set_event_power_level(&mut res, EventKind::RoomCanonicalAlias, form.aliases, state);
    let ghost e5 = res.events@;
    set_event_power_level(&mut res, EventKind::RoomHistoryVisibility, form.history_visibility, state);
    let ghost e6 = res.events@;
    set_event_power_level(&mut res, EventKind::RoomEncryption, form.encryption, state);
    let ghost e7 = res.events@;
    set_event_power_level(&mut res, EventKind::RoomPowerLevels, form.power_levels, state);
    let ghost e8 = res.events@;
    set_event_power_level(&mut res, EventKind::RoomServerAcl, form.server_acl, state);
    let ghost e9 = res.events@;
    set_event_power_level(&mut res, EventKind::RoomTombstone, form.upgrade, state);

    set_power_level_field(&mut res.invite, form.invite);
    set_power_level_field(&mut res.kick, form.kick);
    set_power_level_field(&mut res.ban, form.ban);
    res.users_default = saturate(form.members_default);
    proof {
        assert forall|k: EventKind|
            #[trigger] lookup_event(res.events@, k) == spec_collected_event(pl.events@, *form, k) by {
            assert(lookup_event(e1, k) == spec_set_event_level(e0, EventKind::RoomRedaction, redact_own, form.messages, k));
            assert(lookup_event(e2, k) == spec_set_event_level(e1, EventKind::RoomName, form.name, state, k));
            assert(lookup_event(e3, k) == spec_set_event_level(e2, EventKind::RoomTopic, form.topic, state, k));
            assert(lookup_event(e4, k) == spec_set_event_level(e3, EventKind::RoomAvatar, form.avatar, state, k));
            assert(lookup_event(e5, k) == spec_set_event_level(e4, EventKind::RoomCanonicalAlias, form.aliases, state, k));
            assert(lookup_event(e6, k) == spec_set_event_level(e5, EventKind::RoomHistoryVisibility, form.history_visibility, state, k));
            assert(lookup_event(e7, k) == spec_set_event_level(e6, EventKind::RoomEncryption, form.encryption, state, k));
            assert(lookup_event(e8, k) == spec_set_event_level(e7, EventKind::RoomPowerLevels, form.power_levels, state, k));
            assert(lookup_event(e9, k) == spec_set_event_level(e8, EventKind::RoomServerAcl, form.server_acl, state, k));
            assert(lookup_event(res.events@, k) == spec_set_event_level(e9, EventKind::RoomTombstone, form.upgrade, state, k));
        }
    }
    res
}

/// Whether the form holds only integer levels in the range of Matrix
/// integers, with the redaction of one's own events not above the redaction of
/// others'.
pub open spec fn form_is_storable(form: PermissionsForm) -> bool {
    &&& pl_is_finite(form.messages)
    &&& pl_is_finite(form.redact_own)
    &&& pl_is_finite(form.redact_others)
    &&& pl_le(form.redact_own, form.redact_others)
    &&& pl_is_finite(form.notify_room)
    &&& pl_is_finite(form.state_default)
    &&& pl_is_finite(form.name)
    &&& pl_is_finite(form.topic)
    &&& pl_is_finite(form.avatar)
    &&& pl_is_finite(form.aliases)
    &&& pl_is_finite(form.history_visibility)
    &&& pl_is_finite(form.encryption)
    &&& pl_is_finite(form.power_levels)
    &&& pl_is_finite(form.server_acl)
    &&& pl_is_finite(form.upgrade)
    &&& pl_is_finite(form.invite)
    &&& pl_is_finite(form.kick)
    &&& pl_is_finite(form.ban)
    &&& is_safe_int(form.members_default as int)
}

/// Showing the power levels of a room presents no change: the form that the
/// page builds from the power levels is not reported as changed.
pub proof fn law_reset_form_is_unchanged(pl: &RoomPowerLevels)
    ensures
        !spec_changed(form_of(pl), pl, false),
{
}

/// Saving a form and showing the saved power levels gives back the same form,
/// so the page is unchanged after saving, whenever every row holds an integer
/// level in the Matrix range and the redaction of one's own events is not above
/// the redaction of others'.
pub proof fn law_saved_form_round_trips(
    form: PermissionsForm,
    pl: &RoomPowerLevels,
    saved: &RoomPowerLevels,
)
    requires
        form_is_storable(form),
        is_collected(form, pl, saved),
    ensures
        form_of(saved) == form,
        !spec_changed(form, saved, false),
{
    let events = saved.events@;
    assert(lookup_event(events, EventKind::RoomRedaction) == spec_collected_event(pl.events@, form, EventKind::RoomRedaction));
    assert(lookup_event(events, EventKind::RoomName) == spec_collected_event(pl.events@, form, EventKind::RoomName));
    assert(lookup_event(events, EventKind::RoomTopic) == spec_collected_event(pl.events@, form, EventKind::RoomTopic));
    assert(lookup_event(events, EventKind::RoomAvatar) == spec_collected_event(pl.events@, form, EventKind::RoomAvatar));
    assert(lookup_event(events, EventKind::RoomCanonicalAlias) == spec_collected_event(pl.events@, form, EventKind::RoomCanonicalAlias));
    assert(lookup_event(events, EventKind::RoomHistoryVisibility) == spec_collected_event(pl.events@, form, EventKind::RoomHistoryVisibility));
    assert(lookup_event(events, EventKind::RoomEncryption) == spec_collected_event(pl.events@, form, EventKind::RoomEncryption));
    assert(lookup_event(events, EventKind::RoomPowerLevels) == spec_collected_event(pl.events@, form, EventKind::RoomPowerLevels));
    assert(lookup_event(events, EventKind::RoomServerAcl) == spec_collected_event(pl.events@, form, EventKind::RoomServerAcl));
    assert(lookup_event(events, EventKind::RoomTombstone) == spec_collected_event(pl.events@, form, EventKind::RoomTombstone));
    assert(form_of(saved) =~= form);
}

/// Each row of the form shows the level of its own event type: the level of
/// the entry of that type in the events map of the power levels, if there is
/// one (the redaction of one's own events, `m.room.redaction`; the rows about
/// state events, `m.room.name` to `m.room.tombstone`).
pub proof fn law_rows_show_their_own_event(pl: &RoomPowerLevels, i: int)
    requires
        pl.wf(),
        0 <= i < pl.events@.len(),
    ensures
        pl.events@[i].0 == EventKind::RoomRedaction ==> form_of(pl).redact_own == PowerLevel::Int(pl.events@[i].1),
        pl.events@[i].0 == EventKind::RoomName ==> form_of(pl).name == PowerLevel::Int(pl.events@[i].1),
        pl.events@[i].0 == EventKind::RoomTopic ==> form_of(pl).topic == PowerLevel::Int(pl.events@[i].1),
        pl.events@[i].0 == EventKind::RoomAvatar ==> form_of(pl).avatar == PowerLevel::Int(pl.events@[i].1),
        pl.events@[i].0 == EventKind::RoomCanonicalAlias ==> form_of(pl).aliases == PowerLevel::Int(
            pl.events@[i].1,
        ),
        pl.events@[i].0 == EventKind::RoomHistoryVisibility ==> form_of(pl).history_visibility
            == PowerLevel::Int(pl.events@[i].1),
        pl.events@[i].0 == EventKind::RoomEncryption ==> form_of(pl).encryption == PowerLevel::Int(
            pl.events@[i].1,
        ),
        pl.events@[i].0 == EventKind::RoomPowerLevels ==> form_of(pl).power_levels == PowerLevel::Int(
            pl.events@[i].1,
        ),
        pl.events@[i].0 == EventKind::RoomServerAcl ==> form_of(pl).server_acl == PowerLevel::Int(
            pl.events@[i].1,
        ),
        pl.events@[i].0 == EventKind::RoomTombstone ==> form_of(pl).upgrade == PowerLevel::Int(pl.events@[i].1),
{
    lemma_lookup_index(pl.events@, pl.events@[i].0, i);
}

/// A row about a state event whose type has no entry in the events map
/// shows the state default; the redaction of one's own events without an
/// entry shows the events default.
pub proof fn law_rows_without_entry_show_the_default(pl: &RoomPowerLevels, k: EventKind)
    requires
        forall|j: int| 0 <= j < pl.events@.len() ==> #[trigger] pl.events@[j].0 != k,
    ensures
        k == EventKind::RoomRedaction ==> form_of(pl).redact_own == PowerLevel::Int(pl.events_default),
        k == EventKind::RoomName ==> form_of(pl).name == PowerLevel::Int(pl.state_default),
        k == EventKind::RoomTopic ==> form_of(pl).topic == PowerLevel::Int(pl.state_default),
        k == EventKind::RoomAvatar ==> form_of(pl).avatar == PowerLevel::Int(pl.state_default),
        k == EventKind::RoomCanonicalAlias ==> form_of(pl).aliases == PowerLevel::Int(pl.state_default),
        k == EventKind::RoomHistoryVisibility ==> form_of(pl).history_visibility == PowerLevel::Int(
            pl.state_default,
        ),
        k == EventKind::RoomEncryption ==> form_of(pl).encryption == PowerLevel::Int(pl.state_default),
        k == EventKind::RoomPowerLevels ==> form_of(pl).power_levels == PowerLevel::Int(pl.state_default),
        k == EventKind::RoomServerAcl ==> form_of(pl).server_acl == PowerLevel::Int(pl.state_default),
        k == EventKind::RoomTombstone ==> form_of(pl).upgrade == PowerLevel::Int(pl.state_default),
{
    lemma_lookup_none(pl.events@, k);
}

/// Saving writes each row about a state event to its own event type: a row
/// at an integer level other than the state default gives its type that
/// level, and a row at the state default leaves its type out of the events
/// map.
pub proof fn law_saved_rows_go_to_their_own_event(
    form: PermissionsForm,
    pl: &RoomPowerLevels,
    saved: &RoomPowerLevels,
    v: i64,
)
    requires
        is_collected(form, pl, saved),
    ensures
        form.name == PowerLevel::Int(v) && form.name != form.state_default ==> lookup_event(
            saved.events@,
            EventKind::RoomName,
        ) == Some(v),
        form.topic == PowerLevel::Int(v) && form.topic != form.state_default ==> lookup_event(
            saved.events@,
            EventKind::RoomTopic,
        ) == Some(v),
        form.avatar == PowerLevel::Int(v) && form.avatar != form.state_default ==> lookup_event(
            saved.events@,
            EventKind::RoomAvatar,
        ) == Some(v),
        form.aliases == PowerLevel::Int(v) && form.aliases != form.state_default ==> lookup_event(
            saved.events@,
            EventKind::RoomCanonicalAlias,
        ) == Some(v),
        form.history_visibility == PowerLevel::Int(v) && form.history_visibility != form.state_default
            ==> lookup_event(saved.events@, EventKind::RoomHistoryVisibility) == Some(v),
        form.encryption == PowerLevel::Int(v) && form.encryption != form.state_default ==> lookup_event(
            saved.events@,
            EventKind::RoomEncryption,
        ) == Some(v),
        form.power_levels == PowerLevel::Int(v) && form.power_levels != form.state_default ==> lookup_event(
            saved.events@,
            EventKind::RoomPowerLevels,
        ) == Some(v),
        form.server_acl == PowerLevel::Int(v) && form.server_acl != form.state_default ==> lookup_event(
            saved.events@,
            EventKind::RoomServerAcl,
        ) == Some(v),
        form.upgrade == PowerLevel::Int(v) && form.upgrade != form.state_default ==> lookup_event(
            saved.events@,
            EventKind::RoomTombstone,
        ) == Some(v),
        form.name == form.state_default ==> lookup_event(saved.events@, EventKind::RoomName) is None,
        form.topic == form.state_default ==> lookup_event(saved.events@, EventKind::RoomTopic) is None,
        form.avatar == form.state_default ==> lookup_event(saved.events@, EventKind::RoomAvatar) is None,
        form.aliases == form.state_default ==> lookup_event(saved.events@, EventKind::RoomCanonicalAlias) is None,
        form.history_visibility == form.state_default ==> lookup_event(
            saved.events@,
            EventKind::RoomHistoryVisibility,
        ) is None,
        form.encryption == form.state_default ==> lookup_event(saved.events@, EventKind::RoomEncryption) is None,
        form.power_levels == form.state_default ==> lookup_event(saved.events@, EventKind::RoomPowerLevels)
            is None,
        form.server_acl == form.state_default ==> lookup_event(saved.events@, EventKind::RoomServerAcl) is None,
        form.upgrade == form.state_default ==> lookup_event(saved.events@, EventKind::RoomTombstone) is None,
{
    assert(lookup_event(saved.events@, EventKind::RoomName) == spec_collected_event(pl.events@, form, EventKind::RoomName));
    assert(lookup_event(saved.events@, EventKind::RoomTopic) == spec_collected_event(pl.events@, form, EventKind::RoomTopic));
    assert(lookup_event(saved.events@, EventKind::RoomAvatar) == spec_collected_event(pl.events@, form, EventKind::RoomAvatar));
    assert(lookup_event(saved.events@, EventKind::RoomCanonicalAlias) == spec_collected_event(pl.events@, form, EventKind::RoomCanonicalAlias));
    assert(lookup_event(saved.events@, EventKind::RoomHistoryVisibility) == spec_collected_event(pl.events@, form, EventKind::RoomHistoryVisibility));
    assert(lookup_event(saved.events@, EventKind::RoomEncryption) == spec_collected_event(pl.events@, form, EventKind::RoomEncryption));
    assert(lookup_event(saved.events@, EventKind::RoomPowerLevels) == spec_collected_event(pl.events@, form, EventKind::RoomPowerLevels));
    assert(lookup_event(saved.events@, EventKind::RoomServerAcl) == spec_collected_event(pl.events@, form, EventKind::RoomServerAcl));
    assert(lookup_event(saved.events@, EventKind::RoomTombstone) == spec_collected_event(pl.events@, form, EventKind::RoomTombstone));
}

/// Whether each row of the permissions page is read-only.
#[derive(Clone, Copy, Debug, PartialEq, Eq, Structural)]
pub struct PermissionsReadOnly {
    pub messages: bool,
    pub redact_own: bool,
    pub redact_others: bool,
    pub notify_room: bool,
    pub state_default: bool,
    pub name: bool,
    pub topic: bool,
    pub avatar: bool,
    pub aliases: bool,
    pub history_visibility: bool,
    pub encryption: bool,
    pub power_levels: bool,
    pub server_acl: bool,
    pub upgrade: bool,
    pub invite: bool,
    pub kick: bool,
    pub ban: bool,
}

/// A row is read-only when the page is not editable or when the level it
/// presents is above our own.
pub open spec fn spec_row_read_only(editable: bool, own: PowerLevel, level: PowerLevel) -> bool {
    !editable || pl_lt(own, level)
}

/// Whether a row presenting `level` is read-only.
pub fn row_read_only(editable: bool, own: PowerLevel, level: PowerLevel) -> (res: bool)
    ensures
        res == spec_row_read_only(editable, own, level),
{
    !editable || own.lt(&level)
}

/// Which rows of the form are read-only, given whether our own user can change
/// the power levels and its own power level.
pub fn rows_read_only(form: &PermissionsForm, editable: bool, own: PowerLevel) -> (res: PermissionsReadOnly)
    ensures
        res.messages == spec_row_read_only(editable, own, form.messages),
        res.redact_own == spec_row_read_only(editable, own, form.redact_own),
        res.redact_others == spec_row_read_only(editable, own, form.redact_others),
        res.notify_room == spec_row_read_only(editable, own, form.notify_room),
        res.state_default == spec_row_read_only(editable, own, form.state_default),
        res.name == spec_row_read_only(editable, own, form.name),
        res.topic == spec_row_read_only(editable, own, form.topic),
        res.avatar == spec_row_read_only(editable, own, form.avatar),
        res.aliases == spec_row_read_only(editable, own, form.aliases),
        res.history_visibility == spec_row_read_only(editable, own, form.history_visibility),
        res.encryption == spec_row_read_only(editable, own, form.encryption),
        res.power_levels == spec_row_read_only(editable, own, form.power_levels),
        res.server_acl == spec_row_read_only(editable, own, form.server_acl),
        res.upgrade == spec_row_read_only(editable, own, form.upgrade),
        res.invite == spec_row_read_only(editable, own, form.invite),
        res.kick == spec_row_read_only(editable, own, form.kick),
        res.ban == spec_row_read_only(editable, own, form.ban),
{
    PermissionsReadOnly {
        messages: row_read_only(editable, own, form.messages),
        redact_own: row_read_only(editable, own, form.redact_own),
        redact_others: row_read_only(editable, own, form.redact_others),
        notify_room: row_read_only(editable, own, form.notify_room),
        state_default: row_read_only(editable, own, form.state_default),
        name: row_read_only(editable, own, form.name),
        topic: row_read_only(editable, own, form.topic),
        avatar: row_read_only(editable, own, form.avatar),
        aliases: row_read_only(editable, own, form.aliases),
        history_visibility: row_read_only(editable, own, form.history_visibility),
        encryption: row_read_only(editable, own, form.encryption),
        power_levels: row_read_only(editable, own, form.power_levels),
        server_acl: row_read_only(editable, own, form.server_acl),
        upgrade: row_read_only(editable, own, form.upgrade),
        invite: row_read_only(editable, own, form.invite),
        kick: row_read_only(editable, own, form.kick),
        ban: row_read_only(editable, own, form.ban),
    }
}

/// The section about the default power level of members.
#[derive(Clone, Copy, Debug, PartialEq, Eq, Structural)]
pub struct MembersDefaultSection {
    /// The default power level of members.
    pub value: i64,
    /// The highest default power level that can be selected.
    pub upper: i64,
    /// Whether the default can be changed (a spin button) or only shown.
    pub can_change_default: bool,
    /// The number of members with a custom power level.
    pub privileged_count: usize,
}

/// The section about the default power level of members: we cannot give a
/// default level above our own (an infinite level allows any valid level), but
/// the current default stays selectable; the default can be changed when the
/// page is editable and our level is not below it.
pub fn members_default_section(pl: &RoomPowerLevels, own: PowerLevel, editable: bool) -> (res: MembersDefaultSection)
    ensures
        res.value == pl.users_default,
        res.upper == (match own {
            PowerLevel::Int(p) => if pl.users_default >= p { pl.users_default } else { p },
            PowerLevel::Infinite => if pl.users_default >= POWER_LEVEL_MAX { pl.users_default } else { POWER_LEVEL_MAX },
        }),
        res.can_change_default == (editable && !pl_lt(own, PowerLevel::Int(pl.users_default))),
        res.privileged_count == pl.users@.len(),
{
    let own_max = match own {
        PowerLevel::Int(p) => p,
        PowerLevel::Infinite => POWER_LEVEL_MAX,
    };
    let upper = if pl.users_default >= own_max { pl.users_default } else { own_max };
    MembersDefaultSection {
        value: pl.users_default,
        upper,
        can_change_default: editable && !own.lt(&PowerLevel::Int(pl.users_default)),
        privileged_count: pl.users.len(),
    }
}

/// What happens when a new power level is selected for a member.
#[derive(Clone, Copy, Debug, PartialEq, Eq, Structural)]
pub enum MemberLevelPlan {
    /// Nothing to do: the member has no integer power level, or the level did
    /// not change.
    Unchanged,
    /// Give the member the level after the user confirmed each of the
    /// dialogs that are asked for, in this order; when a dialog is declined,
    /// the previous level is shown again.
    Apply {
        level: i64,
        confirm_own_demotion: bool,
        confirm_mute: bool,
        confirm_same_as_own: bool,
    },
}

/// The plan for a new power level selected for a member of the room.
///
/// `selected` is the level selected in the row, `member_level` the level the
/// member has in the page, `room_level` the level the member has in the room,
/// `mute_level` the level at or under which a member cannot send messages,
/// and `own` our own power level.
///
/// Resetting to the level the member has in the room needs no confirmation.
/// Lowering our own level must be confirmed; for another member, muting a
/// member that was not muted and giving our own level must be confirmed.
pub fn member_level_changed(
    selected: i64,
    member_level: PowerLevel,
    room_level: PowerLevel,
    is_own_user: bool,
    mute_level: i64,
    own: PowerLevel,
) -> (res: MemberLevelPlan)
    ensures
        res == (match member_level {
            PowerLevel::Infinite => MemberLevelPlan::Unchanged,
            PowerLevel::Int(old) => {
                let level = spec_saturate(selected as int) as i64;
                if level == old {
                    MemberLevelPlan::Unchanged
                } else if room_level == PowerLevel::Int(level) {
                    MemberLevelPlan::Apply {
                        level,
                        confirm_own_demotion: false,
                        confirm_mute: false,
                        confirm_same_as_own: false,
                    }
                } else if is_own_user {
                    MemberLevelPlan::Apply {
                        level,
                        confirm_own_demotion: true,
                        confirm_mute: false,
                        confirm_same_as_own: false,
                    }
                } else {
                    MemberLevelPlan::Apply {
                        level,
                        confirm_own_demotion: false,
                        confirm_mute: level <= mute_level && old > mute_level,
                        confirm_same_as_own: own == PowerLevel::Int(level),
                    }
                }
            },
        }),
{
    match member_level {
        PowerLevel::Infinite => MemberLevelPlan::Unchanged,
        PowerLevel::Int(old) => {
            let level = saturate(selected);
            if level == old {
                MemberLevelPlan::Unchanged
            } else if room_level.equals(&PowerLevel::Int(level)) {
                MemberLevelPlan::Apply {
                    level,
                    confirm_own_demotion: false,
                    confirm_mute: false,
                    confirm_same_as_own: false,
                }
            } else if is_own_user {
                MemberLevelPlan::Apply {
                    level,
                    confirm_own_demotion: true,
                    confirm_mute: false,
                    confirm_same_as_own: false,
                }
            } else {
                MemberLevelPlan::Apply {
                    level,
                    confirm_own_demotion: false,
                    confirm_mute: level <= mute_level && old > mute_level,
                    confirm_same_as_own: own.equals(&PowerLevel::Int(level)),
                }
            }
        },
    }
}

/// What happens when selected members are given a custom power level.
#[derive(Clone, Copy, Debug, PartialEq, Eq, Structural)]
pub struct AddMembersPlan {
    /// The level given to the members.
    pub level: i64,
    /// Whether muting the members must be confirmed first.
    pub confirm_mute: bool,
    /// Whether giving our own level must be confirmed next.
    pub confirm_same_as_own: bool,
}

/// The plan to give the selected members the power level `selected`: muting
/// them is confirmed when the selected level is at or under the mute level,
/// then giving them our own level is confirmed; the level is clamped to the
/// range of Matrix integers.
pub fn add_members_plan(selected: i64, mute_level: i64, own: PowerLevel) -> (res: AddMembersPlan)
    ensures
        res.level == spec_saturate(selected as int),
        res.confirm_mute == (selected <= mute_level),
        res.confirm_same_as_own == (own == PowerLevel::Int(res.level)),
{
    let level = saturate(selected);
    AddMembersPlan {
        level,
        confirm_mute: selected <= mute_level,
        confirm_same_as_own: own.equals(&PowerLevel::Int(level)),
    }
}

/// Whether a member is offered in the list to add custom power levels: only
/// members with the default power level (an integer) are.
pub fn can_be_given_custom_level(member_level: PowerLevel, default_level: i64) -> (res: bool)
    ensures
        res == (member_level == PowerLevel::Int(default_level)),
{
    match member_level {
        PowerLevel::Int(v) => v == default_level,
        PowerLevel::Infinite => false,
    }
}

/// Adjusting one redaction row keeps the redaction of one's own events at or
/// below the redaction of others', and keeps the row that was edited.
pub proof fn law_redaction_rows_stay_ordered(form: PermissionsForm)
    ensures
        pl_le(spec_redact_own_changed(form).redact_own, spec_redact_own_changed(form).redact_others),
        spec_redact_own_changed(form).redact_own == form.redact_own,
        pl_le(
            spec_redact_others_changed(form).redact_own,
            spec_redact_others_changed(form).redact_others,
        ),
        spec_redact_others_changed(form).redact_others == form.redact_others,
{
}

} // verus!
