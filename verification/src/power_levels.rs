use vstd::prelude::*;

verus! {

/// The largest integer that a Matrix power level can hold (`2^53 - 1`).
pub const MAX_SAFE_INT: i64 = 0x001F_FFFF_FFFF_FFFF;

/// The smallest integer that a Matrix power level can hold (`-(2^53 - 1)`).
pub const MIN_SAFE_INT: i64 = -0x001F_FFFF_FFFF_FFFF;

/// The largest power level that can be given to a member.
pub const POWER_LEVEL_MAX: i64 = 0x001F_FFFF_FFFF_FFFF;

/// Whether the given integer is in the range of Matrix integers.
pub open spec fn is_safe_int(v: int) -> bool {
    MIN_SAFE_INT <= v <= MAX_SAFE_INT
}

/// Clamp the given integer to the range of Matrix integers.
pub open spec fn spec_saturate(v: int) -> int {
    if v < MIN_SAFE_INT {
        MIN_SAFE_INT as int
    } else if v > MAX_SAFE_INT {
        MAX_SAFE_INT as int
    } else {
        v
    }
}

/// Clamp the given integer to the range of Matrix integers.
pub fn saturate(v: i64) -> (res: i64)
    ensures
        res == spec_saturate(v as int),
        is_safe_int(res as int),
{
    if v < MIN_SAFE_INT {
        MIN_SAFE_INT
    } else if v > MAX_SAFE_INT {
        MAX_SAFE_INT
    } else {
        v
    }
}

/// The power level of a user: infinite for the creators of a room in recent
/// room versions, an integer otherwise.
#[derive(Clone, Copy, Debug, PartialEq, Eq, Structural)]
pub enum PowerLevel {
    Infinite,
    Int(i64),
}

/// `a < b` for power levels: an infinite level is above every integer level.
pub open spec fn pl_lt(a: PowerLevel, b: PowerLevel) -> bool {
    match (a, b) {
        (PowerLevel::Infinite, _) => false,
        (PowerLevel::Int(_), PowerLevel::Infinite) => true,
        (PowerLevel::Int(x), PowerLevel::Int(y)) => x < y,
    }
}

/// `a <= b` for power levels.
pub open spec fn pl_le(a: PowerLevel, b: PowerLevel) -> bool {
    !pl_lt(b, a)
}

/// The larger of two power levels.
pub open spec fn pl_max(a: PowerLevel, b: PowerLevel) -> PowerLevel {
    if pl_lt(a, b) {
        b
    } else {
        a
    }
}

/// The smaller of two power levels.
pub open spec fn pl_min(a: PowerLevel, b: PowerLevel) -> PowerLevel {
    if pl_lt(b, a) {
        b
    } else {
        a
    }
}

/// Whether the power level is an integer in the range of Matrix integers.
pub open spec fn pl_is_finite(a: PowerLevel) -> bool {
    match a {
        PowerLevel::Infinite => false,
        PowerLevel::Int(v) => is_safe_int(v as int),
    }
}

impl PowerLevel {
    /// `self < other`.
    pub fn lt(&self, other: &PowerLevel) -> (res: bool)
        ensures
            res == pl_lt(*self, *other),
    {
        match (self, other) {
            (PowerLevel::Infinite, _) => false,
            (PowerLevel::Int(_), PowerLevel::Infinite) => true,
            (PowerLevel::Int(x), PowerLevel::Int(y)) => *x < *y,
        }
    }

    /// `self == other`.
    pub fn equals(&self, other: &PowerLevel) -> (res: bool)
        ensures
            res == (*self == *other),
    {
        match (self, other) {
            (PowerLevel::Infinite, PowerLevel::Infinite) => true,
            (PowerLevel::Int(x), PowerLevel::Int(y)) => *x == *y,
            _ => false,
        }
    }

    /// The larger of `self` and `other`.
    pub fn max(&self, other: &PowerLevel) -> (res: PowerLevel)
        ensures
            res == pl_max(*self, *other),
    {
        if self.lt(other) {
            *other
        } else {
            *self
        }
    }

    /// The smaller of `self` and `other`.
    pub fn min(&self, other: &PowerLevel) -> (res: PowerLevel)
        ensures
            res == pl_min(*self, *other),
    {
        if other.lt(self) {
            *other
        } else {
            *self
        }
    }
}

/// The kinds of events whose power level the permissions page presents; any
/// other event type is kept as an opaque code.
#[derive(Clone, Copy, Debug, PartialEq, Eq, Structural)]
pub enum EventKind {
    RoomRedaction,
    RoomName,
    RoomTopic,
    RoomAvatar,
    RoomCanonicalAlias,
    RoomHistoryVisibility,
    RoomEncryption,
    RoomPowerLevels,
    RoomServerAcl,
    RoomTombstone,
    Other(u64),
}

/// The power levels of a room.
///
/// `events` maps an event kind to the power level needed to send it; `users`
/// maps a user ID to its power level.
#[derive(Debug)]
pub struct RoomPowerLevels {
    pub ban: i64,
    pub events: Vec<(EventKind, i64)>,
    pub events_default: i64,
    pub invite: i64,
    pub kick: i64,
    pub redact: i64,
    pub state_default: i64,
    pub users: Vec<(String, i64)>,
    pub users_default: i64,
    pub notifications_room: i64,
}

/// The level that a list of `(kind, level)` pairs gives to `kind`, if any.
pub open spec fn lookup_event(events: Seq<(EventKind, i64)>, kind: EventKind) -> Option<i64>
    decreases events.len(),
{
    if events.len() == 0 {
        None
    } else if events[0].0 == kind {
        Some(events[0].1)
    } else {
        lookup_event(events.drop_first(), kind)
    }
}

/// No event kind occurs twice in the list.
pub open spec fn distinct_kinds(events: Seq<(EventKind, i64)>) -> bool {
    forall|i: int, j: int|
        0 <= i < events.len() && 0 <= j < events.len() && i != j ==> events[i].0 != events[j].0
}

impl RoomPowerLevels {
    /// Well-formedness: the events list is a map (no kind occurs twice).
    pub open spec fn wf(&self) -> bool {
        distinct_kinds(self.events@)
    }
}

/// The power level needed to send an event of the given kind, falling back to
/// `default` when the events map does not mention it.
pub open spec fn spec_event_power_level(
    events: Seq<(EventKind, i64)>,
    kind: EventKind,
    default: PowerLevel,
) -> PowerLevel {
    match lookup_event(events, kind) {
        Some(v) => PowerLevel::Int(v),
        None => default,
    }
}

/// The level of a kind is that of its first entry.
pub proof fn lemma_lookup_index(events: Seq<(EventKind, i64)>, kind: EventKind, i: int)
    requires
        0 <= i < events.len(),
        events[i].0 == kind,
        forall|j: int| 0 <= j < i ==> events[j].0 != kind,
    ensures
        lookup_event(events, kind) == Some(events[i].1),
    decreases i,
{
    if i > 0 {
        lemma_lookup_index(events.drop_first(), kind, i - 1);
    }
}

/// A kind without an entry has no level.
pub proof fn lemma_lookup_none(events: Seq<(EventKind, i64)>, kind: EventKind)
    requires
        forall|j: int| 0 <= j < events.len() ==> events[j].0 != kind,
    ensures
        lookup_event(events, kind) == None::<i64>,
    decreases events.len(),
{
    if events.len() > 0 {
        lemma_lookup_none(events.drop_first(), kind);
    }
}

proof fn lemma_lookup_push(events: Seq<(EventKind, i64)>, entry: (EventKind, i64), kind: EventKind)
    ensures
        lookup_event(events.push(entry), kind) == (match lookup_event(events, kind) {
            Some(v) => Some(v),
            None => if entry.0 == kind {
                Some(entry.1)
            } else {
                None
            },
        }),
    decreases events.len(),
{
    if events.len() > 0 {
        assert(events.push(entry).drop_first() =~= events.drop_first().push(entry));
        assert(events.push(entry)[0] == events[0]);
        lemma_lookup_push(events.drop_first(), entry, kind);
    } else {
        assert(events.push(entry).drop_first() =~= Seq::<(EventKind, i64)>::empty());
        assert(events.push(entry)[0] == entry);
        assert(lookup_event(Seq::<(EventKind, i64)>::empty(), kind) == None::<i64>);
    }
}

/// The power level needed to send an event of the given kind.
pub fn event_power_level(
    power_levels: &RoomPowerLevels,
    kind: EventKind,
    default: PowerLevel,
) -> (res: PowerLevel)
    ensures
        res == spec_event_power_level(power_levels.events@, kind, default),
{
    let n = power_levels.events.len();
    let mut i: usize = 0;
    while i < n
        invariant
            n == power_levels.events@.len(),
            0 <= i <= n,
            forall|j: int| 0 <= j < i ==> power_levels.events@[j].0 != kind,
        decreases n - i,
    {
        let entry = power_levels.events[i];
        if entry.0 == kind {
            proof {
                lemma_lookup_index(power_levels.events@, kind, i as int);
            }
            return PowerLevel::Int(entry.1);
        }
        i = i + 1;
    }
    proof {
        lemma_lookup_none(power_levels.events@, kind);
    }
    default
}

/// The level that an event kind has after it was given `value`, when it had
/// `current` and `default` applies to absent kinds: the kind is removed when
/// the value is the default, given the value when it is an integer, and left
/// as it was otherwise (an infinite level cannot be stored).
pub open spec fn spec_set_level(current: Option<i64>, value: PowerLevel, default: PowerLevel) -> Option<i64> {
    if value == default {
        None
    } else {
        match value {
            PowerLevel::Infinite => current,
            PowerLevel::Int(v) => Some(v),
        }
    }
}

/// The level of `k` in the events map after `kind` was given `value`.
pub open spec fn spec_set_event_level(
    events: Seq<(EventKind, i64)>,
    kind: EventKind,
    value: PowerLevel,
    default: PowerLevel,
    k: EventKind,
) -> Option<i64> {
    if k == kind {
        spec_set_level(lookup_event(events, k), value, default)
    } else {
        lookup_event(events, k)
    }
}

/// Remove every entry of `kind` from the list.
fn remove_event_kind(events: &Vec<(EventKind, i64)>, kind: EventKind) -> (res: Vec<(EventKind, i64)>)
    ensures
        forall|k: EventKind|
            lookup_event(res@, k) == (if k == kind {
                None
            } else {
                lookup_event(events@, k)
            }),
        distinct_kinds(events@) ==> distinct_kinds(res@),
        forall|j: int| 0 <= j < res@.len() ==> res@[j].0 != kind,
{
    let mut res: Vec<(EventKind, i64)> = Vec::new();
    let n = events.len();
    let mut i: usize = 0;
    while i < n
        invariant
            n == events@.len(),
            0 <= i <= n,
            forall|k: EventKind|
                lookup_event(res@, k) == (if k == kind {
                    None
                } else {
                    lookup_event(events@.take(i as int), k)
                }),
            forall|j: int| 0 <= j < res@.len() ==> res@[j].0 != kind,
            distinct_kinds(events@) ==> distinct_kinds(res@),
            forall|j: int, m: int|
                0 <= j < res@.len() && i <= m < n && distinct_kinds(events@) ==> #[trigger] res@[j].0
                    != #[trigger] events@[m].0,
        decreases n - i,
    {
        let entry = events[i];
        proof {
            assert(events@.take(i as int + 1) =~= events@.take(i as int).push(entry));
            assert forall|k: EventKind| true implies #[trigger] lookup_event(
                events@.take(i as int + 1),
                k,
            ) == (match lookup_event(events@.take(i as int), k) {
                Some(v) => Some(v),
                None => if entry.0 == k {
                    Some(entry.1)
                } else {
                    None
                },
            }) by {
                lemma_lookup_push(events@.take(i as int), entry, k);
            }
        }
        if entry.0 != kind {
            let ghost old_res = res@;
            res.push(entry);
            proof {
                assert forall|k: EventKind| true implies #[trigger] lookup_event(res@, k) == (if k == kind {
                    None
                } else {
                    lookup_event(events@.take(i as int + 1), k)
                }) by {
                    lemma_lookup_push(old_res, entry, k);
                    if k != kind && lookup_event(old_res, k).is_none() && entry.0 == k {
                        if distinct_kinds(events@) {
                            // entry.0 does not occur in the prefix.
                            assert(lookup_event(events@.take(i as int), k).is_none());
                        }
                    }
                }
            }
        } else {
            proof {
                assert forall|k: EventKind| true implies #[trigger] lookup_event(res@, k) == (if k == kind {
                    None
                } else {
                    lookup_event(events@.take(i as int + 1), k)
                }) by {}
            }
        }
        i = i + 1;
    }
    proof {
        assert(events@.take(n as int) =~= events@);
    }
    res
}

/// Set the power level needed to send an event of the given kind.
///
/// When the value is the default, the kind is removed from the map; an
/// infinite value cannot be stored and leaves the map unchanged.
pub fn set_event_power_level(
    power_levels: &mut RoomPowerLevels,
    kind: EventKind,
    value: PowerLevel,
    default: PowerLevel,
)
    ensures
        forall|k: EventKind|
            lookup_event(final(power_levels).events@, k) == spec_set_event_level(
                old(power_levels).events@,
                kind,
                value,
                default,
                k,
            ),
        old(power_levels).wf() ==> final(power_levels).wf(),
        final(power_levels).ban == old(power_levels).ban,
        final(power_levels).events_default == old(power_levels).events_default,
        final(power_levels).invite == old(power_levels).invite,
        final(power_levels).kick == old(power_levels).kick,
        final(power_levels).redact == old(power_levels).redact,
        final(power_levels).state_default == old(power_levels).state_default,
        final(power_levels).users@ == old(power_levels).users@,
        final(power_levels).users_default == old(power_levels).users_default,
        final(power_levels).notifications_room == old(power_levels).notifications_room,
{
    if value.equals(&default) {
        let events = remove_event_kind(&power_levels.events, kind);
        power_levels.events = events;
    } else {
        match value {
            PowerLevel::Infinite => {},
            PowerLevel::Int(v) => {
                let mut events = remove_event_kind(&power_levels.events, kind);
                let ghost removed = events@;
                events.push((kind, v));
                proof {
                    assert forall|k: EventKind| true implies #[trigger] lookup_event(events@, k) == (if k
                        == kind {
                        Some(v)
                    } else {
                        lookup_event(old(power_levels).events@, k)
                    }) by {
                        lemma_lookup_push(removed, (kind, v), k);
                        if k == kind {
                            lemma_lookup_none(removed, kind);
                        }
                    }
                    if distinct_kinds(old(power_levels).events@) {
                        assert forall|i: int, j: int|
                            0 <= i < events@.len() && 0 <= j < events@.len() && i != j implies events@[i].0
                            != events@[j].0 by {
                            if i < removed.len() && j < removed.len() {
                            } else if i == removed.len() {
                                assert(removed[j].0 != kind);
                            } else {
                                assert(removed[i].0 != kind);
                            }
                        }
                    }
                }
                power_levels.events = events;
            },
        }
    }
}

/// Reading the level of an event kind right after setting it gives back the
/// value set, for an integer value or the default value; other kinds keep
/// their level.
pub proof fn law_set_then_read_event_level(
    events: Seq<(EventKind, i64)>,
    kind: EventKind,
    value: PowerLevel,
    default: PowerLevel,
    other: EventKind,
)
    requires
        value is Int || value == default,
        other != kind,
    ensures
        (match spec_set_event_level(events, kind, value, default, kind) {
            Some(v) => PowerLevel::Int(v),
            None => default,
        }) == value,
        spec_set_event_level(events, kind, value, default, other) == lookup_event(events, other),
{
}

} // verus!
