use vstd::prelude::*;

verus! {

/// Whether `EventId::parse` of `ruma` accepts a string as an event ID.
pub uninterp spec fn ruma_event_id_valid(s: Seq<char>) -> bool;

/// `ruma::EventId::parse`: whether the string is a valid event ID. The
/// contract names the result and states what the source checks: an accepted
/// string starts with `$`, and one without a `:` is accepted exactly when it
/// starts with `$` (one with a `:` must also end with a valid server name).
#[verifier::external_body]
fn is_valid_event_id(s: &str) -> (res: bool)
    ensures
        res == ruma_event_id_valid(s@),
        res ==> s@.len() > 0 && s@[0] == '$',
        !s@.contains(':') ==> (res <==> (s@.len() > 0 && s@[0] == '$')),
{
    ruma::EventId::parse(s).is_ok()
}

/// The page that the thread panel shows.
#[derive(Clone, Copy, Debug, PartialEq, Eq, Structural)]
pub enum ThreadPage {
    Loading,
    Content,
}

/// The page for the thread timeline, given whether it is empty when there
/// is one: its events once there are any, the loading page until then.
pub fn thread_page(timeline_is_empty: Option<bool>) -> (res: ThreadPage)
    ensures
        res == (if timeline_is_empty == Some(false) {
            ThreadPage::Content
        } else {
            ThreadPage::Loading
        }),
{
    match timeline_is_empty {
        Some(false) => ThreadPage::Content,
        _ => ThreadPage::Loading,
    }
}

/// Whether more events are needed at the start of the thread: never without
/// a timeline, always while it is empty, and otherwise when the view is
/// scrolled near the start (`near_start`: within two pages of it).
pub fn needs_more_events_at_the_start(timeline_is_empty: Option<bool>, near_start: bool) -> (res: bool)
    ensures
        res == match timeline_is_empty {
            None => false,
            Some(empty) => empty || near_start,
        },
{
    match timeline_is_empty {
        None => false,
        Some(empty) => empty || near_start,
    }
}

/// The scrolling state of the thread panel.
#[derive(Clone, Copy, Debug, PartialEq, Eq, Structural)]
pub struct ThreadPanel {
    /// Whether the panel sticks to the newest message of the thread.
    pub is_sticky: bool,
    /// Whether the panel is scrolling to the bottom by itself.
    pub is_auto_scrolling: bool,
}

impl ThreadPanel {
    /// The state of a new panel: sticky, not scrolling.
    pub fn new() -> (res: Self)
        ensures
            res == (ThreadPanel { is_sticky: true, is_auto_scrolling: false }),
    {
        ThreadPanel { is_sticky: true, is_auto_scrolling: false }
    }

    /// Scrolls down to the newest message, unless the panel is there
    /// already; returns whether scrolling starts.
    pub fn scroll_down(&mut self, is_at_bottom: bool) -> (scroll: bool)
        ensures
            scroll == !is_at_bottom,
            scroll ==> *final(self) == (ThreadPanel { is_auto_scrolling: true, ..*old(self) }),
            !scroll ==> *final(self) == *old(self),
    {
        if is_at_bottom {
            return false;
        }
        self.is_auto_scrolling = true;
        true
    }

    /// The scroll position changed. While scrolling by itself, the panel
    /// stops doing so once at the bottom, and nothing else happens;
    /// otherwise the user scrolled: the panel sticks to the bottom exactly
    /// when it is there. Returns whether to check for more events to load.
    pub fn scroll_value_changed(&mut self, is_at_bottom: bool) -> (check_more: bool)
        ensures
            check_more == !old(self).is_auto_scrolling,
            old(self).is_auto_scrolling ==> *final(self) == (ThreadPanel {
                is_sticky: old(self).is_sticky,
                is_auto_scrolling: !is_at_bottom,
            }),
            !old(self).is_auto_scrolling ==> *final(self) == (ThreadPanel {
                is_sticky: is_at_bottom,
                is_auto_scrolling: false,
            }),
    {
        if self.is_auto_scrolling {
            if is_at_bottom {
                self.is_auto_scrolling = false;
            }
            return false;
        }
        self.is_sticky = is_at_bottom;
        true
    }

    /// The height of the thread changed: a sticky panel scrolls down.
    /// Returns whether scrolling starts; more events are to be checked for
    /// in any case.
    pub fn scroll_max_value_changed(&mut self, is_at_bottom: bool) -> (scroll: bool)
        ensures
            scroll == (old(self).is_sticky && !is_at_bottom),
            scroll ==> *final(self) == (ThreadPanel { is_auto_scrolling: true, ..*old(self) }),
            !scroll ==> *final(self) == *old(self),
    {
        if self.is_sticky {
            self.scroll_down(is_at_bottom)
        } else {
            false
        }
    }

    /// A new thread timeline is shown: the panel sticks to its newest
    /// message and scrolls down to it. Returns whether scrolling starts.
    pub fn timeline_set(&mut self, is_at_bottom: bool) -> (scroll: bool)
        ensures
            scroll == !is_at_bottom,
            final(self).is_sticky,
            final(self).is_auto_scrolling == (old(self).is_auto_scrolling || !is_at_bottom),
    {
        self.is_sticky = true;
        self.scroll_down(is_at_bottom)
    }
}

/// The event that an action of the thread panel targets: none unless the
/// target is a valid event ID; then the first event of the thread timeline
/// with that ID, if there is one. `event_ids` holds the ID of each event of
/// the timeline that has one.
pub fn event_for_action_target(target: &Option<String>, event_ids: &Vec<Option<String>>) -> (res: Option<usize>)
    ensures
        match target {
            None => res is None,
            Some(t) => if !ruma_event_id_valid(t@) {
                res is None
            } else {
                match res {
                    Some(k) => k < event_ids@.len() && (event_ids@[k as int] matches Some(id) && id@ == t@)
                        && forall|j: int| 0 <= j < k ==> !(#[trigger] event_ids@[j] matches Some(id) && id@ == t@),
                    None => forall|j: int|
                        0 <= j < event_ids@.len() ==> !(#[trigger] event_ids@[j] matches Some(id) && id@ == t@),
                }
            },
        },
{
    let t = match target {
        None => {
            return None;
        },
        Some(t) => t,
    };
    if !is_valid_event_id(t.as_str()) {
        return None;
    }
    let mut i: usize = 0;
    while i < event_ids.len()
        invariant
            i <= event_ids@.len(),
            target matches Some(tt) && tt@ == t@,
            ruma_event_id_valid(t@),
            forall|j: int| 0 <= j < i ==> !(#[trigger] event_ids@[j] matches Some(id) && id@ == t@),
        decreases event_ids@.len() - i,
    {
        match &event_ids[i] {
            Some(id) => {
                if crate::text::str_equal(id.as_str(), t.as_str()) {
                    return Some(i);
                }
            },
            None => {},
        }
        i = i + 1;
    }
    None
}

} // verus!
