use vstd::prelude::*;

verus! {

/// The sending state of a message.
#[derive(Clone, Copy, Debug, PartialEq, Eq, Structural)]
pub enum MessageState {
    /// The message was sent and not edited: nothing to show.
    Delivered,
    /// The message is being sent.
    Sending,
    /// Sending failed, and can be retried.
    RecoverableError,
    /// Sending failed for good.
    PermanentError,
    /// The message was sent and edited.
    Edited,
}

/// The page that the state indicator of a message shows.
#[derive(Clone, Copy, Debug, PartialEq, Eq, Structural)]
pub enum StatePage {
    /// Nothing is shown.
    Empty,
    Sent,
    Sending,
    Warning,
    Error,
    Edited,
}

impl StatePage {
    /// The name of the page in the stack.
    pub fn name(&self) -> (res: &'static str)
        ensures
            res@ == self.spec_name(),
    {
        match self {
            StatePage::Empty => "none",
            StatePage::Sent => "sent",
            StatePage::Sending => "sending",
            StatePage::Warning => "warning",
            StatePage::Error => "error",
            StatePage::Edited => "edited",
        }
    }

    /// The name of the page in the stack.
    pub open spec fn spec_name(&self) -> Seq<char> {
        match self {
            StatePage::Empty => "none"@,
            StatePage::Sent => "sent"@,
            StatePage::Sending => "sending"@,
            StatePage::Warning => "warning"@,
            StatePage::Error => "error"@,
            StatePage::Edited => "edited"@,
        }
    }
}

/// The number of seconds for which the indicator shows that a message was
/// sent.
pub const SENT_VISIBLE_SECONDS: u32 = 3;

/// A page that the indicator switches to after a delay.
#[derive(Clone, Copy, Debug, PartialEq, Eq, Structural)]
pub struct DelayedPage {
    /// The delay, in seconds.
    pub after_seconds: u32,
    pub page: StatePage,
}

/// What the state indicator does when the state of its message changes: the
/// page it shows now, and the page it switches to after a delay, if any.
#[derive(Clone, Copy, Debug, PartialEq, Eq, Structural)]
pub struct StateTransition {
    pub page: StatePage,
    pub later: Option<DelayedPage>,
}

/// Whether the message was still on its way, or failed to get there.
pub open spec fn is_pending(s: MessageState) -> bool {
    s is Sending || s is RecoverableError || s is PermanentError
}

/// What the indicator does when the state goes from `prev` to `state`:
/// nothing when the state is unchanged; when a pending message is now sent
/// (or sent and edited), it shows that it was sent for
/// `SENT_VISIBLE_SECONDS` seconds before the page of the new state.
pub open spec fn spec_state_transition(prev: MessageState, state: MessageState) -> Option<StateTransition> {
    if prev == state {
        None
    } else {
        Some(
            match state {
                MessageState::Delivered => if is_pending(prev) {
                    StateTransition { page: StatePage::Sent, later: Some(DelayedPage { after_seconds: SENT_VISIBLE_SECONDS, page: StatePage::Empty }) }
                } else {
                    StateTransition { page: StatePage::Empty, later: None }
                },
                MessageState::Sending => StateTransition { page: StatePage::Sending, later: None },
                MessageState::RecoverableError => StateTransition { page: StatePage::Warning, later: None },
                MessageState::PermanentError => StateTransition { page: StatePage::Error, later: None },
                MessageState::Edited => if is_pending(prev) {
                    StateTransition { page: StatePage::Sent, later: Some(DelayedPage { after_seconds: SENT_VISIBLE_SECONDS, page: StatePage::Edited }) }
                } else {
                    StateTransition { page: StatePage::Edited, later: None }
                },
            },
        )
    }
}

/// The state indicator of a message.
#[derive(Clone, Copy, Debug, PartialEq, Eq, Structural)]
pub struct MessageStateStack {
    pub state: MessageState,
}

impl MessageStateStack {
    /// A new indicator, for a sent message.
    pub fn new() -> (res: Self)
        ensures
            res.state == MessageState::Delivered,
    {
        MessageStateStack { state: MessageState::Delivered }
    }

    /// Sets the state to display, and says what the indicator shows.
    pub fn set_state(&mut self, state: MessageState) -> (res: Option<StateTransition>)
        ensures
            final(self).state == state,
            res == spec_state_transition(old(self).state, state),
    {
        let prev = self.state;
        if prev == state {
            return None;
        }
        let pending = match prev {
            MessageState::Sending | MessageState::RecoverableError | MessageState::PermanentError => true,
            _ => false,
        };
        let transition = match state {
            MessageState::Delivered => if pending {
                StateTransition { page: StatePage::Sent, later: Some(DelayedPage { after_seconds: SENT_VISIBLE_SECONDS, page: StatePage::Empty }) }
            } else {
                StateTransition { page: StatePage::Empty, later: None }
            },
            MessageState::Sending => StateTransition { page: StatePage::Sending, later: None },
            MessageState::RecoverableError => StateTransition { page: StatePage::Warning, later: None },
            MessageState::PermanentError => StateTransition { page: StatePage::Error, later: None },
            MessageState::Edited => if pending {
                StateTransition { page: StatePage::Sent, later: Some(DelayedPage { after_seconds: SENT_VISIBLE_SECONDS, page: StatePage::Edited }) }
            } else {
                StateTransition { page: StatePage::Edited, later: None }
            },
        };
        self.state = state;
        Some(transition)
    }
}

/// The page that shows a state for good.
pub open spec fn page_of(s: MessageState) -> StatePage {
    match s {
        MessageState::Delivered => StatePage::Empty,
        MessageState::Sending => StatePage::Sending,
        MessageState::RecoverableError => StatePage::Warning,
        MessageState::PermanentError => StatePage::Error,
        MessageState::Edited => StatePage::Edited,
    }
}

/// The page that the indicator shows once a transition has run its course.
pub open spec fn settled_page(t: StateTransition) -> StatePage {
    match t.later {
        Some(d) => d.page,
        None => t.page,
    }
}

/// Whatever the previous state, a change of state leaves the indicator on
/// the page of the new state; only a message that was pending shows first
/// that it was sent.
pub proof fn law_transition_settles_on_new_state(prev: MessageState, state: MessageState)
    requires
        prev != state,
    ensures
        spec_state_transition(prev, state) matches Some(t) && settled_page(t) == page_of(state)
            && ((t.page is Sent) <==> (is_pending(prev) && (state is Delivered || state is Edited)))
            && (t.later matches Some(d) ==> t.page is Sent && d.after_seconds == 3),
{
}

} // verus!
