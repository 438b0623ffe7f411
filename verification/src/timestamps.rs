use vstd::prelude::*;

verus! {

/// The kind of a virtual item of the timeline.
#[derive(Clone, Copy, Debug, PartialEq, Eq, Structural)]
pub enum VirtualItemKind {
    /// The start of the visible history.
    TimelineStart,
    /// A day divider, for a day of the given year.
    DayDivider { year: i32 },
    /// The marker of new messages.
    NewMessages,
    /// Another kind, which a divider does not present.
    Other,
}

/// What a divider row says.
#[derive(Clone, Copy, Debug, PartialEq, Eq, Structural)]
pub enum DividerLabel {
    /// This is the start of the visible history.
    TimelineStart,
    /// The date, without the year (a day of the current year).
    DayWithoutYear,
    /// The date, with the year.
    DayWithYear,
    /// New messages; the row is then marked as such.
    NewMessages,
}

/// What a divider row says for a kind of item, given the current year: a
/// day of the current year goes without the year.
pub fn divider_label(kind: VirtualItemKind, current_year: i32) -> (res: DividerLabel)
    requires
        !(kind is Other),
    ensures
        res == (match kind {
            VirtualItemKind::TimelineStart => DividerLabel::TimelineStart,
            VirtualItemKind::DayDivider { year } => if year == current_year {
                DividerLabel::DayWithoutYear
            } else {
                DividerLabel::DayWithYear
            },
            _ => DividerLabel::NewMessages,
        }),
{
    match kind {
        VirtualItemKind::TimelineStart => DividerLabel::TimelineStart,
        VirtualItemKind::DayDivider { year } => if year == current_year {
            DividerLabel::DayWithoutYear
        } else {
            DividerLabel::DayWithYear
        },
        _ => DividerLabel::NewMessages,
    }
}

/// The format of a date in a day divider, for the label.
pub fn divider_date_format(label: DividerLabel) -> (res: Option<&'static str>)
    ensures
        match label {
            DividerLabel::DayWithoutYear => res == Some("%A, %B %-e"),
            DividerLabel::DayWithYear => res == Some("%A, %B %-e, %Y"),
            _ => res is None,
        },
{
    match label {
        DividerLabel::DayWithoutYear => Some("%A, %B %-e"),
        DividerLabel::DayWithYear => Some("%A, %B %-e, %Y"),
        _ => None,
    }
}

/// The clock format of the system.
#[derive(Clone, Copy, Debug, PartialEq, Eq, Structural)]
pub enum ClockFormat {
    TwelveHours,
    TwentyFourHours,
}

/// The format of the time of an event, for the clock format.
pub fn event_time_format(clock: ClockFormat) -> (res: &'static str)
    ensures
        clock is TwelveHours ==> res == "%I:%M %p",
        clock is TwentyFourHours ==> res == "%R",
{
    match clock {
        ClockFormat::TwelveHours => "%I:%M %p",
        ClockFormat::TwentyFourHours => "%R",
    }
}

/// The format of the date and time of a read receipt, for the clock format;
/// `None` when the receipt has no timestamp (0), and then none shows.
pub fn receipt_timestamp_format(timestamp: u64, clock: ClockFormat) -> (res: Option<&'static str>)
    ensures
        timestamp == 0 ==> res is None,
        timestamp > 0 && clock is TwelveHours ==> res == Some("%B %-e at %I:%M %p"),
        timestamp > 0 && clock is TwentyFourHours ==> res == Some("%B %-e at %H:%M"),
{
    if timestamp == 0 {
        return None;
    }
    match clock {
        ClockFormat::TwelveHours => Some("%B %-e at %I:%M %p"),
        ClockFormat::TwentyFourHours => Some("%B %-e at %H:%M"),
    }
}

} // verus!
