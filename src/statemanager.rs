use vstd::prelude::*;
use crate::datetime::DateTime;

verus! {

/// What the screen shows: the clock, the menu, or the clock-setting session.
#[derive(Debug, Clone, Copy, PartialEq, Eq, Structural)]
pub enum StateManager {
    Clock,
    Menu(MenuElt),
    SetClock(EditDateTime),
}

/// The entries of the menu.
#[derive(Debug, Clone, Copy, PartialEq, Eq, Structural)]
pub enum MenuElt {
    Clock,
    SetClock,
}

/// The other entry of the two-entry menu.
pub open spec fn other_elt(e: MenuElt) -> MenuElt {
    match e {
        MenuElt::Clock => MenuElt::SetClock,
        MenuElt::SetClock => MenuElt::Clock,
    }
}

impl MenuElt {
    pub fn next(&mut self)
        ensures
            *final(self) == other_elt(*old(self)),
    {
        *self = match *self {
            MenuElt::Clock => MenuElt::SetClock,
            MenuElt::SetClock => MenuElt::Clock,
        }
    }

    pub fn prev(&mut self)
        ensures
            *final(self) == other_elt(*old(self)),
    {
        *self = match *self {
            MenuElt::Clock => MenuElt::SetClock,
            MenuElt::SetClock => MenuElt::Clock,
        }
    }

    /// Leaving the menu goes back to the clock.
    pub fn cancel(&mut self) -> (r: StateManager)
        ensures
            r == StateManager::Clock,
            *final(self) == *old(self),
    {
        StateManager::Clock
    }

    /// Labels of the entries, in menu order.
    pub fn items(self) -> (r: &'static [&'static str])
        ensures
            r@.len() == 2,
            r@[0]@ == "Main screen"@,
            r@[1]@ == "Set clock"@,
    {
        &["Main screen", "Set clock"]
    }

    /// Position of this entry in `items`.
    pub fn index(self) -> (r: usize)
        ensures
            r == (if self == MenuElt::Clock { 0usize } else { 1usize }),
    {
        match self {
            MenuElt::Clock => 0,
            MenuElt::SetClock => 1,
        }
    }
}

/// The field that the clock-setting session edits, in the order of editing.
#[derive(Debug, Clone, Copy, PartialEq, Eq, Structural)]
pub enum EditDateTimeState {
    Year,
    Month,
    Day,
    Hour,
    Min,
}

/// A clock-setting session: a working copy of the time and the field under edit.
#[derive(Debug, Clone, Copy, PartialEq, Eq, Structural)]
pub struct EditDateTime {
    pub datetime: DateTime,
    pub state: EditDateTimeState,
}

/// The year after `y`, wrapping from 2105 (or beyond) to 1970.
pub open spec fn year_up(y: int) -> int {
    if y >= 2105 {
        1970
    } else {
        y + 1
    }
}

/// The year before `y`, wrapping from 1970 (or below) to 2105.
pub open spec fn year_down(y: int) -> int {
    if y <= 1970 {
        2105
    } else {
        y - 1
    }
}

/// `dt` with the field `f` moved one step up, each field wrapping in its range.
pub open spec fn field_up(dt: DateTime, f: EditDateTimeState) -> DateTime {
    match f {
        EditDateTimeState::Year => DateTime { year: year_up(dt.year as int) as u16, ..dt },
        EditDateTimeState::Month => DateTime { month: (dt.month % 12 + 1) as u8, ..dt },
        EditDateTimeState::Day => DateTime { day: (dt.day % 31 + 1) as u8, ..dt },
        EditDateTimeState::Hour => DateTime { hour: ((dt.hour + 1) % 24) as u8, ..dt },
        EditDateTimeState::Min => DateTime { min: ((dt.min + 1) % 60) as u8, ..dt },
    }
}

/// `dt` with the field `f` moved one step down, each field wrapping in its range.
pub open spec fn field_down(dt: DateTime, f: EditDateTimeState) -> DateTime {
    match f {
        EditDateTimeState::Year => DateTime { year: year_down(dt.year as int) as u16, ..dt },
        EditDateTimeState::Month => DateTime { month: ((dt.month + 10) % 12 + 1) as u8, ..dt },
        EditDateTimeState::Day => DateTime { day: ((dt.day + 29) % 31 + 1) as u8, ..dt },
        EditDateTimeState::Hour => DateTime { hour: ((dt.hour + 23) % 24) as u8, ..dt },
        EditDateTimeState::Min => DateTime { min: ((dt.min + 59) % 60) as u8, ..dt },
    }
}

/// The field edited after `f`; none after the minute.
pub open spec fn field_after(f: EditDateTimeState) -> Option<EditDateTimeState> {
    match f {
        EditDateTimeState::Year => Some(EditDateTimeState::Month),
        EditDateTimeState::Month => Some(EditDateTimeState::Day),
        EditDateTimeState::Day => Some(EditDateTimeState::Hour),
        EditDateTimeState::Hour => Some(EditDateTimeState::Min),
        EditDateTimeState::Min => None,
    }
}

/// The field edited before `f`; none before the year.
pub open spec fn field_before(f: EditDateTimeState) -> Option<EditDateTimeState> {
    match f {
        EditDateTimeState::Year => None,
        EditDateTimeState::Month => Some(EditDateTimeState::Year),
        EditDateTimeState::Day => Some(EditDateTimeState::Month),
        EditDateTimeState::Hour => Some(EditDateTimeState::Day),
        EditDateTimeState::Min => Some(EditDateTimeState::Hour),
    }
}

/// The screen after cancel in session `e`: the previous field, or the menu
/// (on its clock-setting entry) when the year was under edit.
pub open spec fn edit_cancelled(e: EditDateTime) -> StateManager {
    match field_before(e.state) {
        Some(f) => StateManager::SetClock(EditDateTime { state: f, ..e }),
        None => StateManager::Menu(MenuElt::SetClock),
    }
}

impl EditDateTime {
    /// A session on `datetime`, starting at the year.
    pub fn new(datetime: DateTime) -> (r: Self)
        ensures
            r.datetime == datetime,
            r.state == EditDateTimeState::Year,
    {
        Self { datetime, state: EditDateTimeState::Year }
    }

    /// Moves the field under edit one step up.
    pub fn next(&mut self)
        ensures
            final(self).state == old(self).state,
            final(self).datetime == field_up(old(self).datetime, old(self).state),
    {
        match self.state {
            EditDateTimeState::Year => {
                if self.datetime.year >= 2105 {
                    self.datetime.year = 1970;
                } else {
                    self.datetime.year = self.datetime.year + 1;
                }
            },
            EditDateTimeState::Month => self.datetime.month = self.datetime.month % 12 + 1,
            EditDateTimeState::Day => self.datetime.day = self.datetime.day % 31 + 1,
            EditDateTimeState::Hour => self.datetime.hour = ((self.datetime.hour as u16 + 1)
                % 24) as u8,
            EditDateTimeState::Min => self.datetime.min = ((self.datetime.min as u16 + 1)
                % 60) as u8,
        }
    }

    /// Moves the field under edit one step down.
    pub fn prev(&mut self)
        ensures
            final(self).state == old(self).state,
            final(self).datetime == field_down(old(self).datetime, old(self).state),
    {
        match self.state {
            EditDateTimeState::Year => {
                if self.datetime.year <= 1970 {
                    self.datetime.year = 2105;
                } else {
                    self.datetime.year = self.datetime.year - 1;
                }
            },
            EditDateTimeState::Month => self.datetime.month = ((self.datetime.month as u16 + 10)
                % 12 + 1) as u8,
            EditDateTimeState::Day => self.datetime.day = ((self.datetime.day as u16 + 29) % 31
                + 1) as u8,
            EditDateTimeState::Hour => self.datetime.hour = ((self.datetime.hour as u16 + 23)
                % 24) as u8,
            EditDateTimeState::Min => self.datetime.min = ((self.datetime.min as u16 + 59)
                % 60) as u8,
        }
    }

    /// Steps back one field; at the year the session is dropped for the menu.
    pub fn cancel(&mut self) -> (r: StateManager)
        ensures
            r == edit_cancelled(*old(self)),
            final(self).datetime == old(self).datetime,
            r is SetClock ==> r == StateManager::SetClock(*final(self)),
    {
        match self.state {
            EditDateTimeState::Year => return StateManager::Menu(MenuElt::SetClock),
            EditDateTimeState::Month => self.state = EditDateTimeState::Year,
            EditDateTimeState::Day => self.state = EditDateTimeState::Month,
            EditDateTimeState::Hour => self.state = EditDateTimeState::Day,
            EditDateTimeState::Min => self.state = EditDateTimeState::Hour,
        }
        StateManager::SetClock(*self)
    }

    /// Goes on to the next field; past the minute, hands out the edited time.
    pub fn ok(&mut self) -> (r: Option<DateTime>)
        ensures
            final(self).datetime == old(self).datetime,
            field_after(old(self).state) matches Some(f) ==> r is None && final(self).state == f,
            field_after(old(self).state) is None ==> r == Some(old(self).datetime)
                && final(self).state == old(self).state,
    {
        match self.state {
            EditDateTimeState::Year => self.state = EditDateTimeState::Month,
            EditDateTimeState::Month => self.state = EditDateTimeState::Day,
            EditDateTimeState::Day => self.state = EditDateTimeState::Hour,
            EditDateTimeState::Hour => self.state = EditDateTimeState::Min,
            EditDateTimeState::Min => return Some(self.datetime),
        }
        None
    }

    /// The line that names the field under edit.
    pub fn as_edit_str(&self) -> (r: &'static str)
        ensures
            r@ == edit_label(self.state),
    {
        match self.state {
            EditDateTimeState::Year => "Set year",
            EditDateTimeState::Month => "Set month",
            EditDateTimeState::Day => "Set day",
            EditDateTimeState::Hour => "Set hour",
            EditDateTimeState::Min => "Set minute",
        }
    }
}

/// The label of the line that names field `f`.
pub open spec fn edit_label(f: EditDateTimeState) -> Seq<char> {
    match f {
        EditDateTimeState::Year => "Set year"@,
        EditDateTimeState::Month => "Set month"@,
        EditDateTimeState::Day => "Set day"@,
        EditDateTimeState::Hour => "Set hour"@,
        EditDateTimeState::Min => "Set minute"@,
    }
}

} // verus!
