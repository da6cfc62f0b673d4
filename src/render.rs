use vstd::prelude::*;
use crate::datetime::{DateTime, DayOfWeek};
use crate::statemanager::{EditDateTimeState, StateManager};
use crate::ui::Model;

verus! {

/// The character of decimal digit `d` (0 to 9).
pub open spec fn digit(d: int) -> char {
    if d == 0 {
        '0'
    } else if d == 1 {
        '1'
    } else if d == 2 {
        '2'
    } else if d == 3 {
        '3'
    } else if d == 4 {
        '4'
    } else if d == 5 {
        '5'
    } else if d == 6 {
        '6'
    } else if d == 7 {
        '7'
    } else if d == 8 {
        '8'
    } else {
        '9'
    }
}

/// The last two decimal digits of `n`.
pub open spec fn two_digits(n: int) -> Seq<char> {
    seq![digit(n / 10 % 10), digit(n % 10)]
}

/// The last four decimal digits of `n`.
pub open spec fn four_digits(n: int) -> Seq<char> {
    seq![digit(n / 1000 % 10), digit(n / 100 % 10), digit(n / 10 % 10), digit(n % 10)]
}

/// Name of a weekday.
pub open spec fn day_name(d: DayOfWeek) -> Seq<char> {
    match d {
        DayOfWeek::Monday => seq!['M', 'o', 'n', 'd', 'a', 'y'],
        DayOfWeek::Tuesday => seq!['T', 'u', 'e', 's', 'd', 'a', 'y'],
        DayOfWeek::Wednesday => seq!['W', 'e', 'd', 'n', 'e', 's', 'd', 'a', 'y'],
        DayOfWeek::Thursday => seq!['T', 'h', 'u', 'r', 's', 'd', 'a', 'y'],
        DayOfWeek::Friday => seq!['F', 'r', 'i', 'd', 'a', 'y'],
        DayOfWeek::Saturday => seq!['S', 'a', 't', 'u', 'r', 'd', 'a', 'y'],
        DayOfWeek::Sunday => seq!['S', 'u', 'n', 'd', 'a', 'y'],
    }
}

/// `YYYY-MM-DD`.
pub open spec fn date_text(dt: DateTime) -> Seq<char> {
    four_digits(dt.year as int) + seq!['-'] + two_digits(dt.month as int) + seq!['-']
        + two_digits(dt.day as int)
}

/// The header line: `YYYY-MM-DD <weekday>`.
pub open spec fn header_text(dt: DateTime) -> Seq<char> {
    date_text(dt) + seq![' '] + day_name(dt.day_of_week)
}

/// The title of the clock-setting screen: `Edit: YYYY-MM-DD HH:MM`.
pub open spec fn edit_title(dt: DateTime) -> Seq<char> {
    seq!['E', 'd', 'i', 't', ':', ' '] + date_text(dt) + seq![' '] + two_digits(dt.hour as int)
        + seq![':'] + two_digits(dt.min as int)
}

/// The large digits of the clock screen and the small seconds beside them.
#[derive(Debug, Clone, PartialEq, Eq)]
pub struct ClockFace {
    /// Tens of the hour; `None` leaves the place blank (hours below 10).
    pub hour_tens: Option<u8>,
    pub hour_ones: u8,
    /// The colon is drawn on even seconds and left blank on odd ones.
    pub colon: bool,
    pub min_tens: u8,
    pub min_ones: u8,
    /// `:SS`.
    pub seconds: Vec<char>,
}

/// The body of the screen below the header.
#[derive(Debug, Clone, PartialEq, Eq)]
pub enum Body {
    Clock(ClockFace),
    /// The menu, with the index of the marked entry.
    Menu(usize),
    /// The clock-setting screen: its title and the field under edit.
    SetClock(Vec<char>, EditDateTimeState),
}

/// What one frame of the panel shows.
#[derive(Debug, Clone, PartialEq, Eq)]
pub struct Frame {
    pub header: Vec<char>,
    pub body: Body,
}

/// `f` shows the hours and minutes of `dt` in large digits (the tens of the
/// hour blank below 10), the colon on even seconds, and the seconds as `:SS`.
pub open spec fn face_shows(f: ClockFace, dt: DateTime) -> bool {
    &&& f.hour_tens == (if dt.hour >= 10 { Some((dt.hour / 10) as u8) } else { None::<u8> })
    &&& f.hour_ones == dt.hour % 10
    &&& f.colon == (dt.sec % 2 == 0)
    &&& f.min_tens == dt.min / 10
    &&& f.min_ones == dt.min % 10
    &&& f.seconds@ == seq![':'] + two_digits(dt.sec as int)
}

/// `b` is the body of the screen of `m`: the clock face of its time, the menu
/// with its entry marked, or the clock-setting title and field.
pub open spec fn body_shows(b: Body, m: Model) -> bool {
    match m.statemanager {
        StateManager::Clock => b matches Body::Clock(f) && face_shows(f, m.new_time),
        StateManager::Menu(e) => b == Body::Menu(
            if e == crate::statemanager::MenuElt::Clock { 0usize } else { 1usize },
        ),
        StateManager::SetClock(e) => b matches Body::SetClock(t, f) && t@ == edit_title(e.datetime)
            && f == e.state,
    }
}

fn digit_char(d: u8) -> (r: char)
    ensures
        r == digit(d as int),
{
    if d == 0 {
        '0'
    } else if d == 1 {
        '1'
    } else if d == 2 {
        '2'
    } else if d == 3 {
        '3'
    } else if d == 4 {
        '4'
    } else if d == 5 {
        '5'
    } else if d == 6 {
        '6'
    } else if d == 7 {
        '7'
    } else if d == 8 {
        '8'
    } else {
        '9'
    }
}

fn push_two(v: &mut Vec<char>, n: u16)
    ensures
        final(v)@ == old(v)@ + two_digits(n as int),
{
    v.push(digit_char((n / 10 % 10) as u8));
    v.push(digit_char((n % 10) as u8));
    proof {
        assert(final(v)@ =~= old(v)@ + two_digits(n as int));
    }
}

fn push_date(v: &mut Vec<char>, dt: &DateTime)
    ensures
        final(v)@ == old(v)@ + date_text(*dt),
{
    let y = dt.year;
    v.push(digit_char((y / 1000 % 10) as u8));
    v.push(digit_char((y / 100 % 10) as u8));
    v.push(digit_char((y / 10 % 10) as u8));
    v.push(digit_char((y % 10) as u8));
    v.push('-');
    push_two(v, dt.month as u16);
    v.push('-');
    push_two(v, dt.day as u16);
    proof {
        assert(final(v)@ =~= old(v)@ + date_text(*dt));
    }
}

fn day_name_chars(d: DayOfWeek) -> (r: Vec<char>)
    ensures
        r@ == day_name(d),
{
    let r = match d {
        DayOfWeek::Monday => vec!['M', 'o', 'n', 'd', 'a', 'y'],
        DayOfWeek::Tuesday => vec!['T', 'u', 'e', 's', 'd', 'a', 'y'],
        DayOfWeek::Wednesday => vec!['W', 'e', 'd', 'n', 'e', 's', 'd', 'a', 'y'],
        DayOfWeek::Thursday => vec!['T', 'h', 'u', 'r', 's', 'd', 'a', 'y'],
        DayOfWeek::Friday => vec!['F', 'r', 'i', 'd', 'a', 'y'],
        DayOfWeek::Saturday => vec!['S', 'a', 't', 'u', 'r', 'd', 'a', 'y'],
        DayOfWeek::Sunday => vec!['S', 'u', 'n', 'd', 'a', 'y'],
    };
    proof {
        assert(r@ =~= day_name(d));
    }
    r
}

/// The header line of `dt`.
pub fn header(dt: &DateTime) -> (r: Vec<char>)
    ensures
        r@ == header_text(*dt),
{
    let mut v: Vec<char> = Vec::new();
    push_date(&mut v, dt);
    v.push(' ');
    let mut name = day_name_chars(dt.day_of_week);
    v.append(&mut name);
    proof {
        assert(v@ =~= header_text(*dt));
    }
    v
}

/// The title of the clock-setting screen for the time under edit.
pub fn set_clock_title(dt: &DateTime) -> (r: Vec<char>)
    ensures
        r@ == edit_title(*dt),
{
    let mut v: Vec<char> = vec!['E', 'd', 'i', 't', ':', ' '];
    push_date(&mut v, dt);
    v.push(' ');
    push_two(&mut v, dt.hour as u16);
    v.push(':');
    push_two(&mut v, dt.min as u16);
    proof {
        assert(v@ =~= edit_title(*dt));
    }
    v
}

/// The clock screen for `dt`.
pub fn clock_face(dt: &DateTime) -> (r: ClockFace)
    ensures
        face_shows(r, *dt),
{
    let mut seconds: Vec<char> = vec![':'];
    push_two(&mut seconds, dt.sec as u16);
    proof {
        assert(seconds@ =~= seq![':'] + two_digits(dt.sec as int));
    }
    ClockFace {
        hour_tens: if dt.hour >= 10 { Some(dt.hour / 10) } else { None },
        hour_ones: dt.hour % 10,
        colon: dt.sec % 2 == 0,
        min_tens: dt.min / 10,
        min_ones: dt.min % 10,
        seconds,
    }
}

impl Model {
    /// The frame that shows this model: the header of the current time, and
    /// the body of the screen.
    pub fn view(&self) -> (r: Frame)
        ensures
            r.header@ == header_text(self.new_time),
            body_shows(r.body, *self),
    {
        let header = header(&self.new_time);
        let body = match self.statemanager {
            StateManager::Clock => Body::Clock(clock_face(&self.new_time)),
            StateManager::Menu(e) => Body::Menu(e.index()),
            StateManager::SetClock(e) => Body::SetClock(set_clock_title(&e.datetime), e.state),
        };
        Frame { header, body }
    }
}

} // verus!
