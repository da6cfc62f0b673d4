use bedclock::datetime::{DateTime, DayOfWeek};
use bedclock::statemanager::{EditDateTime, EditDateTimeState, MenuElt, StateManager};
use bedclock::ui::{Cmd, Model, Msg};

fn dt(year: u16, month: u8, day: u8, hour: u8, min: u8, sec: u8) -> DateTime {
    DateTime { year, month, day, hour, min, sec, day_of_week: DayOfWeek::Saturday }
}

fn send(m: &mut Model, msg: Msg) -> Vec<Cmd> {
    let cmds = m.update(msg);
    assert!(cmds.len() <= 4);
    cmds.to_vec()
}

fn ticked(t: DateTime) -> Model {
    let mut m = Model::init();
    send(&mut m, Msg::DateTime(t));
    m
}

#[test]
fn init_shows_clock_at_epoch_zero() {
    let m = Model::init();
    assert_eq!(m.statemanager, StateManager::Clock);
    assert_eq!(m.last_time, 0);
    assert_eq!(m.new_time, DateTime { day_of_week: DayOfWeek::Thursday, ..dt(1970, 1, 1, 0, 0, 0) });
}

#[test]
fn every_event_in_every_state_gives_few_commands() {
    let now = dt(2018, 9, 1, 23, 59, 40);
    let states = vec![
        StateManager::Clock,
        StateManager::Menu(MenuElt::Clock),
        StateManager::Menu(MenuElt::SetClock),
        StateManager::SetClock(EditDateTime { datetime: now, state: EditDateTimeState::Year }),
        StateManager::SetClock(EditDateTime { datetime: now, state: EditDateTimeState::Min }),
    ];
    let msgs = vec![
        Msg::DateTime(dt(2018, 9, 2, 0, 0, 0)),
        Msg::DateTime(dt(0, 0, 0, 99, 99, 99)),
        Msg::ButtonCancel,
        Msg::ButtonMinus,
        Msg::ButtonPlus,
        Msg::ButtonOk,
    ];
    for s in &states {
        for msg in &msgs {
            let mut m = Model { new_time: now, last_time: 0, statemanager: *s };
            assert!(send(&mut m, *msg).len() <= 4);
        }
    }
}

#[test]
fn cancel_on_clock_is_idle() {
    let mut m = ticked(dt(2018, 9, 1, 10, 0, 0));
    for _ in 0..5 {
        assert!(send(&mut m, Msg::ButtonCancel).is_empty());
        assert_eq!(m.statemanager, StateManager::Clock);
    }
}

#[test]
fn set_clock_round_trip_commits_entry_time() {
    let now = dt(2018, 9, 1, 23, 59, 40);
    let mut m = Model { new_time: now, last_time: 0, statemanager: StateManager::Menu(MenuElt::SetClock) };
    assert!(send(&mut m, Msg::ButtonOk).is_empty());
    let entry = dt(2018, 9, 1, 23, 59, 0);
    assert_eq!(
        m.statemanager,
        StateManager::SetClock(EditDateTime { datetime: entry, state: EditDateTimeState::Year })
    );
    for _ in 0..4 {
        assert!(send(&mut m, Msg::ButtonOk).is_empty());
    }
    assert_eq!(send(&mut m, Msg::ButtonOk), vec![Cmd::UpdateRtc(entry), Cmd::FullUpdate]);
    assert_eq!(m.statemanager, StateManager::Clock);
}

#[test]
fn edit_fields_wrap_on_plus() {
    let start = dt(2105, 12, 31, 23, 59, 0);
    let mut m = Model {
        new_time: start,
        last_time: 0,
        statemanager: StateManager::SetClock(EditDateTime { datetime: start, state: EditDateTimeState::Year }),
    };
    send(&mut m, Msg::ButtonPlus);
    let expect = |d: DateTime, f: EditDateTimeState| StateManager::SetClock(EditDateTime { datetime: d, state: f });
    assert_eq!(m.statemanager, expect(dt(1970, 12, 31, 23, 59, 0), EditDateTimeState::Year));
    send(&mut m, Msg::ButtonOk);
    send(&mut m, Msg::ButtonPlus);
    assert_eq!(m.statemanager, expect(dt(1970, 1, 31, 23, 59, 0), EditDateTimeState::Month));
    send(&mut m, Msg::ButtonOk);
    send(&mut m, Msg::ButtonPlus);
    assert_eq!(m.statemanager, expect(dt(1970, 1, 1, 23, 59, 0), EditDateTimeState::Day));
    send(&mut m, Msg::ButtonOk);
    send(&mut m, Msg::ButtonPlus);
    assert_eq!(m.statemanager, expect(dt(1970, 1, 1, 0, 59, 0), EditDateTimeState::Hour));
    send(&mut m, Msg::ButtonOk);
    send(&mut m, Msg::ButtonPlus);
    assert_eq!(m.statemanager, expect(dt(1970, 1, 1, 0, 0, 0), EditDateTimeState::Min));
}

#[test]
fn edit_fields_wrap_on_minus() {
    let start = dt(1970, 1, 1, 0, 0, 0);
    let mut e = EditDateTime::new(start);
    e.prev();
    assert_eq!(e.datetime.year, 2105);
    e.ok();
    e.prev();
    assert_eq!(e.datetime.month, 12);
    e.ok();
    e.prev();
    assert_eq!(e.datetime.day, 31);
    e.ok();
    e.prev();
    assert_eq!(e.datetime.hour, 23);
    e.ok();
    e.prev();
    assert_eq!(e.datetime.min, 59);
    e.next();
    assert_eq!(e.datetime.min, 0);
}

#[test]
fn day_wraps_at_31_in_every_month() {
    let mut e = EditDateTime::new(dt(2018, 2, 28, 0, 0, 0));
    e.ok();
    e.ok();
    e.next();
    assert_eq!(e.datetime.day, 29);
    e.next();
    e.next();
    assert_eq!(e.datetime.day, 31);
    e.next();
    assert_eq!(e.datetime.day, 1);
}

#[test]
fn auto_reset_after_ten_minutes() {
    let t = 1535846380u32;
    for (later, expect) in [(601u32, StateManager::Clock), (599u32, StateManager::Menu(MenuElt::Clock)), (600u32, StateManager::Menu(MenuElt::Clock))] {
        let mut m = ticked(DateTime::new(t));
        send(&mut m, Msg::ButtonOk);
        assert_eq!(m.last_time, t);
        assert_eq!(m.statemanager, StateManager::Menu(MenuElt::Clock));
        assert!(send(&mut m, Msg::DateTime(DateTime::new(t + later))).is_empty());
        assert_eq!(m.statemanager, expect);
    }
}

#[test]
fn no_auto_reset_when_clock_set_back() {
    let t = 1535846380u32;
    let mut m = ticked(DateTime::new(t));
    send(&mut m, Msg::ButtonOk);
    send(&mut m, Msg::DateTime(DateTime::new(t - 5000)));
    assert_eq!(m.statemanager, StateManager::Menu(MenuElt::Clock));
}

#[test]
fn midnight_tick_asks_full_redraw() {
    let mut m = Model::init();
    assert_eq!(send(&mut m, Msg::DateTime(dt(2018, 9, 2, 0, 0, 0))), vec![Cmd::FullUpdate]);
    assert!(send(&mut m, Msg::DateTime(dt(2018, 9, 2, 0, 0, 1))).is_empty());
    assert!(send(&mut m, Msg::DateTime(dt(2018, 9, 2, 12, 0, 0))).is_empty());
}

#[test]
fn leaving_menu_asks_full_redraw() {
    let mut m = ticked(dt(2018, 9, 1, 10, 0, 0));
    assert!(send(&mut m, Msg::ButtonOk).is_empty());
    assert_eq!(send(&mut m, Msg::ButtonCancel), vec![Cmd::FullUpdate]);
    assert_eq!(m.statemanager, StateManager::Clock);
    send(&mut m, Msg::ButtonOk);
    assert_eq!(send(&mut m, Msg::ButtonOk), vec![Cmd::FullUpdate]);
    assert_eq!(m.statemanager, StateManager::Clock);
}

#[test]
fn cancel_steps_back_through_fields() {
    let now = dt(2018, 9, 1, 10, 0, 0);
    let mut m = Model { new_time: now, last_time: 0, statemanager: StateManager::Menu(MenuElt::SetClock) };
    send(&mut m, Msg::ButtonOk);
    send(&mut m, Msg::ButtonOk);
    send(&mut m, Msg::ButtonPlus);
    let edited = dt(2018, 10, 1, 10, 0, 0);
    assert_eq!(
        m.statemanager,
        StateManager::SetClock(EditDateTime { datetime: edited, state: EditDateTimeState::Month })
    );
    assert!(send(&mut m, Msg::ButtonCancel).is_empty());
    assert_eq!(
        m.statemanager,
        StateManager::SetClock(EditDateTime { datetime: edited, state: EditDateTimeState::Year })
    );
    assert!(send(&mut m, Msg::ButtonCancel).is_empty());
    assert_eq!(m.statemanager, StateManager::Menu(MenuElt::SetClock));
}

#[test]
fn menu_plus_and_minus_toggle() {
    let mut m = ticked(dt(2018, 9, 1, 10, 0, 0));
    send(&mut m, Msg::ButtonPlus);
    assert_eq!(m.statemanager, StateManager::Clock);
    send(&mut m, Msg::ButtonOk);
    send(&mut m, Msg::ButtonPlus);
    assert_eq!(m.statemanager, StateManager::Menu(MenuElt::SetClock));
    send(&mut m, Msg::ButtonPlus);
    assert_eq!(m.statemanager, StateManager::Menu(MenuElt::Clock));
    send(&mut m, Msg::ButtonMinus);
    assert_eq!(m.statemanager, StateManager::Menu(MenuElt::SetClock));
}

#[test]
fn end_to_end_set_clock() {
    let now = dt(2018, 9, 1, 23, 59, 40);
    let mut m = ticked(now);
    assert!(send(&mut m, Msg::ButtonOk).is_empty());
    assert_eq!(m.statemanager, StateManager::Menu(MenuElt::Clock));
    assert!(send(&mut m, Msg::ButtonPlus).is_empty());
    assert_eq!(m.statemanager, StateManager::Menu(MenuElt::SetClock));
    assert!(send(&mut m, Msg::ButtonOk).is_empty());
    let entry = dt(2018, 9, 1, 23, 59, 0);
    assert_eq!(
        m.statemanager,
        StateManager::SetClock(EditDateTime { datetime: entry, state: EditDateTimeState::Year })
    );
    let mut all = Vec::new();
    for _ in 0..5 {
        all.extend(send(&mut m, Msg::ButtonOk));
    }
    assert_eq!(m.statemanager, StateManager::Clock);
    assert_eq!(all, vec![Cmd::UpdateRtc(entry), Cmd::FullUpdate]);
}

#[test]
fn menu_elt_helpers() {
    let mut e = MenuElt::Clock;
    assert_eq!(e.cancel(), StateManager::Clock);
    e.next();
    assert_eq!(e, MenuElt::SetClock);
    e.prev();
    assert_eq!(e, MenuElt::Clock);
    assert_eq!(e.items(), &["Main screen", "Set clock"]);
    assert_eq!(MenuElt::SetClock.index(), 1);
}

#[test]
fn edit_labels_and_ok() {
    let start = dt(2018, 9, 1, 10, 20, 0);
    let mut e = EditDateTime::new(start);
    let labels = ["Set year", "Set month", "Set day", "Set hour", "Set minute"];
    for (i, l) in labels.iter().enumerate() {
        assert_eq!(e.as_edit_str(), *l);
        let r = e.ok();
        if i < 4 {
            assert_eq!(r, None);
        } else {
            assert_eq!(r, Some(start));
        }
    }
    let mut back = EditDateTime { datetime: start, state: EditDateTimeState::Min };
    assert_eq!(
        back.cancel(),
        StateManager::SetClock(EditDateTime { datetime: start, state: EditDateTimeState::Hour })
    );
}
