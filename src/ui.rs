use vstd::prelude::*;
use crate::datetime::DateTime;
use crate::statemanager::{
    edit_cancelled, field_after, field_down, field_up, other_elt, EditDateTime, MenuElt,
    StateManager,
};

verus! {

/// An event handed to the model.
#[derive(Debug, Clone, Copy, PartialEq, Eq, Structural)]
pub enum Msg {
    /// The time read from the real-time clock at a second rollover.
    DateTime(DateTime),
    ButtonCancel,
    ButtonMinus,
    ButtonPlus,
    ButtonOk,
}

impl Msg {
    pub open spec fn spec_is_button(self) -> bool {
        !(self is DateTime)
    }

    fn is_button(&self) -> (r: bool)
        ensures
            r == self.spec_is_button(),
    {
        match self {
            Msg::DateTime(_) => false,
            _ => true,
        }
    }
}

/// A command that the model hands back to its caller.
#[derive(Debug, Clone, Copy, PartialEq, Eq, Structural)]
pub enum Cmd {
    /// Write this time to the real-time clock.
    UpdateRtc(DateTime),
    /// Redraw the panel with a full refresh.
    FullUpdate,
}

/// Most commands that one update returns.
pub const MAX_CMDS: usize = 4;

#[verifier::external_type_specification]
#[verifier::external_body]
#[verifier::reject_recursive_types(T)]
pub struct ExHeaplessVec<T, const N: usize>(heapless::Vec<T, N>);

/// The commands that a list holds, in order.
pub uninterp spec fn cmd_seq(v: heapless::Vec<Cmd, 4>) -> Seq<Cmd>;

/// Relies on heapless::Vec::new: a new vector is empty.
#[verifier::external_body]
fn cmds_new() -> (r: heapless::Vec<Cmd, 4>)
    ensures
        cmd_seq(r) == Seq::<Cmd>::empty(),
{
    heapless::Vec::new()
}

/// Relies on heapless::Vec::push: below capacity the item is appended,
/// at capacity it is handed back and the vector is left as it was.
#[verifier::external_body]
fn cmds_push(v: &mut heapless::Vec<Cmd, 4>, c: Cmd) -> (r: Result<(), Cmd>)
    ensures
        r == (if cmd_seq(*old(v)).len() < 4 { Ok::<(), Cmd>(()) } else { Err(c) }),
        cmd_seq(*final(v)) == (if cmd_seq(*old(v)).len() < 4 {
            cmd_seq(*old(v)).push(c)
        } else {
            cmd_seq(*old(v))
        }),
{
    v.push(c)
}

/// Relies on heapless::Vec's slice view: its length is the number of items.
#[verifier::external_body]
pub(crate) fn cmds_len(v: &heapless::Vec<Cmd, 4>) -> (r: usize)
    ensures
        r == cmd_seq(*v).len(),
{
    v.as_slice().len()
}

/// Relies on heapless::Vec's slice view: item `i` is the `i`-th pushed.
#[verifier::external_body]
pub(crate) fn cmds_get(v: &heapless::Vec<Cmd, 4>, i: usize) -> (r: Cmd)
    requires
        i < cmd_seq(*v).len(),
    ensures
        r == cmd_seq(*v)[i as int],
{
    v.as_slice()[i]
}

/// Inputs older than this many seconds send an open menu back to the clock.
pub const INPUT_TIMEOUT_SECS: u32 = 600;

/// The state of the user interface: the last time the clock reported, the
/// epoch second of the last button press, and what the screen shows.
#[derive(Debug, Clone, Copy, PartialEq, Eq, Structural)]
pub struct Model {
    pub new_time: DateTime,
    pub last_time: u32,
    pub statemanager: StateManager,
}

impl Model {
    /// The model with the last input stamped at the current time, where that
    /// time has an epoch count.
    pub open spec fn after_input(self) -> Model {
        match self.new_time.epoch_opt() {
            Some(e) => Model { last_time: e as u32, ..self },
            None => self,
        }
    }

    /// A tick at `dt` comes more than ten minutes after the last input.
    pub open spec fn input_timed_out(self, dt: DateTime) -> bool {
        match dt.epoch_opt() {
            Some(n) => n > self.last_time + INPUT_TIMEOUT_SECS,
            None => false,
        }
    }

    /// The model and commands after a tick at `dt`.
    pub open spec fn on_tick(self, dt: DateTime) -> (Model, Seq<Cmd>) {
        let st = if self.statemanager != StateManager::Clock && self.input_timed_out(dt) {
            StateManager::Clock
        } else {
            self.statemanager
        };
        (
            Model { new_time: dt, statemanager: st, ..self },
            if dt.is_midnight() {
                seq![Cmd::FullUpdate]
            } else {
                seq![]
            },
        )
    }

    /// The model and commands after the ok button, the input already stamped.
    pub open spec fn on_ok(self) -> (Model, Seq<Cmd>) {
        match self.statemanager {
            StateManager::Clock => (
                Model { statemanager: StateManager::Menu(MenuElt::Clock), ..self },
                seq![],
            ),
            StateManager::Menu(MenuElt::Clock) => (
                Model { statemanager: StateManager::Clock, ..self },
                seq![Cmd::FullUpdate],
            ),
            StateManager::Menu(MenuElt::SetClock) => (
                Model {
                    statemanager: StateManager::SetClock(
                        EditDateTime {
                            datetime: DateTime { sec: 0, ..self.new_time },
                            state: crate::statemanager::EditDateTimeState::Year,
                        },
                    ),
                    ..self
                },
                seq![],
            ),
            StateManager::SetClock(e) => match field_after(e.state) {
                Some(f) => (
                    Model {
                        statemanager: StateManager::SetClock(EditDateTime { state: f, ..e }),
                        ..self
                    },
                    seq![],
                ),
                None => (
                    Model { statemanager: StateManager::Clock, ..self },
                    seq![Cmd::UpdateRtc(e.datetime), Cmd::FullUpdate],
                ),
            },
        }
    }

    /// The model and commands after the cancel button, the input already stamped.
    pub open spec fn on_cancel(self) -> (Model, Seq<Cmd>) {
        match self.statemanager {
            StateManager::Clock => (self, seq![]),
            StateManager::Menu(_) => (
                Model { statemanager: StateManager::Clock, ..self },
                seq![Cmd::FullUpdate],
            ),
            StateManager::SetClock(e) => (Model { statemanager: edit_cancelled(e), ..self }, seq![]),
        }
    }

    /// The screen after the plus (`up`) or minus button.
    pub open spec fn stepped(self, up: bool) -> Model {
        match self.statemanager {
            StateManager::Clock => self,
            StateManager::Menu(x) => Model { statemanager: StateManager::Menu(other_elt(x)), ..self },
            StateManager::SetClock(e) => Model {
                statemanager: StateManager::SetClock(
                    EditDateTime {
                        datetime: if up {
                            field_up(e.datetime, e.state)
                        } else {
                            field_down(e.datetime, e.state)
                        },
                        ..e
                    },
                ),
                ..self
            },
        }
    }

    /// The model and commands after `msg`. A button press first stamps the
    /// input time, then acts on the screen.
    pub open spec fn spec_update(self, msg: Msg) -> (Model, Seq<Cmd>) {
        match msg {
            Msg::DateTime(dt) => self.on_tick(dt),
            Msg::ButtonOk => self.after_input().on_ok(),
            Msg::ButtonCancel => self.after_input().on_cancel(),
            Msg::ButtonPlus => (self.after_input().stepped(true), seq![]),
            Msg::ButtonMinus => (self.after_input().stepped(false), seq![]),
        }
    }

    /// The state at power-up: the clock screen at epoch second 0.
    pub fn init() -> (r: Self)
        ensures
            r.new_time.epoch() == 0,
            r.new_time.fields_in_range(),
            r.last_time == 0,
            r.statemanager == StateManager::Clock,
    {
        proof {
            crate::datetime::lemma_days_before_year_bounds(2106);
        }
        Self { new_time: DateTime::new(0), last_time: 0, statemanager: StateManager::Clock }
    }

    fn update_last_input(&mut self)
        ensures
            *final(self) == old(self).after_input(),
    {
        if let Some(epoch) = self.new_time.to_epoch() {
            self.last_time = epoch;
        }
    }

    fn push_cmd(cmds: &mut heapless::Vec<Cmd, 4>, c: Cmd)
        requires
            cmd_seq(*old(cmds)).len() < 4,
        ensures
            cmd_seq(*final(cmds)) == cmd_seq(*old(cmds)).push(c),
    {
        let _ = cmds_push(cmds, c);
    }

    /// Hands `msg` to the model: the new state and the commands are those of
    /// `spec_update`, and there are never more than four commands.
    pub fn update(&mut self, msg: Msg) -> (r: heapless::Vec<Cmd, 4>)
        ensures
            (*final(self), cmd_seq(r)) == old(self).spec_update(msg),
            cmd_seq(r).len() <= MAX_CMDS,
    {
        let mut cmds = cmds_new();
        if msg.is_button() {
            self.update_last_input();
        }
        match msg {
            Msg::DateTime(dt) => {
                let timed_out = match dt.to_epoch() {
                    Some(n) => n as u64 > self.last_time as u64 + INPUT_TIMEOUT_SECS as u64,
                    None => false,
                };
                self.new_time = dt;
                if self.statemanager != StateManager::Clock && timed_out {
                    self.statemanager = StateManager::Clock;
                }
                if dt.hour == 0 && dt.min == 0 && dt.sec == 0 {
                    Self::push_cmd(&mut cmds, Cmd::FullUpdate);
                }
            },
            Msg::ButtonOk => {
                match self.statemanager {
                    StateManager::Clock => {
                        self.statemanager = StateManager::Menu(MenuElt::Clock);
                    },
                    StateManager::Menu(MenuElt::Clock) => {
                        self.statemanager = StateManager::Clock;
                        Self::push_cmd(&mut cmds, Cmd::FullUpdate);
                    },
                    StateManager::Menu(MenuElt::SetClock) => {
                        let mut dt = self.new_time;
                        dt.sec = 0;
                        self.statemanager = StateManager::SetClock(EditDateTime::new(dt));
                    },
                    StateManager::SetClock(e) => {
                        let mut edit = e;
                        match edit.ok() {
                            Some(dt) => {
                                Self::push_cmd(&mut cmds, Cmd::UpdateRtc(dt));
                                Self::push_cmd(&mut cmds, Cmd::FullUpdate);
                                self.statemanager = StateManager::Clock;
                            },
                            None => {
                                self.statemanager = StateManager::SetClock(edit);
                            },
                        }
                    },
                }
            },
            Msg::ButtonCancel => {
                match self.statemanager {
                    StateManager::Clock => {},
                    StateManager::Menu(e) => {
                        let mut elt = e;
                        self.statemanager = elt.cancel();
                        Self::push_cmd(&mut cmds, Cmd::FullUpdate);
                    },
                    StateManager::SetClock(e) => {
                        let mut edit = e;
                        self.statemanager = edit.cancel();
                    },
                }
            },
            Msg::ButtonPlus => {
                match self.statemanager {
                    StateManager::Clock => {},
                    StateManager::Menu(e) => {
                        let mut elt = e;
                        elt.next();
                        self.statemanager = StateManager::Menu(elt);
                    },
                    StateManager::SetClock(e) => {
                        let mut edit = e;
                        edit.next();
                        self.statemanager = StateManager::SetClock(edit);
                    },
                }
            },
            Msg::ButtonMinus => {
                match self.statemanager {
                    StateManager::Clock => {},
                    StateManager::Menu(e) => {
                        let mut elt = e;
                        elt.prev();
                        self.statemanager = StateManager::Menu(elt);
                    },
                    StateManager::SetClock(e) => {
                        let mut edit = e;
                        edit.prev();
                        self.statemanager = StateManager::SetClock(edit);
                    },
                }
            },
        }
        proof {
            assert(cmd_seq(cmds) =~= old(self).spec_update(msg).1);
        }
        cmds
    }
}

/// The model and the commands, in order, after handing it each of `msgs` in turn.
pub open spec fn run(m: Model, msgs: Seq<Msg>) -> (Model, Seq<Cmd>)
    decreases msgs.len(),
{
    if msgs.len() == 0 {
        (m, seq![])
    } else {
        let (m1, c1) = m.spec_update(msgs[0]);
        let (m2, c2) = run(m1, msgs.drop_first());
        (m2, c1 + c2)
    }
}

/// Every event is handled in every state, with at most two commands, well
/// within the four that the command list holds.
pub proof fn lemma_update_total(m: Model, msg: Msg)
    ensures
        m.spec_update(msg).1.len() <= 2,
        m.spec_update(msg).1.len() <= MAX_CMDS,
{
}

/// Cancel on the clock screen, any number of times, keeps the clock screen
/// and issues no command.
pub proof fn lemma_cancel_on_clock_is_idle(m: Model, n: nat)
    requires
        m.statemanager == StateManager::Clock,
    ensures
        run(m, Seq::new(n, |i: int| Msg::ButtonCancel)).0.statemanager == StateManager::Clock,
        run(m, Seq::new(n, |i: int| Msg::ButtonCancel)).1 == Seq::<Cmd>::empty(),
    decreases n,
{
    let msgs = Seq::new(n, |i: int| Msg::ButtonCancel);
    if n > 0 {
        let m1 = m.spec_update(Msg::ButtonCancel).0;
        assert(msgs.drop_first() =~= Seq::new((n - 1) as nat, |i: int| Msg::ButtonCancel));
        lemma_cancel_on_clock_is_idle(m1, (n - 1) as nat);
        assert(run(m, msgs).1 =~= Seq::<Cmd>::empty());
    }
}

/// From the menu on its clock-setting entry, ok six times (enter, then
/// confirm year, month, day, hour and minute unchanged) writes the time of
/// entry with its seconds at zero, and goes back to the clock with a full
/// redraw.
pub proof fn lemma_set_clock_round_trip(m: Model)
    requires
        m.statemanager == StateManager::Menu(MenuElt::SetClock),
    ensures
        run(m, seq![Msg::ButtonOk; 6]).0.statemanager == StateManager::Clock,
        run(m, seq![Msg::ButtonOk; 6]).0.new_time == m.new_time,
        run(m, seq![Msg::ButtonOk; 6]).1 == seq![
            Cmd::UpdateRtc(DateTime { sec: 0, ..m.new_time }),
            Cmd::FullUpdate,
        ],
{
    let msgs = seq![Msg::ButtonOk; 6];
    reveal_with_fuel(run, 7);
    assert(msgs.drop_first() =~= seq![Msg::ButtonOk; 5]);
    assert(msgs.drop_first().drop_first() =~= seq![Msg::ButtonOk; 4]);
    assert(seq![Msg::ButtonOk; 4].drop_first() =~= seq![Msg::ButtonOk; 3]);
    assert(seq![Msg::ButtonOk; 3].drop_first() =~= seq![Msg::ButtonOk; 2]);
    assert(seq![Msg::ButtonOk; 2].drop_first() =~= seq![Msg::ButtonOk; 1]);
    assert(seq![Msg::ButtonOk; 1].drop_first() =~= Seq::<Msg>::empty());
    assert(run(m, msgs).1 =~= seq![
        Cmd::UpdateRtc(DateTime { sec: 0, ..m.new_time }),
        Cmd::FullUpdate,
    ]);
}

/// From the clock screen: ok opens the menu on its clock entry, plus moves to
/// the clock-setting entry, and six oks set the clock to the current time
/// with zero seconds and go back to the clock with a full redraw.
pub proof fn lemma_set_clock_from_clock(m: Model)
    requires
        m.statemanager == StateManager::Clock,
    ensures
        m.spec_update(Msg::ButtonOk).0.statemanager == StateManager::Menu(MenuElt::Clock),
        m.spec_update(Msg::ButtonOk).0.spec_update(Msg::ButtonPlus).0.statemanager
            == StateManager::Menu(MenuElt::SetClock),
        run(m, seq![Msg::ButtonOk, Msg::ButtonPlus] + seq![Msg::ButtonOk; 6]).0.statemanager
            == StateManager::Clock,
        run(m, seq![Msg::ButtonOk, Msg::ButtonPlus] + seq![Msg::ButtonOk; 6]).1 == seq![
            Cmd::UpdateRtc(DateTime { sec: 0, ..m.new_time }),
            Cmd::FullUpdate,
        ],
{
    let msgs = seq![Msg::ButtonOk, Msg::ButtonPlus] + seq![Msg::ButtonOk; 6];
    let m2 = m.spec_update(Msg::ButtonOk).0.spec_update(Msg::ButtonPlus).0;
    reveal_with_fuel(run, 3);
    assert(msgs.drop_first().drop_first() =~= seq![Msg::ButtonOk; 6]);
    lemma_set_clock_round_trip(m2);
    assert(run(m, msgs).1 =~= run(m2, seq![Msg::ButtonOk; 6]).1);
}

/// Plus on the clock-setting screen wraps: year 2105 to 1970, month 12 to 1,
/// day 31 to 1, hour 23 to 0, minute 59 to 0.
pub proof fn lemma_edit_wraps(m: Model, e: EditDateTime)
    requires
        m.statemanager == StateManager::SetClock(e),
    ensures
        ({
            let r = m.spec_update(Msg::ButtonPlus).0.statemanager;
            &&& e.state is Year && e.datetime.year == 2105 ==> r
                == StateManager::SetClock(
                EditDateTime { datetime: DateTime { year: 1970, ..e.datetime }, ..e },
            )
            &&& e.state is Month && e.datetime.month == 12 ==> r == StateManager::SetClock(
                EditDateTime { datetime: DateTime { month: 1, ..e.datetime }, ..e },
            )
            &&& e.state is Day && e.datetime.day == 31 ==> r == StateManager::SetClock(
                EditDateTime { datetime: DateTime { day: 1, ..e.datetime }, ..e },
            )
            &&& e.state is Hour && e.datetime.hour == 23 ==> r == StateManager::SetClock(
                EditDateTime { datetime: DateTime { hour: 0, ..e.datetime }, ..e },
            )
            &&& e.state is Min && e.datetime.min == 59 ==> r == StateManager::SetClock(
                EditDateTime { datetime: DateTime { min: 0, ..e.datetime }, ..e },
            )
        }),
{
}

/// Away from the clock screen, a tick more than 600 seconds after the last
/// input sends the screen back to the clock; a tick at most 600 seconds after
/// it leaves the screen as it was.
pub proof fn lemma_auto_reset(m: Model, dt: DateTime)
    requires
        m.statemanager != StateManager::Clock,
        dt.fields_in_range(),
    ensures
        dt.epoch() > m.last_time + 600 ==> m.spec_update(Msg::DateTime(dt)).0.statemanager
            == StateManager::Clock,
        dt.epoch() <= m.last_time + 600 ==> m.spec_update(Msg::DateTime(dt)).0.statemanager
            == m.statemanager,
{
}

/// A full redraw is asked for exactly on a tick at 00:00:00, and on an ok or
/// cancel that brings a menu or clock-setting screen back to the clock.
pub proof fn lemma_full_redraw_triggers(m: Model, msg: Msg)
    ensures
        m.spec_update(msg).1.contains(Cmd::FullUpdate) <==> ((msg matches Msg::DateTime(dt)
            && dt.is_midnight()) || ((msg is ButtonOk || msg is ButtonCancel)
            && m.statemanager != StateManager::Clock && m.spec_update(msg).0.statemanager
            == StateManager::Clock)),
{
    let r = m.spec_update(msg).1;
    if r.len() == 2 {
        assert(r[1] == Cmd::FullUpdate);
    } else if r.len() == 1 {
        assert(r[0] == Cmd::FullUpdate);
    }
}

} // verus!
