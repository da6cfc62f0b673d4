use vstd::prelude::*;
use crate::datetime::DateTime;
use crate::ui::{cmd_seq, cmds_get, cmds_len, Cmd, Model, Msg};

verus! {

/// Events that may wait for the event task at one time.
pub const QUEUE_CAPACITY: usize = 16;

/// Hardware work that the event task asks of its caller, in order.
#[derive(Debug, Clone, Copy, PartialEq, Eq, Structural)]
pub enum Action {
    /// Write this epoch second to the real-time clock.
    WriteRtc(u32),
    /// Hand this event to the event task again.
    Send(Msg),
}

/// The actions for one command: a time to write that has an epoch count is
/// written, then sent back as a tick so that the screen shows it at once. A
/// time without one is skipped.
pub open spec fn cmd_actions(c: Cmd) -> Seq<Action> {
    match c {
        Cmd::UpdateRtc(dt) => match dt.epoch_opt() {
            Some(e) => seq![Action::WriteRtc(e as u32), Action::Send(Msg::DateTime(dt))],
            None => seq![],
        },
        Cmd::FullUpdate => seq![],
    }
}

/// The actions for a list of commands, in order.
pub open spec fn actions_of(cmds: Seq<Cmd>) -> Seq<Action>
    decreases cmds.len(),
{
    if cmds.len() == 0 {
        seq![]
    } else {
        actions_of(cmds.drop_last()) + cmd_actions(cmds.last())
    }
}

/// The redraw flag after `cmds`: set by a full-update command, kept otherwise.
pub open spec fn flag_after(flag: bool, cmds: Seq<Cmd>) -> bool {
    flag || cmds.contains(Cmd::FullUpdate)
}

/// The work of the event task for one event: the model takes `msg`, a
/// full-update command sets the pending-redraw flag (which stays set until
/// the display task takes it), and the actions for the clock are returned.
pub fn process_event(model: &mut Model, full_update: &mut bool, msg: Msg) -> (r: Vec<Action>)
    ensures
        *final(model) == old(model).spec_update(msg).0,
        *final(full_update) == flag_after(*old(full_update), old(model).spec_update(msg).1),
        r@ == actions_of(old(model).spec_update(msg).1),
{
    let cmds = model.update(msg);
    let ghost cs = cmd_seq(cmds);
    let n = cmds_len(&cmds);
    let mut actions: Vec<Action> = Vec::new();
    let mut i: usize = 0;
    while i < n
        invariant
            n == cs.len(),
            cs == cmd_seq(cmds),
            0 <= i <= n,
            actions@ == actions_of(cs.subrange(0, i as int)),
            *full_update == flag_after(*old(full_update), cs.subrange(0, i as int)),
        decreases n - i,
    {
        let c = cmds_get(&cmds, i);
        proof {
            assert(cs.subrange(0, i as int + 1).drop_last() =~= cs.subrange(0, i as int));
            assert(cs.subrange(0, i as int + 1).contains(Cmd::FullUpdate) <==> (cs.subrange(
                0,
                i as int,
            ).contains(Cmd::FullUpdate) || c == Cmd::FullUpdate)) by {
                let s1 = cs.subrange(0, i as int + 1);
                let s0 = cs.subrange(0, i as int);
                if s1.contains(Cmd::FullUpdate) {
                    let k = choose|k: int| 0 <= k < s1.len() && s1[k] == Cmd::FullUpdate;
                    if k < i {
                        assert(s0[k] == Cmd::FullUpdate);
                    }
                }
                if s0.contains(Cmd::FullUpdate) {
                    let k = choose|k: int| 0 <= k < s0.len() && s0[k] == Cmd::FullUpdate;
                    assert(s1[k] == Cmd::FullUpdate);
                }
                if c == Cmd::FullUpdate {
                    assert(s1[i as int] == Cmd::FullUpdate);
                }
            }
        }
        match c {
            Cmd::UpdateRtc(dt) => {
                if let Some(epoch) = dt.to_epoch() {
                    actions.push(Action::WriteRtc(epoch));
                    actions.push(Action::Send(Msg::DateTime(dt)));
                }
            },
            Cmd::FullUpdate => {
                *full_update = true;
            },
        }
        i = i + 1;
    }
    proof {
        assert(cs.subrange(0, n as int) =~= cs);
    }
    actions
}

/// Starting from a clear flag, the event task sets the pending-redraw flag
/// exactly on a tick at 00:00:00, or on an ok or cancel that brings a menu or
/// clock-setting screen back to the clock.
pub proof fn lemma_redraw_flag_triggers(m: Model, msg: Msg)
    ensures
        flag_after(false, m.spec_update(msg).1) <==> ((msg matches Msg::DateTime(dt)
            && dt.is_midnight()) || ((msg is ButtonOk || msg is ButtonCancel)
            && m.statemanager != crate::statemanager::StateManager::Clock
            && m.spec_update(msg).0.statemanager == crate::statemanager::StateManager::Clock)),
{
    crate::ui::lemma_full_redraw_triggers(m, msg);
}

/// Refresh mode of the e-paper panel.
#[derive(Debug, Clone, Copy, PartialEq, Eq, Structural)]
pub enum RefreshMode {
    /// Slow: resets every pixel.
    Full,
    /// Fast: redraws the changed pixels only.
    Quick,
}

/// How the display task writes one frame: the mode to set before the write,
/// and the mode to set back after it.
#[derive(Debug, Clone, Copy, PartialEq, Eq, Structural)]
pub struct RefreshPlan {
    pub before: Option<RefreshMode>,
    pub after: Option<RefreshMode>,
}

/// Takes the pending-redraw flag (reading and clearing it in one step) and
/// plans the frame: a full refresh where it was set, with quick refresh set
/// back afterwards; otherwise the quick refresh that stays in place.
pub fn plan_refresh(full_update: &mut bool) -> (r: RefreshPlan)
    ensures
        !*final(full_update),
        *old(full_update) ==> r == (RefreshPlan {
            before: Some(RefreshMode::Full),
            after: Some(RefreshMode::Quick),
        }),
        !*old(full_update) ==> r == (RefreshPlan { before: None, after: None }),
{
    let full = *full_update;
    *full_update = false;
    if full {
        RefreshPlan { before: Some(RefreshMode::Full), after: Some(RefreshMode::Quick) }
    } else {
        RefreshPlan { before: None, after: None }
    }
}

/// The events waiting for the event task, first in first out, at most
/// `QUEUE_CAPACITY` of them.
#[derive(Debug, Clone)]
pub struct EventQueue {
    items: Vec<Msg>,
}

impl EventQueue {
    pub closed spec fn view(&self) -> Seq<Msg> {
        self.items@
    }

    pub open spec fn wf(&self) -> bool {
        self@.len() <= QUEUE_CAPACITY
    }

    pub fn new() -> (r: Self)
        ensures
            r@ == Seq::<Msg>::empty(),
            r.wf(),
    {
        EventQueue { items: Vec::new() }
    }

    pub fn len(&self) -> (r: usize)
        ensures
            r == self@.len(),
    {
        self.items.len()
    }

    /// Appends `msg`; a full queue refuses it and hands it back.
    pub fn push(&mut self, msg: Msg) -> (r: Result<(), Msg>)
        requires
            old(self).wf(),
        ensures
            final(self).wf(),
            old(self)@.len() < QUEUE_CAPACITY ==> r is Ok && final(self)@ == old(self)@.push(msg),
            old(self)@.len() >= QUEUE_CAPACITY ==> r == Err::<(), Msg>(msg)
                && final(self)@ == old(self)@,
    {
        if self.items.len() < QUEUE_CAPACITY {
            self.items.push(msg);
            Ok(())
        } else {
            Err(msg)
        }
    }

    /// Takes the oldest event, if any.
    pub fn pop(&mut self) -> (r: Option<Msg>)
        requires
            old(self).wf(),
        ensures
            final(self).wf(),
            old(self)@.len() == 0 ==> r is None && final(self)@ == old(self)@,
            old(self)@.len() > 0 ==> r == Some(old(self)@[0])
                && final(self)@ == old(self)@.drop_first(),
    {
        if self.items.len() == 0 {
            None
        } else {
            let m = self.items.remove(0);
            proof {
                assert(self.items@ =~= old(self)@.drop_first());
            }
            Some(m)
        }
    }
}

} // verus!
