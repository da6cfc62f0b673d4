use vstd::prelude::*;

verus! {

/// Consecutive samples at a new level before the debounced level follows it.
pub const STABLE_SAMPLES: u8 = 5;

/// What one sample of a button yields.
#[derive(Debug, Clone, Copy, PartialEq, Eq, Structural)]
pub enum Event {
    Nothing,
    Pressed,
}

/// Debouncer of one push-button, sampled at a fixed rate.
#[derive(Debug, Clone, Copy, PartialEq, Eq, Structural)]
pub struct Button {
    /// The accepted (debounced) level: `true` while held down.
    pub pressed: bool,
    /// Consecutive samples seen at the other level, below `STABLE_SAMPLES`.
    pub count: u8,
}

impl Button {
    pub open spec fn wf(self) -> bool {
        self.count < STABLE_SAMPLES
    }

    /// The debouncer and the event after a sample at level `down`.
    pub open spec fn spec_poll(self, down: bool) -> (Button, Event) {
        if down == self.pressed {
            (Button { count: 0, ..self }, Event::Nothing)
        } else if self.count + 1 >= STABLE_SAMPLES {
            (Button { pressed: down, count: 0 }, if down { Event::Pressed } else { Event::Nothing })
        } else {
            (Button { count: (self.count + 1) as u8, ..self }, Event::Nothing)
        }
    }

    /// A released button.
    pub fn new() -> (r: Self)
        ensures
            r.wf(),
            !r.pressed,
            r.count == 0,
    {
        Button { pressed: false, count: 0 }
    }

    /// Takes one sample, `down` being whether the button is held at this
    /// instant. A press is reported once, on the sample that completes a run of
    /// `STABLE_SAMPLES` held samples after the button was released.
    pub fn poll(&mut self, down: bool) -> (r: Event)
        requires
            old(self).wf(),
        ensures
            final(self).wf(),
            (*final(self), r) == old(self).spec_poll(down),
    {
        if down == self.pressed {
            self.count = 0;
            Event::Nothing
        } else if self.count + 1 >= STABLE_SAMPLES {
            self.pressed = down;
            self.count = 0;
            if down {
                Event::Pressed
            } else {
                Event::Nothing
            }
        } else {
            self.count = self.count + 1;
            Event::Nothing
        }
    }
}

/// The debouncer and the events, in order, after each sample of `samples`.
pub open spec fn poll_all(b: Button, samples: Seq<bool>) -> (Button, Seq<Event>)
    decreases samples.len(),
{
    if samples.len() == 0 {
        (b, seq![])
    } else {
        let (b1, e1) = b.spec_poll(samples[0]);
        let (b2, es) = poll_all(b1, samples.drop_first());
        (b2, seq![e1] + es)
    }
}

/// While a button stays held, no sample reports a press: there is no repeat.
pub proof fn lemma_no_repeat_while_held(b: Button, n: nat)
    requires
        b.wf(),
        b.pressed,
    ensures
        poll_all(b, Seq::new(n, |i: int| true)).0.pressed,
        poll_all(b, Seq::new(n, |i: int| true)).1 == Seq::new(n, |i: int| Event::Nothing),
    decreases n,
{
    if n > 0 {
        let s = Seq::new(n, |i: int| true);
        assert(s.drop_first() =~= Seq::new((n - 1) as nat, |i: int| true));
        let b1 = b.spec_poll(true).0;
        lemma_no_repeat_while_held(b1, (n - 1) as nat);
        assert(poll_all(b, s).1 =~= Seq::new(n, |i: int| Event::Nothing));
    }
}

/// From a released, settled button, holding it for `STABLE_SAMPLES` samples
/// reports exactly one press, on the last of them.
pub proof fn lemma_press_reported_once(b: Button)
    requires
        b.wf(),
        !b.pressed,
        b.count == 0,
    ensures
        ({
            let (b2, es) = poll_all(b, Seq::new(STABLE_SAMPLES as nat, |i: int| true));
            &&& b2.pressed
            &&& es == seq![
                Event::Nothing,
                Event::Nothing,
                Event::Nothing,
                Event::Nothing,
                Event::Pressed,
            ]
        }),
{
    let s = Seq::new(STABLE_SAMPLES as nat, |i: int| true);
    reveal_with_fuel(poll_all, 6);
    assert(s.drop_first() =~= Seq::new(4, |i: int| true));
    assert(Seq::new(4, |i: int| true).drop_first() =~= Seq::new(3, |i: int| true));
    assert(Seq::new(3, |i: int| true).drop_first() =~= Seq::new(2, |i: int| true));
    assert(Seq::new(2, |i: int| true).drop_first() =~= Seq::new(1, |i: int| true));
    assert(Seq::new(1, |i: int| true).drop_first() =~= Seq::<bool>::empty());
    assert(poll_all(b, s).1 =~= seq![
        Event::Nothing,
        Event::Nothing,
        Event::Nothing,
        Event::Nothing,
        Event::Pressed,
    ]);
}

} // verus!
