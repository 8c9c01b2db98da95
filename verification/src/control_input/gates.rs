//! The two gate inputs. A gate is active while its line reads high.

use vstd::prelude::*;
use super::debouncer::{settle, slide, Debouncer};

verus! {

/// Number of gate inputs.
pub const GATES: usize = 2;

/// Raw samples that a gate input is debounced over.
pub const DEPTH: usize = 4;

/// Levels of both gate lines as read in one sampling cycle; `true` is high.
#[derive(Clone, Copy, Debug)]
pub struct Pins {
    pub gate_1: bool,
    pub gate_2: bool,
}

/// One debounced gate input.
#[derive(Clone, Copy, Debug)]
pub struct Trigger {
    active: bool,
    debouncer: Debouncer<DEPTH>,
}

/// Both gate inputs.
#[derive(Clone, Copy, Debug)]
pub struct Gates {
    triggers: [Trigger; GATES],
}

impl Trigger {
    #[verifier::type_invariant]
    spec fn agrees(self) -> bool {
        self.active == self.debouncer.stable()
    }

    /// The last `DEPTH` raw samples, oldest first; `true` is high.
    pub closed spec fn window(&self) -> Seq<bool> {
        self.debouncer.window()
    }

    /// Whether this input counts as high.
    pub closed spec fn active(&self) -> bool {
        self.active
    }

    /// `self` is what `before` becomes when it observes `raw`.
    pub open spec fn follows(&self, before: Trigger, raw: bool) -> bool {
        &&& self.window() == slide(before.window(), raw)
        &&& self.window().len() == DEPTH
        &&& self.active() == settle(self.window(), before.active())
    }

    /// The window always holds as many samples as the debouncer is deep.
    pub proof fn law_window_depth(&self)
        ensures
            self.window().len() == DEPTH,
    {
        self.debouncer.law_window_depth();
    }

    /// A gate at rest with no high sample in its window.
    pub fn new() -> (trigger: Self)
        ensures
            trigger.window() == Seq::new(DEPTH as nat, |i: int| false),
            trigger.window().len() == DEPTH,
            !trigger.active(),
    {
        Trigger { debouncer: Debouncer::new(), active: false }
    }

    /// Whether the input counts as active.
    pub fn value(&self) -> (active: bool)
        ensures
            active == self.active(),
    {
        self.active
    }

    /// Observes one raw sample of the line.
    pub fn set(&mut self, is_high: bool)
        ensures
            final(self).follows(*old(self), is_high),
    {
        proof {
            use_type_invariant(&*self);
        }
        let mut debouncer = self.debouncer;
        let active = debouncer.update(is_high);
        *self = Trigger { active, debouncer };
    }
}

impl Gates {
    /// Gate input `i`, counted from zero.
    pub closed spec fn trigger(&self, i: int) -> Trigger {
        self.triggers@[i]
    }

    /// Both gates at rest.
    pub fn new() -> (gates: Self)
        ensures
            forall|i: int| 0 <= i < GATES ==> {
                &&& (#[trigger] gates.trigger(i)).window() == Seq::new(DEPTH as nat, |k: int| false)
                &&& !gates.trigger(i).active()
            },
    {
        Gates { triggers: [Trigger::new(), Trigger::new()] }
    }

    /// `self` is what `before` becomes when it samples `pins`: each gate
    /// observes its own line, and a high line is an active gate.
    pub open spec fn sampled(&self, before: Gates, pins: Pins) -> bool {
        &&& self.trigger(0).follows(before.trigger(0), pins.gate_1)
        &&& self.trigger(1).follows(before.trigger(1), pins.gate_2)
    }

    /// Takes the levels of one cycle into both inputs.
    pub fn sample(&mut self, pins: &Pins)
        ensures
            final(self).sampled(*old(self), *pins),
    {
        self.triggers[0].set(pins.gate_1);
        self.triggers[1].set(pins.gate_2);
    }

    /// Whether each gate counts as high.
    pub fn values(&self) -> (values: [bool; GATES])
        ensures
            forall|i: int| 0 <= i < GATES ==> values@[i] == (#[trigger] self.trigger(i)).active(),
    {
        [self.triggers[0].active, self.triggers[1].active]
    }
}

} // verus!
