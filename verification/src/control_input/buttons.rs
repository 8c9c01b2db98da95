//! The two momentary buttons. Their lines are pulled up: a pressed button
//! reads low.

use vstd::prelude::*;
use super::debouncer::{settle, slide, Debouncer};

verus! {

/// Number of buttons on the panel.
pub const BUTTONS: usize = 2;

/// Raw samples that a button is debounced over.
pub const DEPTH: usize = 4;

/// Levels of the button lines as read in one sampling cycle; `true` is high.
#[derive(Clone, Copy, Debug)]
pub struct Pins {
    pub button_1: bool,
    pub button_2: bool,
}

/// One debounced button.
#[derive(Clone, Copy, Debug)]
pub struct Button {
    active: bool,
    debouncer: Debouncer<DEPTH>,
}

/// Both buttons.
#[derive(Clone, Copy, Debug)]
pub struct Buttons {
    buttons: [Button; BUTTONS],
}

impl Button {
    #[verifier::type_invariant]
    spec fn agrees(self) -> bool {
        self.active == self.debouncer.stable()
    }

    /// The last `DEPTH` raw samples, oldest first; `true` is pressed.
    pub closed spec fn window(&self) -> Seq<bool> {
        self.debouncer.window()
    }

    /// Whether the button counts as pressed.
    pub closed spec fn active(&self) -> bool {
        self.active
    }

    /// `self` is what `before` becomes when it observes `raw`.
    pub open spec fn follows(&self, before: Button, raw: bool) -> bool {
        &&& self.window() == slide(before.window(), raw)
        &&& self.window().len() == DEPTH
        &&& self.active() == settle(self.window(), before.active())
    }

    /// The window always holds as many samples as the debouncer is deep.
    pub proof fn law_window_depth(&self)
        ensures
            self.window().len() == DEPTH,
    {
        self.debouncer.law_window_depth();
    }

    /// A released button with no press in its window.
    pub fn new() -> (button: Self)
        ensures
            button.window() == Seq::new(DEPTH as nat, |i: int| false),
            button.window().len() == DEPTH,
            !button.active(),
    {
        Button { debouncer: Debouncer::new(), active: false }
    }

    /// Whether the button counts as active.
    pub fn value(&self) -> (active: bool)
        ensures
            active == self.active(),
    {
        self.active
    }

    /// Observes one raw sample; `true` is pressed.
    pub fn set(&mut self, is_high: bool)
        ensures
            final(self).follows(*old(self), is_high),
    {
        proof {
            use_type_invariant(&*self);
        }
        let mut debouncer = self.debouncer;
        let active = debouncer.update(is_high);
        *self = Button { active, debouncer };
    }
}

impl Buttons {
    /// The button at place `i`, counted from zero.
    pub closed spec fn button(&self, i: int) -> Button {
        self.buttons@[i]
    }

    /// Both buttons released.
    pub fn new() -> (buttons: Self)
        ensures
            forall|i: int| 0 <= i < BUTTONS ==> {
                &&& (#[trigger] buttons.button(i)).window() == Seq::new(DEPTH as nat, |k: int| false)
                &&& !buttons.button(i).active()
            },
    {
        Buttons { buttons: [Button::new(), Button::new()] }
    }

    /// `self` is what `before` becomes when it samples `pins`: each button
    /// observes its own line, and a low line is a press.
    pub open spec fn sampled(&self, before: Buttons, pins: Pins) -> bool {
        &&& self.button(0).follows(before.button(0), !pins.button_1)
        &&& self.button(1).follows(before.button(1), !pins.button_2)
    }

    /// Takes the levels of one cycle into the buttons.
    pub fn sample(&mut self, pins: &Pins)
        ensures
            final(self).sampled(*old(self), *pins),
    {
        self.buttons[0].set(!pins.button_1);
        self.buttons[1].set(!pins.button_2);
    }

    /// Whether each button counts as pressed.
    pub fn values(&self) -> (values: [bool; BUTTONS])
        ensures
            forall|i: int| 0 <= i < BUTTONS ==> values@[i] == (#[trigger] self.button(i)).active(),
    {
        [self.buttons[0].active, self.buttons[1].active]
    }
}

} // verus!
