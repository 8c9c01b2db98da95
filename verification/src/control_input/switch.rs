//! The rotary switch: eight pulled-up lines, of which the selected position
//! reads low.

use vstd::prelude::*;
use super::debouncer::{settle, slide, Debouncer};

verus! {

/// Number of positions of the switch.
pub const POSITIONS: usize = 8;

/// Raw samples that each line of the switch is debounced over.
pub const DEPTH: usize = 4;

/// Levels of the switch lines as read in one sampling cycle; `true` is high.
#[derive(Clone, Copy, Debug)]
pub struct Pins {
    pub switch_1: bool,
    pub switch_2: bool,
    pub switch_3: bool,
    pub switch_4: bool,
    pub switch_5: bool,
    pub switch_6: bool,
    pub switch_7: bool,
    pub switch_8: bool,
}

/// The debounced switch and the position it last settled on.
#[derive(Clone, Copy, Debug)]
pub struct Switch {
    value: u8,
    debouncers: [Debouncer<DEPTH>; POSITIONS],
}

/// The first place from `from` on at which `active` holds `true`, or the
/// length of `active` if there is none.
pub open spec fn lowest_active_from(active: Seq<bool>, from: int) -> int
    decreases active.len() - from,
{
    if from < 0 || from >= active.len() {
        active.len() as int
    } else if active[from] {
        from
    } else {
        lowest_active_from(active, from + 1)
    }
}

/// The first place at which `active` holds `true`, or its length if none does.
pub open spec fn lowest_active(active: Seq<bool>) -> int {
    lowest_active_from(active, 0)
}

/// What the position becomes once the lines have settled as `active` says:
/// the lowest active line wins, and with no line active the position stays.
pub open spec fn resolve(active: Seq<bool>, previous: int) -> int {
    if lowest_active(active) < active.len() {
        lowest_active(active)
    } else {
        previous
    }
}

/// `lowest_active_from` finds `place` when nothing between `from` and
/// `place` is active and `place` is active or the end of `active`.
proof fn lemma_lowest_active_from(active: Seq<bool>, from: int, place: int)
    requires
        0 <= from <= place <= active.len(),
        forall|j: int| from <= j < place ==> !active[j],
        place < active.len() ==> active[place],
    ensures
        lowest_active_from(active, from) == place,
    decreases place - from,
{
    if from < place {
        lemma_lowest_active_from(active, from + 1, place);
    }
}

/// The position that `resolve` gives is an active line with no active line
/// below it; only when no line is active is it the previous position.
pub proof fn law_lowest_active_wins(active: Seq<bool>, previous: int)
    ensures
        (exists|j: int| 0 <= j < active.len() && active[j]) ==> {
            &&& 0 <= resolve(active, previous) < active.len()
            &&& active[resolve(active, previous)]
            &&& forall|j: int| 0 <= j < resolve(active, previous) ==> !active[j]
        },
        (forall|j: int| 0 <= j < active.len() ==> !active[j]) ==> resolve(active, previous)
            == previous,
{
    lemma_lowest_active_is_first(active, 0);
}

/// What `lowest_active_from` returns lies between `from` and the length, is
/// active unless it is the length, and has nothing active before it.
proof fn lemma_lowest_active_is_first(active: Seq<bool>, from: int)
    requires
        0 <= from <= active.len(),
    ensures
        from <= lowest_active_from(active, from) <= active.len(),
        lowest_active_from(active, from) < active.len() ==> active[lowest_active_from(
            active,
            from,
        )],
        forall|j: int| from <= j < lowest_active_from(active, from) ==> !active[j],
    decreases active.len() - from,
{
    if from < active.len() && !active[from] {
        lemma_lowest_active_is_first(active, from + 1);
    }
}

impl Pins {
    /// The levels in the order of the positions.
    pub open spec fn levels(&self) -> Seq<bool> {
        seq![
            self.switch_1,
            self.switch_2,
            self.switch_3,
            self.switch_4,
            self.switch_5,
            self.switch_6,
            self.switch_7,
            self.switch_8,
        ]
    }

    fn to_levels(&self) -> (levels: [bool; POSITIONS])
        ensures
            levels@ == self.levels(),
    {
        let levels = [
            self.switch_1,
            self.switch_2,
            self.switch_3,
            self.switch_4,
            self.switch_5,
            self.switch_6,
            self.switch_7,
            self.switch_8,
        ];
        assert(levels@ =~= self.levels());
        levels
    }
}

impl Switch {
    #[verifier::type_invariant]
    spec fn in_range(self) -> bool {
        self.value < POSITIONS
    }

    /// The position held, from 0 to 7.
    pub closed spec fn position(&self) -> int {
        self.value as int
    }

    /// The last `DEPTH` raw samples of line `i`, oldest first; `true` is selected.
    pub closed spec fn window(&self, i: int) -> Seq<bool> {
        self.debouncers@[i].window()
    }

    /// Whether line `i` counts as selected.
    pub closed spec fn active(&self, i: int) -> bool {
        self.debouncers@[i].stable()
    }

    /// The window of every line always holds as many samples as the
    /// debouncers are deep.
    pub proof fn law_window_depth(&self, i: int)
        requires
            0 <= i < POSITIONS,
        ensures
            self.window(i).len() == DEPTH,
    {
        self.debouncers@[i].law_window_depth();
    }

    /// The settled state of all lines, in the order of the positions.
    pub open spec fn actives(&self) -> Seq<bool> {
        Seq::new(POSITIONS as nat, |i: int| self.active(i))
    }

    /// A switch at the first position with no line selected.
    pub fn new() -> (switch: Self)
        ensures
            switch.position() == 0,
            forall|i: int|
                #![trigger switch.window(i)]
                #![trigger switch.active(i)]
                0 <= i < POSITIONS ==> {
                    &&& switch.window(i) == Seq::new(DEPTH as nat, |k: int| false)
                    &&& switch.window(i).len() == DEPTH
                    &&& !switch.active(i)
                },
    {
        Switch { value: 0, debouncers: [Debouncer::new(); POSITIONS] }
    }

    /// `self` is what `before` becomes when it samples `pins`: each line
    /// observes its own level, a low level being a selected line, and the
    /// position moves to the lowest line that counts as selected, if any.
    pub open spec fn sampled(&self, before: Switch, pins: Pins) -> bool {
        &&& forall|i: int|
            #![trigger self.window(i)]
            #![trigger self.active(i)]
            0 <= i < POSITIONS ==> {
                &&& self.window(i) == slide(before.window(i), !pins.levels()[i])
                &&& self.window(i).len() == DEPTH
                &&& self.active(i) == settle(self.window(i), before.active(i))
            }
        &&& self.position() == resolve(self.actives(), before.position())
    }

    /// Takes the levels of one cycle into the switch.
    pub fn sample(&mut self, pins: &Pins)
        ensures
            final(self).sampled(*old(self), *pins),
            0 <= final(self).position() < POSITIONS,
    {
        proof {
            use_type_invariant(&*self);
        }
        let levels = pins.to_levels();
        let mut debouncers = self.debouncers;
        let mut found: u8 = 8;
        let mut i: usize = 0;
        while i < POSITIONS
            invariant
                i <= POSITIONS,
                levels@ == pins.levels(),
                forall|j: int| i <= j < POSITIONS ==> debouncers@[j] == old(self).debouncers@[j],
                forall|j: int|
                    0 <= j < i ==> {
                        &&& (#[trigger] debouncers@[j]).window() == slide(
                            old(self).debouncers@[j].window(),
                            !levels@[j],
                        )
                        &&& debouncers@[j].window().len() == DEPTH
                        &&& debouncers@[j].stable() == settle(
                            debouncers@[j].window(),
                            old(self).debouncers@[j].stable(),
                        )
                    },
                found < i ==> debouncers@[found as int].stable(),
                found < i || found == POSITIONS,
                forall|j: int| 0 <= j < i && j < found ==> !(#[trigger] debouncers@[j]).stable(),
            decreases POSITIONS - i,
        {
            let active = debouncers[i].update(!levels[i]);
            if active && found == 8 {
                found = i as u8;
            }
            i += 1;
        }
        let value = if found < 8 {
            found
        } else {
            self.value
        };
        *self = Switch { value, debouncers };
        proof {
            let actives = self.actives();
            assert forall|j: int| 0 <= j < found implies !actives[j] by {
                assert(!debouncers@[j].stable());
            }
            lemma_lowest_active_from(actives, 0, found as int);
        }
    }

    /// The position held, from 0 to 7.
    pub fn value(&self) -> (value: u8)
        ensures
            value == self.position(),
            value < POSITIONS,
    {
        proof {
            use_type_invariant(self);
        }
        self.value
    }
}

} // verus!
