//! The decision stage of the control task: a divided clock that fires timed
//! pulses on the LEDs and gate outputs.

use vstd::prelude::*;
use crate::control_output::{ControlOutputState, CVS, GATES, LEDS};

verus! {

/// Control cycles for which an LED stays lit after its clock fired.
pub const LED_PULSE: usize = 30;

/// Control cycles for which a gate output stays high after its clock fired.
pub const GATE_PULSE: usize = 10;

/// What a binary output is: its level and the cycles left before it falls.
pub struct Pulse {
    pub on: bool,
    pub countdown: nat,
}

impl Pulse {
    /// The pulse one control cycle later: a running countdown loses one
    /// cycle, and the level falls when it runs out. With no countdown
    /// running nothing changes.
    pub open spec fn tick(self) -> Pulse {
        if self.countdown == 0 {
            self
        } else {
            Pulse {
                on: if self.countdown == 1 {
                    false
                } else {
                    self.on
                },
                countdown: (self.countdown - 1) as nat,
            }
        }
    }

    /// The pulse `cycles` control cycles later.
    pub open spec fn ticks(self, cycles: nat) -> Pulse
        decreases cycles,
    {
        if cycles == 0 {
            self
        } else {
            self.tick().ticks((cycles - 1) as nat)
        }
    }

    /// The pulse once it has been fired for `countdown` cycles.
    pub open spec fn enable(countdown: nat) -> Pulse {
        Pulse { on: true, countdown }
    }
}

/// A digital output that can be switched on for a number of control cycles.
#[derive(Clone, Copy, Debug)]
pub struct BinaryOutput {
    on: bool,
    countdown: usize,
}

impl View for BinaryOutput {
    type V = Pulse;

    closed spec fn view(&self) -> Pulse {
        Pulse { on: self.on, countdown: self.countdown as nat }
    }
}

impl BinaryOutput {
    /// An output that is off.
    pub fn new() -> (output: Self)
        ensures
            output@ == (Pulse { on: false, countdown: 0 }),
    {
        Self { on: false, countdown: 0 }
    }

    /// Lets one control cycle pass.
    pub fn tick(&mut self)
        ensures
            final(self)@ == old(self)@.tick(),
    {
        if self.countdown > 0 {
            self.countdown -= 1;
            if self.countdown == 0 {
                self.on = false;
            }
        }
    }

    /// Whether the output is on.
    pub fn value(&self) -> (on: bool)
        ensures
            on == self@.on,
    {
        self.on
    }

    /// Switches the output on for `countdown` control cycles. With a
    /// countdown of zero it stays on until it is enabled again.
    pub fn enable_with_countdown(&mut self, countdown: usize)
        ensures
            final(self)@ == Pulse::enable(countdown as nat),
    {
        self.on = true;
        self.countdown = countdown;
    }
}

/// A pulse fired for `countdown` cycles, none of them zero, is on for
/// exactly that many cycles: it is on after fewer ticks and off from then on.
pub proof fn law_pulse_lasts_countdown(countdown: nat, cycles: nat)
    requires
        countdown > 0,
    ensures
        Pulse::enable(countdown).ticks(cycles).on == (cycles < countdown),
{
    lemma_running_pulse(Pulse::enable(countdown), cycles);
}

/// A pulse that is on with a countdown running is on until the countdown
/// has run out, and off with no countdown left from then on.
proof fn lemma_running_pulse(pulse: Pulse, cycles: nat)
    requires
        pulse.countdown > 0 ==> pulse.on,
        pulse.countdown == 0 ==> !pulse.on,
    ensures
        pulse.ticks(cycles).on == (cycles < pulse.countdown),
        pulse.ticks(cycles).countdown == if cycles < pulse.countdown {
            pulse.countdown - cycles
        } else {
            0
        },
    decreases cycles,
{
    if cycles > 0 {
        lemma_running_pulse(pulse.tick(), (cycles - 1) as nat);
    }
}

/// A continuous output that holds the value it was last given, in its
/// 32-bit encoding.
#[derive(Clone, Copy, Debug)]
pub struct LinearOutput {
    value: u32,
}

impl View for LinearOutput {
    type V = u32;

    closed spec fn view(&self) -> u32 {
        self.value
    }
}

impl LinearOutput {
    /// An output at the encoding of zero.
    pub fn new() -> (output: Self)
        ensures
            output@ == 0,
    {
        Self { value: 0 }
    }

    /// Replaces the value held.
    pub fn set_value(&mut self, value: u32)
        ensures
            final(self)@ == value,
    {
        self.value = value;
    }

    /// The value held.
    pub fn value(&self) -> (value: u32)
        ensures
            value == self@,
    {
        self.value
    }
}

/// What the controller is: the divided clock and the outputs it drives.
pub struct ControllerState {
    /// Wraps of the first clock counted since the second clock last fired.
    pub clock_2_phase: nat,
    /// Wraps of the first clock that make the second clock fire.
    pub clock_2_division: nat,
    pub leds: Seq<Pulse>,
    pub gates: Seq<Pulse>,
    pub cvs: Seq<u32>,
}

/// `pulse`, or a fresh pulse of `countdown` cycles if its clock `fired`.
pub open spec fn fire(pulse: Pulse, fired: bool, countdown: nat) -> Pulse {
    if fired {
        Pulse::enable(countdown)
    } else {
        pulse
    }
}

impl ControllerState {
    /// The count of the second clock once this cycle's wrap, if there was
    /// one, has been taken in.
    pub open spec fn counted(self, clock_1_wrapped: bool) -> nat {
        if clock_1_wrapped {
            self.clock_2_phase + 1
        } else {
            self.clock_2_phase
        }
    }

    /// Whether the second clock fires in this cycle.
    pub open spec fn clock_2_fires(self, clock_1_wrapped: bool) -> bool {
        self.counted(clock_1_wrapped) >= self.clock_2_division
    }

    /// The controller one control cycle later. A wrap of the first clock
    /// fires the first LED and gate; the second clock counts the wraps and
    /// fires the second LED and gate when the count reaches the division.
    /// Every output then lets one cycle pass.
    pub open spec fn tick(self, clock_1_wrapped: bool, cvs: Seq<u32>) -> ControllerState {
        let fired_2 = self.clock_2_fires(clock_1_wrapped);
        ControllerState {
            clock_2_phase: if fired_2 {
                0
            } else {
                self.counted(clock_1_wrapped)
            },
            clock_2_division: self.clock_2_division,
            leds: seq![
                fire(self.leds[0], clock_1_wrapped, LED_PULSE as nat).tick(),
                fire(self.leds[1], fired_2, LED_PULSE as nat).tick(),
                self.leds[2].tick(),
                self.leds[3].tick(),
            ],
            gates: seq![
                fire(self.gates[0], clock_1_wrapped, GATE_PULSE as nat).tick(),
                fire(self.gates[1], fired_2, GATE_PULSE as nat).tick(),
            ],
            cvs,
        }
    }

    /// Whether `state` shows what the outputs hold.
    pub open spec fn shown_by(self, state: ControlOutputState) -> bool {
        &&& forall|i: int| 0 <= i < LEDS ==> state.leds@[i] == self.leds[i].on
        &&& forall|i: int| 0 <= i < GATES ==> state.gates@[i] == self.gates[i].on
        &&& state.cvs@ == self.cvs
    }
}

impl ControllerState {
    /// The controller after `cycles` control cycles in each of which the
    /// first clock wrapped, the control voltages being left as they are.
    pub open spec fn wraps(self, cycles: nat) -> ControllerState
        decreases cycles,
    {
        if cycles == 0 {
            self
        } else {
            self.wraps((cycles - 1) as nat).tick(true, self.cvs)
        }
    }
}

/// After every cycle the count of the second clock is zero or below its
/// division, and the division is as it was.
pub proof fn law_count_stays_below_division(
    state: ControllerState,
    clock_1_wrapped: bool,
    cvs: Seq<u32>,
)
    ensures
        state.tick(clock_1_wrapped, cvs).clock_2_phase == 0 || state.tick(
            clock_1_wrapped,
            cvs,
        ).clock_2_phase < state.clock_2_division,
        state.tick(clock_1_wrapped, cvs).clock_2_division == state.clock_2_division,
{
}

/// The second clock divides the first: counted from a fresh count, it fires
/// on every wrap whose number is a multiple of the division and on no
/// other, and between them it holds the number of wraps since it fired.
pub proof fn law_second_clock_divides_first(state: ControllerState, wraps: nat)
    requires
        state.clock_2_phase == 0,
        state.clock_2_division > 0,
    ensures
        state.wraps(wraps).clock_2_phase == wraps % state.clock_2_division,
        state.wraps(wraps).clock_2_division == state.clock_2_division,
        state.wraps(wraps).clock_2_fires(true) <==> (wraps + 1) % state.clock_2_division == 0,
    decreases wraps,
{
    let division = state.clock_2_division;
    if wraps > 0 {
        law_second_clock_divides_first(state, (wraps - 1) as nat);
        lemma_next_remainder((wraps - 1) as nat, division);
    }
    lemma_next_remainder(wraps, division);
}

/// The remainder of the next number: one more, or zero once the divisor is
/// reached.
proof fn lemma_next_remainder(number: nat, divisor: nat)
    requires
        divisor > 0,
    ensures
        number % divisor + 1 < divisor ==> (number + 1) % divisor == number % divisor + 1,
        number % divisor + 1 >= divisor ==> (number + 1) % divisor == 0,
        number % divisor < divisor,
{
    let quotient = number / divisor;
    let remainder = number % divisor;
    assert(number == quotient * divisor + remainder && 0 <= remainder < divisor) by {
        vstd::arithmetic::div_mod::lemma_fundamental_div_mod(number as int, divisor as int);
        vstd::arithmetic::div_mod::lemma_mod_bound(number as int, divisor as int);
        assert(divisor * quotient == quotient * divisor) by (nonlinear_arith);
    }
    if remainder + 1 < divisor {
        vstd::arithmetic::div_mod::lemma_fundamental_div_mod_converse(
            number as int + 1,
            divisor as int,
            quotient as int,
            remainder as int + 1,
        );
    } else {
        assert((quotient + 1) * divisor == quotient * divisor + divisor) by (nonlinear_arith);
        vstd::arithmetic::div_mod::lemma_fundamental_div_mod_converse(
            number as int + 1,
            divisor as int,
            quotient as int + 1,
            0,
        );
    }
}

/// The decision stage: the second clock and the outputs.
#[derive(Clone, Copy, Debug)]
pub struct Controller {
    clock_2_phase: u8,
    clock_2_division: u8,
    leds: [BinaryOutput; LEDS],
    gates: [BinaryOutput; GATES],
    cvs: [LinearOutput; CVS],
}

impl View for Controller {
    type V = ControllerState;

    closed spec fn view(&self) -> ControllerState {
        ControllerState {
            clock_2_phase: self.clock_2_phase as nat,
            clock_2_division: self.clock_2_division as nat,
            leds: Seq::new(LEDS as nat, |i: int| self.leds@[i]@),
            gates: Seq::new(GATES as nat, |i: int| self.gates@[i]@),
            cvs: Seq::new(CVS as nat, |i: int| self.cvs@[i]@),
        }
    }
}

impl Controller {
    #[verifier::type_invariant]
    spec fn count_fits(self) -> bool {
        self.clock_2_phase < 255
    }

    /// A controller whose second clock fires on every wrap of the first,
    /// with every output off and at zero.
    pub fn new() -> (controller: Self)
        ensures
            controller@ == (ControllerState {
                clock_2_phase: 0,
                clock_2_division: 1,
                leds: Seq::new(LEDS as nat, |i: int| Pulse { on: false, countdown: 0 }),
                gates: Seq::new(GATES as nat, |i: int| Pulse { on: false, countdown: 0 }),
                cvs: Seq::new(CVS as nat, |i: int| 0u32),
            }),
    {
        let controller = Self {
            clock_2_phase: 0,
            clock_2_division: 1,
            leds: [BinaryOutput::new(), BinaryOutput::new(), BinaryOutput::new(), BinaryOutput::new()],
            gates: [BinaryOutput::new(), BinaryOutput::new()],
            cvs: [LinearOutput::new(), LinearOutput::new()],
        };
        assert(controller@.leds =~= Seq::new(
            LEDS as nat,
            |i: int| Pulse { on: false, countdown: 0 },
        ));
        assert(controller@.gates =~= Seq::new(
            GATES as nat,
            |i: int| Pulse { on: false, countdown: 0 },
        ));
        assert(controller@.cvs =~= Seq::new(CVS as nat, |i: int| 0u32));
        controller
    }

    /// Sets how many wraps of the first clock make the second clock fire.
    pub fn set_clock_2_division(&mut self, division: u8)
        ensures
            final(self)@ == (ControllerState { clock_2_division: division as nat, ..old(self)@ }),
    {
        proof {
            use_type_invariant(&*self);
        }
        self.clock_2_division = division;
    }

    /// Lets one control cycle pass and returns what the outputs are to show.
    /// `clock_1_wrapped` says whether the first clock completed a revolution
    /// in this cycle; `cvs` are the control voltages to put out.
    pub fn tick(&mut self, clock_1_wrapped: bool, cvs: [u32; CVS]) -> (state: ControlOutputState)
        ensures
            final(self)@ == old(self)@.tick(clock_1_wrapped, cvs@),
            final(self)@.shown_by(state),
    {
        proof {
            use_type_invariant(&*self);
        }
        let mut clock_2_phase = self.clock_2_phase;
        let mut leds = self.leds;
        let mut gates = self.gates;
        let mut voltages = self.cvs;
        if clock_1_wrapped {
            clock_2_phase += 1;
            leds[0].enable_with_countdown(LED_PULSE);
            gates[0].enable_with_countdown(GATE_PULSE);
        }
        if clock_2_phase >= self.clock_2_division {
            clock_2_phase = 0;
            leds[1].enable_with_countdown(LED_PULSE);
            gates[1].enable_with_countdown(GATE_PULSE);
        }
        voltages[0].set_value(cvs[0]);
        voltages[1].set_value(cvs[1]);

        leds[0].tick();
        leds[1].tick();
        leds[2].tick();
        leds[3].tick();
        gates[0].tick();
        gates[1].tick();

        *self = Controller {
            clock_2_phase,
            clock_2_division: self.clock_2_division,
            leds,
            gates,
            cvs: voltages,
        };
        proof {
            let after = old(self)@.tick(clock_1_wrapped, cvs@);
            assert(self@.leds =~= after.leds);
            assert(self@.gates =~= after.gates);
            assert(self@.cvs =~= after.cvs);
        }
        let state = ControlOutputState {
            leds: [leds[0].value(), leds[1].value(), leds[2].value(), leds[3].value()],
            gates: [gates[0].value(), gates[1].value()],
            cvs: [voltages[0].value(), voltages[1].value()],
        };
        assert(state.cvs@ =~= self@.cvs);
        state
    }
}

} // verus!
