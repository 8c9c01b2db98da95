//! Stabilizes a noisy digital line over a sliding window of raw samples.

use vstd::prelude::*;

verus! {

/// Every sample of `window` is at `level`.
pub open spec fn all_at(window: Seq<bool>, level: bool) -> bool {
    forall|i: int| 0 <= i < window.len() ==> window[i] == level
}

/// The window after `raw` has been observed: the oldest sample leaves, `raw`
/// becomes the newest. The length is kept.
pub open spec fn slide(window: Seq<bool>, raw: bool) -> Seq<bool> {
    window.push(raw).subrange(1, window.len() as int + 1)
}

/// The stable level that a window commits to: a unanimous window decides,
/// any other window leaves `previous` in place.
pub open spec fn settle(window: Seq<bool>, previous: bool) -> bool {
    if all_at(window, true) {
        true
    } else if all_at(window, false) {
        false
    } else {
        previous
    }
}

/// The stable level after the samples of `raws` have been observed in order,
/// starting from `window` and `stable`.
pub open spec fn replay(window: Seq<bool>, stable: bool, raws: Seq<bool>) -> bool
    decreases raws.len(),
{
    if raws.len() == 0 {
        stable
    } else {
        let next = slide(window, raws[0]);
        replay(next, settle(next, stable), raws.drop_first())
    }
}

/// A debounced digital channel of depth `N`.
#[derive(Clone, Copy, Debug)]
pub struct Debouncer<const N: usize> {
    history: [bool; N],
    stable: bool,
}

impl<const N: usize> Debouncer<N> {
    /// The last `N` raw samples, oldest first.
    pub closed spec fn window(&self) -> Seq<bool> {
        self.history@
    }

    /// The level the channel currently reports.
    pub closed spec fn stable(&self) -> bool {
        self.stable
    }

    /// The window of every channel of depth `N` holds `N` samples.
    pub proof fn law_window_depth(&self)
        ensures
            self.window().len() == N,
    {
    }

    /// A channel that has seen nothing but inactive samples.
    pub fn new() -> (debouncer: Self)
        ensures
            debouncer.window() == Seq::new(N as nat, |i: int| false),
            debouncer.window().len() == N,
            !debouncer.stable(),
    {
        let debouncer = Debouncer { history: [false; N], stable: false };
        assert(debouncer.history@ =~= Seq::new(N as nat, |i: int| false));
        debouncer
    }

    /// Takes one raw sample into the window and returns the stable level.
    pub fn update(&mut self, raw: bool) -> (stable: bool)
        ensures
            final(self).window() == slide(old(self).window(), raw),
            final(self).window().len() == N,
            final(self).stable() == settle(final(self).window(), old(self).stable()),
            stable == final(self).stable(),
    {
        let ghost before = self.history@;
        let ghost after = slide(before, raw);
        let mut all_high = true;
        let mut all_low = true;
        let mut i: usize = 0;
        while i < N
            invariant
                i <= N,
                before.len() == N,
                after == slide(before, raw),
                self.stable == old(self).stable,
                forall|j: int| 0 <= j < i ==> self.history@[j] == after[j],
                forall|j: int| i <= j < N ==> self.history@[j] == before[j],
                all_high <==> forall|j: int| 0 <= j < i ==> after[j],
                all_low <==> forall|j: int| 0 <= j < i ==> !after[j],
            decreases N - i,
        {
            let level = if i + 1 < N {
                self.history[i + 1]
            } else {
                raw
            };
            assert(level == after[i as int]);
            self.history[i] = level;
            all_high = all_high && level;
            all_low = all_low && !level;
            i += 1;
        }
        assert(self.history@ =~= after);
        if all_high {
            self.stable = true;
        } else if all_low {
            self.stable = false;
        }
        self.stable
    }
}

/// A unanimous window decides the stable level whatever it was before;
/// a window that holds both levels leaves it as it was.
pub proof fn law_settle_follows_window(window: Seq<bool>, previous: bool, level: bool)
    requires
        window.len() > 0,
    ensures
        all_at(window, level) ==> settle(window, previous) == level,
        !all_at(window, true) && !all_at(window, false) ==> settle(window, previous) == previous,
        settle(window, previous) != previous ==> all_at(window, !previous),
{
    if all_at(window, level) {
        assert(window[0] == level);
    }
}

/// Sliding keeps the depth of the window, moves every sample one place
/// towards the oldest end and puts the new sample last.
pub proof fn law_slide_shifts(window: Seq<bool>, raw: bool)
    requires
        window.len() > 0,
    ensures
        slide(window, raw).len() == window.len(),
        slide(window, raw) == window.drop_first().push(raw),
{
    assert(slide(window, raw) =~= window.drop_first().push(raw));
}

/// Once `raws` holds as many samples as the window is deep, all of them at
/// one level, the channel reports that level, whatever it held before.
pub proof fn law_commit_after_depth(window: Seq<bool>, stable: bool, raws: Seq<bool>, level: bool)
    requires
        window.len() > 0,
        raws.len() == window.len(),
        all_at(raws, level),
    ensures
        replay(window, stable, raws) == level,
{
    lemma_run_of_level(window, stable, raws, level);
}

/// The induction behind `law_commit_after_depth`: the samples of the window
/// from place `raws.len()` on are already at `level`.
proof fn lemma_run_of_level(window: Seq<bool>, stable: bool, raws: Seq<bool>, level: bool)
    requires
        window.len() > 0,
        0 < raws.len() <= window.len(),
        all_at(raws, level),
        forall|i: int| raws.len() <= i < window.len() ==> window[i] == level,
    ensures
        replay(window, stable, raws) == level,
    decreases raws.len(),
{
    let next = slide(window, raws[0]);
    let rest = raws.drop_first();
    assert(raws[0] == level);
    assert forall|i: int| rest.len() <= i < next.len() implies next[i] == level by {
        if i + 1 < window.len() {
            assert(next[i] == window[i + 1]);
        }
    }
    if rest.len() == 0 {
        assert(all_at(next, level));
        assert(next[0] == level);
        assert(replay(next, settle(next, stable), rest) == settle(next, stable));
    } else {
        assert forall|i: int| 0 <= i < rest.len() implies rest[i] == level by {
            assert(rest[i] == raws[i + 1]);
        }
        lemma_run_of_level(next, settle(next, stable), rest, level);
    }
}

} // verus!
