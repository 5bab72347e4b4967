use vstd::prelude::*;

verus! {

/// A timer that counts down from its period and, each time it reloads,
/// moves a step index round a cycle of `steps` steps.
pub struct Sequencer {
    pub counter: u16,
    pub period: u16,
    pub step: usize,
    pub steps: usize,
}

impl Sequencer {
    /// The step index stays within the cycle.
    pub open spec fn wf(&self) -> bool {
        0 < self.steps && self.step < self.steps
    }

    /// The timer after one clock.
    pub open spec fn after_tick(self, step_enabled: bool) -> Sequencer {
        if self.counter == 0 {
            Sequencer {
                counter: self.period,
                step: if step_enabled {
                    ((self.step + 1) % (self.steps as int)) as usize
                } else {
                    self.step
                },
                ..self
            }
        } else {
            Sequencer { counter: (self.counter - 1) as u16, ..self }
        }
    }

    /// The timer with the low eight bits of its period replaced.
    pub open spec fn with_period_lo(self, value: u8) -> Sequencer {
        Sequencer { period: (self.period - self.period % 256 + value) as u16, ..self }
    }

    /// The timer with bits 8-10 of its period replaced.
    pub open spec fn with_period_hi(self, value: u8) -> Sequencer {
        Sequencer { period: (self.period % 256 + (value % 8) * 256) as u16, ..self }
    }

    pub fn new(steps: usize) -> (s: Sequencer)
        ensures
            s == (Sequencer { counter: 0, period: 0, step: 0, steps }),
    {
        Sequencer { counter: 0, period: 0, step: 0, steps }
    }

    /// One timer clock: at 0 the counter reloads from the period (moving
    /// the step on when `step_enabled`) and true is returned; otherwise it
    /// counts down.
    pub fn tick(&mut self, step_enabled: bool) -> (r: bool)
        requires
            step_enabled && old(self).counter == 0 ==> old(self).steps > 0 && old(self).step < usize::MAX,
        ensures
            r == (old(self).counter == 0),
            final(self).counter == if r { old(self).period } else { (old(self).counter - 1) as u16 },
            final(self).step == if r && step_enabled {
                (old(self).step + 1) % (old(self).steps as int)
            } else {
                old(self).step as int
            },
            final(self).period == old(self).period,
            final(self).steps == old(self).steps,
            *final(self) == old(self).after_tick(step_enabled),
            old(self).wf() ==> final(self).wf(),
    {
        if self.counter == 0 {
            self.counter = self.period;
            if step_enabled {
                self.step = (self.step + 1) % self.steps;
            }
            true
        } else {
            self.counter = self.counter - 1;
            false
        }
    }

    /// Replaces the low eight bits of the period.
    pub fn set_period_lo(&mut self, value: u8)
        ensures
            final(self).period == old(self).period - old(self).period % 256 + value,
            *final(self) == old(self).with_period_lo(value),
    {
        let p = self.period;
        let r = (p & 0xFF00) | value as u16;
        assert(r == p - p % 256 + value) by (bit_vector)
            requires
                r == (p & 0xFF00) | value as u16,
        ;
        self.period = r;
    }

    /// Replaces bits 8-10 of the period with the low three bits of `value`.
    pub fn set_period_hi(&mut self, value: u8)
        ensures
            final(self).period == old(self).period % 256 + (value % 8) * 256,
            *final(self) == old(self).with_period_hi(value),
    {
        let p = self.period;
        let r = (p & 0x00FF) | ((value as u16 & 0b111) << 8u16);
        assert(r == p % 256 + (value % 8) * 256) by (bit_vector)
            requires
                r == (p & 0x00FF) | ((value as u16 & 0b111) << 8u16),
        ;
        self.period = r;
    }

    pub fn get_step(&self) -> (r: usize)
        ensures
            r == self.step,
    {
        self.step
    }
}

/// How many of `n` consecutive clocks, starting from `s`, reload the timer
/// (the clocks on which `tick` returns true).
pub open spec fn reloads(s: Sequencer, step_enabled: bool, n: nat) -> nat
    decreases n,
{
    if n == 0 {
        0
    } else {
        (if s.counter == 0 { 1nat } else { 0nat }) + reloads(s.after_tick(step_enabled), step_enabled, (n - 1) as nat)
    }
}

proof fn lemma_no_reload_before_zero(s: Sequencer, step_enabled: bool, n: nat)
    requires
        n <= s.counter,
    ensures
        reloads(s, step_enabled, n) == 0,
    decreases n,
{
    if n > 0 {
        lemma_no_reload_before_zero(s.after_tick(step_enabled), step_enabled, (n - 1) as nat);
    }
}

proof fn lemma_one_reload(s: Sequencer, step_enabled: bool, n: nat)
    requires
        s.counter + 1 <= n <= s.counter + 1 + s.period,
    ensures
        reloads(s, step_enabled, n) == 1,
    decreases s.counter,
{
    let next = s.after_tick(step_enabled);
    if s.counter == 0 {
        lemma_no_reload_before_zero(next, step_enabled, (n - 1) as nat);
    } else {
        lemma_one_reload(next, step_enabled, (n - 1) as nat);
    }
}

/// While the counter is within the period, exactly one of any `period + 1`
/// consecutive clocks reloads the timer, and the counter stays within the
/// period.
pub proof fn law_one_reload_per_period(s: Sequencer, step_enabled: bool)
    requires
        s.counter <= s.period,
    ensures
        reloads(s, step_enabled, (s.period + 1) as nat) == 1,
        s.after_tick(step_enabled).counter <= s.after_tick(step_enabled).period,
{
    lemma_one_reload(s, step_enabled, (s.period + 1) as nat);
}

} // verus!
