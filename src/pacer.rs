//! Per-cycle decisions of the run loop: when the stop flag is sampled, which
//! cycles run input/output, and when a paced cycle may proceed.

use crate::config::{cycle_micros, AgentConfiguration, EmuClockMgr};
use vstd::arithmetic::div_mod::lemma_fundamental_div_mod;
use vstd::arithmetic::div_mod::lemma_fundamental_div_mod_converse;
use vstd::prelude::*;

verus! {

/// Cycles between two samples of the stop flag when no clock rate is set.
pub const DEFAULT_POLLING_PERIOD: u32 = 5000;

/// Under `CycleIgnore(skip)`, cycle `cycle` (counted from zero) runs input/output.
pub open spec fn is_io_cycle(cycle: nat, skip: u32) -> bool {
    (cycle + 1) % (skip as nat + 1) == 0
}

/// Whether cycle `cycle` runs input/output under the clock policy `clock`.
pub open spec fn io_due(clock: Option<EmuClockMgr>, cycle: nat) -> bool {
    match clock {
        Some(EmuClockMgr::CycleIgnore(skip)) => is_io_cycle(cycle, skip),
        _ => true,
    }
}

/// How many of the first `len` cycles run input/output under `clock`.
pub open spec fn io_count(clock: Option<EmuClockMgr>, len: nat) -> nat
    decreases len,
{
    if len == 0 {
        0
    } else {
        io_count(clock, (len - 1) as nat) + if io_due(clock, (len - 1) as nat) {
            1nat
        } else {
            0nat
        }
    }
}

/// The stop-flag sampling period that a configuration implies.
pub open spec fn polling_period_of(config: AgentConfiguration) -> u32 {
    match config.emu_clock_mgr {
        Some(EmuClockMgr::Clock(c)) => c.rate,
        _ => DEFAULT_POLLING_PERIOD,
    }
}

/// A paced gate opens once at least `period` microseconds have passed since
/// the previous opening.
pub open spec fn gate_opens(last: int, now: int, period: int) -> bool {
    now - last >= period
}

/// Times of the openings of a paced gate that last opened at `last` and is
/// then tried at each time of `nows`, in order.
pub open spec fn opening_times(last: int, nows: Seq<int>, period: int) -> Seq<int>
    decreases nows.len(),
{
    if nows.len() == 0 {
        Seq::empty()
    } else if gate_opens(last, nows[0], period) {
        seq![nows[0]] + opening_times(nows[0], nows.drop_first(), period)
    } else {
        opening_times(last, nows.drop_first(), period)
    }
}

/// Under `CycleIgnore(skip)`, exactly `len / (skip + 1)` of the first `len`
/// cycles run input/output, namely every (skip+1)-th cycle.
pub proof fn lemma_cycle_skip_count(len: nat, skip: u32)
    ensures
        io_count(Some(EmuClockMgr::CycleIgnore(skip)), len) == len / (skip as nat + 1),
        forall|c: nat|
            io_due(Some(EmuClockMgr::CycleIgnore(skip)), c) <==> (c + 1) % (skip as nat + 1)
                == 0,
    decreases len,
{
    let d = skip as nat + 1;
    if len > 0 {
        let prev = (len - 1) as nat;
        lemma_cycle_skip_count(prev, skip);
        lemma_fundamental_div_mod(prev as int, d as int);
        let q = prev as int / d as int;
        let r = prev as int % d as int;
        if r + 1 == d {
            assert(len as int == (q + 1) * d as int + 0) by (nonlinear_arith)
                requires
                    prev as int == d as int * q + r,
                    r + 1 == d,
                    len == prev + 1,
            ;
            lemma_fundamental_div_mod_converse(len as int, d as int, q + 1, 0);
        } else {
            lemma_fundamental_div_mod_converse(len as int, d as int, q, r + 1);
        }
    }
}

/// A well-formed run loop under `CycleIgnore(skip)` has run input/output on
/// exactly `cycle_counter / (skip + 1)` of its completed cycles.
pub proof fn lemma_run_loop_io_count(r: RunLoop, skip: u32)
    requires
        r.wf(),
        r.clock == Some(EmuClockMgr::CycleIgnore(skip)),
    ensures
        r.io_counter == r.cycle_counter as nat / (skip as nat + 1),
{
    lemma_cycle_skip_count(r.cycle_counter as nat, skip);
}

/// Two successive openings of a paced gate are at least `period` apart, and
/// the first is at least `period` after the opening it starts from.
pub proof fn lemma_paced_gap(last: int, nows: Seq<int>, period: int)
    ensures
        ({
            let t = opening_times(last, nows, period);
            &&& t.len() > 0 ==> t[0] - last >= period
            &&& forall|k: int| 0 <= k < t.len() - 1 ==> #[trigger] t[k + 1] - t[k] >= period
        }),
    decreases nows.len(),
{
    if nows.len() > 0 {
        let rest = nows.drop_first();
        if gate_opens(last, nows[0], period) {
            lemma_paced_gap(nows[0], rest, period);
            let t = opening_times(last, nows, period);
            let u = opening_times(nows[0], rest, period);
            assert(t == seq![nows[0]] + u);
            assert forall|k: int| 0 <= k < t.len() - 1 implies #[trigger] t[k + 1] - t[k]
                >= period by {
                assert(t[k + 1] == u[k]);
                if k > 0 {
                    let j = k - 1;
                    assert(t[k] == u[j]);
                    assert(u[j + 1] - u[j] >= period);
                } else {
                    assert(t[k] == nows[0]);
                    assert(u[0] - nows[0] >= period);
                }
            }
        } else {
            lemma_paced_gap(last, rest, period);
        }
    }
}

/// What the run loop does in the cycle that begins.
#[derive(Clone, Copy, Debug, PartialEq, Eq, Structural)]
pub enum CycleStep {
    /// The stop flag was seen set: end the loop before this cycle's work.
    Stop,
    /// Run the cycle. `io`: render, read control input and observe in it;
    /// `pace`: wait at the paced gate first.
    Run { io: bool, pace: bool },
}

/// The decision state of one agent's run loop.
#[derive(Clone, Copy, Debug)]
pub struct RunLoop {
    /// The clock policy.
    pub clock: Option<EmuClockMgr>,
    /// The stop flag is sampled on cycles that are a multiple of this.
    pub polling_period: u32,
    /// Minimal gap between paced cycles, in microseconds (0 without a clock rate).
    pub cycle_duration: u64,
    /// Cycles completed so far.
    pub cycle_counter: u64,
    /// Completed cycles that ran input/output.
    pub io_counter: u64,
    /// Clock reading, in microseconds, at which the paced gate last opened.
    pub last_gate: u64,
    /// The control input that the backend is stepped with.
    pub keycode: u16,
    /// Whether the cycle under way runs input/output.
    pub io_pending: bool,
    /// The loop has ended.
    pub stopped: bool,
}

impl RunLoop {
    /// The fields agree with one another.
    pub open spec fn wf(&self) -> bool {
        &&& self.polling_period > 0
        &&& self.io_counter == io_count(self.clock, self.cycle_counter as nat)
        &&& self.io_counter <= self.cycle_counter
        &&& match self.clock {
            Some(EmuClockMgr::Clock(c)) => c.rate > 0 && self.cycle_duration == cycle_micros(
                c.rate,
            ),
            _ => self.cycle_duration == 0,
        }
    }

    /// Whether cycle `cycle_counter` samples the stop flag.
    pub open spec fn spec_polls(&self) -> bool {
        self.cycle_counter as int % self.polling_period as int == 0
    }

    /// The loop state of a fresh agent for `config`, started at clock reading `start`.
    pub open spec fn new_spec(config: AgentConfiguration, start: u64) -> RunLoop {
        RunLoop {
            clock: config.emu_clock_mgr,
            polling_period: polling_period_of(config),
            cycle_duration: match config.emu_clock_mgr {
                Some(EmuClockMgr::Clock(c)) => cycle_micros(c.rate) as u64,
                _ => 0,
            },
            cycle_counter: 0,
            io_counter: 0,
            last_gate: start,
            keycode: 0,
            io_pending: false,
            stopped: false,
        }
    }

    /// The loop state of a fresh agent, started at clock reading `start`.
    pub fn new(config: &AgentConfiguration, start: u64) -> (r: RunLoop)
        requires
            config.valid(),
        ensures
            r.wf(),
            r == RunLoop::new_spec(*config, start),
            r.clock == config.emu_clock_mgr,
            r.polling_period == polling_period_of(*config),
            r.cycle_counter == 0,
            r.last_gate == start,
            r.keycode == 0,
            !r.io_pending,
            !r.stopped,
    {
        let (polling_period, cycle_duration) = match config.emu_clock_mgr {
            Some(EmuClockMgr::Clock(c)) => (c.rate, c.get_duration()),
            _ => (DEFAULT_POLLING_PERIOD, 0u64),
        };
        RunLoop {
            clock: config.emu_clock_mgr,
            polling_period,
            cycle_duration,
            cycle_counter: 0,
            io_counter: 0,
            last_gate: start,
            keycode: 0,
            io_pending: false,
            stopped: false,
        }
    }

    /// Whether the cycle about to begin samples the stop flag.
    pub fn polls_stop_flag(&self) -> (r: bool)
        requires
            self.wf(),
        ensures
            r == self.spec_polls(),
    {
        self.cycle_counter % (self.polling_period as u64) == 0
    }

    /// Begins a cycle. `stop_flag` is the stop flag's value where this cycle
    /// samples it, and is not looked at otherwise.
    pub fn begin_cycle(&mut self, stop_flag: bool) -> (r: CycleStep)
        requires
            old(self).wf(),
            !old(self).stopped,
        ensures
            final(self).wf(),
            old(self).spec_polls() && stop_flag ==> r == CycleStep::Stop && final(self).stopped
                && final(self).cycle_counter == old(self).cycle_counter,
            !(old(self).spec_polls() && stop_flag) ==> r == (CycleStep::Run {
                io: io_due(old(self).clock, old(self).cycle_counter as nat),
                pace: old(self).clock matches Some(EmuClockMgr::Clock(_)),
            }) && *final(self) == (RunLoop {
                io_pending: io_due(old(self).clock, old(self).cycle_counter as nat),
                ..*old(self)
            }),
    {
        if self.polls_stop_flag() && stop_flag {
            self.stopped = true;
            return CycleStep::Stop;
        }
        let (io, pace) = match self.clock {
            Some(EmuClockMgr::CycleIgnore(skip)) => {
                let due = (self.cycle_counter as u128 + 1) % (skip as u128 + 1) == 0;
                (due, false)
            },
            Some(EmuClockMgr::Clock(_)) => (true, true),
            None => (true, false),
        };
        self.io_pending = io;
        CycleStep::Run { io, pace }
    }

    /// Asks the paced gate at clock reading `now` (microseconds). It opens
    /// once a cycle's duration has passed since it last opened, and then
    /// remembers `now`.
    pub fn pace_gate(&mut self, now: u64) -> (r: bool)
        requires
            old(self).wf(),
        ensures
            final(self).wf(),
            r == gate_opens(old(self).last_gate as int, now as int, old(self).cycle_duration as int),
            r ==> *final(self) == (RunLoop { last_gate: now, ..*old(self) }),
            !r ==> *final(self) == *old(self),
    {
        if now >= self.last_gate && now - self.last_gate >= self.cycle_duration {
            self.last_gate = now;
            true
        } else {
            false
        }
    }

    /// Takes the control source's answer on an input/output cycle: an input,
    /// or `None` when it has no further input, which ends the loop.
    /// Returns whether the loop goes on.
    pub fn accept_input(&mut self, input: Option<u16>) -> (r: bool)
        requires
            old(self).wf(),
        ensures
            final(self).wf(),
            r == input.is_some(),
            match input {
                Some(k) => *final(self) == (RunLoop { keycode: k, ..*old(self) }),
                None => *final(self) == (RunLoop { stopped: true, ..*old(self) }),
            },
    {
        match input {
            Some(k) => {
                self.keycode = k;
                true
            },
            None => {
                self.stopped = true;
                false
            },
        }
    }

    /// Ends a cycle once the backend has been stepped with `keycode`.
    pub fn end_cycle(&mut self)
        requires
            old(self).wf(),
            !old(self).stopped,
            old(self).io_pending == io_due(old(self).clock, old(self).cycle_counter as nat),
            old(self).cycle_counter < u64::MAX,
        ensures
            final(self).wf(),
            *final(self) == (RunLoop {
                cycle_counter: (old(self).cycle_counter + 1) as u64,
                io_counter: (old(self).io_counter + if old(self).io_pending {
                    1int
                } else {
                    0int
                }) as u64,
                io_pending: false,
                ..*old(self)
            }),
    {
        if self.io_pending {
            self.io_counter = self.io_counter + 1;
        }
        self.cycle_counter = self.cycle_counter + 1;
        self.io_pending = false;
    }
}

} // verus!
