//! The configuration value that one agent is built from.

use vstd::prelude::*;

verus! {

/// Where the control input of an agent comes from.
#[derive(Clone, Copy, Debug, PartialEq, Eq, Structural)]
pub enum AgentControl {
    /// A person at a display device.
    Human,
    /// Playback of a recorded input sequence.
    Replay,
    /// An automated policy; not available.
    Intelligent,
}

impl AgentControl {
    /// The qualified variant name, as the agent reports it.
    pub fn display_name(&self) -> (r: String)
        ensures
            r@ == match *self {
                AgentControl::Human => "AgentControl::Human"@,
                AgentControl::Replay => "AgentControl::Replay"@,
                AgentControl::Intelligent => "AgentControl::Intelligent"@,
            },
    {
        match self {
            AgentControl::Human => String::from_str("AgentControl::Human"),
            AgentControl::Replay => String::from_str("AgentControl::Replay"),
            AgentControl::Intelligent => String::from_str("AgentControl::Intelligent"),
        }
    }
}

/// Which execution backend steps the emulator.
#[derive(Clone, Copy, Debug, PartialEq, Eq, Structural)]
pub enum AgentDriver {
    /// A backend server on the loopback interface, at this TCP port.
    Sockets(u16),
    /// The emulation core, loaded into this process.
    Native,
}

/// The game an agent runs.
#[derive(Clone, Debug)]
pub struct GameConfigData {
    pub rom_path: String,
    pub save_state_path: Option<String>,
}

/// A fixed clock rate, in cycles per second.
#[derive(Clone, Copy, Debug, PartialEq, Eq, Structural)]
pub struct ClockRate {
    pub rate: u32,
}

/// Microseconds in one second.
pub const MICROS_PER_SECOND: u32 = 1_000_000;

/// Length in microseconds of one cycle at `rate` cycles per second.
pub open spec fn cycle_micros(rate: u32) -> int
    recommends
        rate > 0,
{
    MICROS_PER_SECOND as int / rate as int
}

impl ClockRate {
    /// The minimal gap between two paced cycles, in microseconds.
    pub fn get_duration(&self) -> (r: u64)
        requires
            self.rate > 0,
        ensures
            r == cycle_micros(self.rate),
    {
        (MICROS_PER_SECOND / self.rate) as u64
    }
}

/// The clock policy of the run loop: exactly one of the two applies.
#[derive(Clone, Copy, Debug, PartialEq, Eq, Structural)]
pub enum EmuClockMgr {
    /// Input/output on every cycle, with cycles paced to the given rate.
    Clock(ClockRate),
    /// Input/output only on every (n+1)-th cycle, with no pacing.
    CycleIgnore(u32),
}

/// Everything one agent is built from.
#[derive(Clone, Debug)]
pub struct AgentConfiguration {
    pub agent_control: AgentControl,
    pub render_condition: bool,
    pub store_observations: bool,
    pub emu_clock_mgr: Option<EmuClockMgr>,
    pub agent_driver: AgentDriver,
    pub game_config_data: GameConfigData,
}

impl AgentConfiguration {
    /// The configuration is usable: a fixed clock rate is never zero.
    pub open spec fn valid(&self) -> bool {
        match self.emu_clock_mgr {
            Some(EmuClockMgr::Clock(c)) => c.rate > 0,
            _ => true,
        }
    }

    /// Whether the configuration is usable (see `valid`).
    pub fn is_valid(&self) -> (r: bool)
        ensures
            r == self.valid(),
    {
        match self.emu_clock_mgr {
            Some(EmuClockMgr::Clock(c)) => c.rate > 0,
            _ => true,
        }
    }
}

} // verus!
