//! Control sources: where each input/output cycle's control input comes from.

use crate::config::AgentControl;
use vstd::prelude::*;

verus! {

/// The buttons of the emulated device, each one bit of a control input.
#[derive(Clone, Copy, Debug, PartialEq, Eq, Structural)]
pub enum Button {
    A,
    B,
    Select,
    Start,
    Right,
    Left,
    Up,
    Down,
    R,
    L,
}

/// The bit of a control input that a button sets.
pub open spec fn button_bit(b: Button) -> u16 {
    match b {
        Button::A => 0x1,
        Button::B => 0x2,
        Button::Select => 0x4,
        Button::Start => 0x8,
        Button::Right => 0x10,
        Button::Left => 0x20,
        Button::Up => 0x40,
        Button::Down => 0x80,
        Button::R => 0x100,
        Button::L => 0x200,
    }
}

/// Right and left together.
pub const HORIZONTAL_PAIR: u16 = 0x30;

/// Up and down together.
pub const VERTICAL_PAIR: u16 = 0xc0;

/// `held` with each pair of opposing directions that is fully held cleared.
pub open spec fn opposing_masked(held: u16) -> u16 {
    let h = if held & 0x30 == 0x30 {
        held & !0x30u16
    } else {
        held
    };
    if h & 0xc0 == 0xc0 {
        h & !0xc0u16
    } else {
        h
    }
}

impl Button {
    /// The bit this button sets.
    pub fn bit(&self) -> (r: u16)
        ensures
            r == button_bit(*self),
    {
        match self {
            Button::A => 0x1,
            Button::B => 0x2,
            Button::Select => 0x4,
            Button::Start => 0x8,
            Button::Right => 0x10,
            Button::Left => 0x20,
            Button::Up => 0x40,
            Button::Down => 0x80,
            Button::R => 0x100,
            Button::L => 0x200,
        }
    }
}

/// Clears each pair of opposing directions (right/left, up/down) that is
/// held in full; every other bit is kept.
pub fn mask_opposing(held: u16) -> (r: u16)
    ensures
        r == opposing_masked(held),
        held & 0x30 == 0x30 ==> r & 0x30 == 0,
        held & 0x30 != 0x30 ==> r & 0x30 == held & 0x30,
        held & 0xc0 == 0xc0 ==> r & 0xc0 == 0,
        held & 0xc0 != 0xc0 ==> r & 0xc0 == held & 0xc0,
        r & !0xf0u16 == held & !0xf0u16,
{
    let h = if held & HORIZONTAL_PAIR == HORIZONTAL_PAIR {
        held & !HORIZONTAL_PAIR
    } else {
        held
    };
    let r = if h & VERTICAL_PAIR == VERTICAL_PAIR {
        h & !VERTICAL_PAIR
    } else {
        h
    };
    assert(held & 0x30 == 0x30 ==> r & 0x30 == 0) by (bit_vector)
        requires
            h == if held & 0x30 == 0x30 {
                held & !0x30u16
            } else {
                held
            },
            r == if h & 0xc0 == 0xc0 {
                h & !0xc0u16
            } else {
                h
            },
    ;
    assert(held & 0x30 != 0x30 ==> r & 0x30 == held & 0x30) by (bit_vector)
        requires
            h == if held & 0x30 == 0x30 {
                held & !0x30u16
            } else {
                held
            },
            r == if h & 0xc0 == 0xc0 {
                h & !0xc0u16
            } else {
                h
            },
    ;
    assert(held & 0xc0 == 0xc0 ==> r & 0xc0 == 0) by (bit_vector)
        requires
            h == if held & 0x30 == 0x30 {
                held & !0x30u16
            } else {
                held
            },
            r == if h & 0xc0 == 0xc0 {
                h & !0xc0u16
            } else {
                h
            },
    ;
    assert(held & 0xc0 != 0xc0 ==> r & 0xc0 == held & 0xc0) by (bit_vector)
        requires
            h == if held & 0x30 == 0x30 {
                held & !0x30u16
            } else {
                held
            },
            r == if h & 0xc0 == 0xc0 {
                h & !0xc0u16
            } else {
                h
            },
    ;
    assert(r & !0xf0u16 == held & !0xf0u16) by (bit_vector)
        requires
            h == if held & 0x30 == 0x30 {
                held & !0x30u16
            } else {
                held
            },
            r == if h & 0xc0 == 0xc0 {
                h & !0xc0u16
            } else {
                h
            },
    ;
    r
}

/// What a display device reports.
#[derive(Clone, Copy, Debug, PartialEq, Eq, Structural)]
pub enum DeviceEvent {
    Press(Button),
    Release(Button),
    /// The person asked to end the run.
    Quit,
}

/// The buttons a person holds down, as the device's events tell them.
#[derive(Clone, Copy, Debug, PartialEq, Eq, Structural)]
pub struct HumanInput {
    /// One bit per held button.
    pub held: u16,
    /// A quit was reported: no further input comes.
    pub quit: bool,
}

impl HumanInput {
    /// No button held.
    pub fn new() -> (r: HumanInput)
        ensures
            r.held == 0,
            !r.quit,
    {
        HumanInput { held: 0, quit: false }
    }

    /// Takes one device event into account.
    pub fn handle(&mut self, event: DeviceEvent)
        ensures
            *final(self) == match event {
                DeviceEvent::Press(b) => HumanInput {
                    held: old(self).held | button_bit(b),
                    ..*old(self)
                },
                DeviceEvent::Release(b) => HumanInput {
                    held: old(self).held & !button_bit(b),
                    ..*old(self)
                },
                DeviceEvent::Quit => HumanInput { quit: true, ..*old(self) },
            },
    {
        match event {
            DeviceEvent::Press(b) => {
                self.held = self.held | b.bit();
            },
            DeviceEvent::Release(b) => {
                self.held = self.held & !b.bit();
            },
            DeviceEvent::Quit => {
                self.quit = true;
            },
        }
    }

    /// The control input to use now, or `None` once a quit was reported.
    pub fn emit(&self) -> (r: Option<u16>)
        ensures
            r == if self.quit {
                None
            } else {
                Some(opposing_masked(self.held))
            },
    {
        if self.quit {
            None
        } else {
            Some(mask_opposing(self.held))
        }
    }
}

/// Playback of a recorded control sequence, one record per call.
#[derive(Clone, Debug)]
pub struct ReplaySource {
    pub records: Vec<u16>,
    pub cursor: usize,
}

impl ReplaySource {
    /// Playback from the first record.
    pub fn new(records: Vec<u16>) -> (r: ReplaySource)
        ensures
            r.records@ == records@,
            r.cursor == 0,
    {
        ReplaySource { records, cursor: 0 }
    }

    /// The next record, or `None` once all were played.
    pub fn next_record(&mut self) -> (r: Option<u16>)
        requires
            old(self).cursor <= old(self).records@.len(),
        ensures
            final(self).records == old(self).records,
            final(self).cursor <= final(self).records@.len(),
            old(self).cursor < old(self).records@.len() ==> r == Some(
                old(self).records@[old(self).cursor as int],
            ) && final(self).cursor == old(self).cursor + 1,
            old(self).cursor == old(self).records@.len() ==> r.is_none() && final(self).cursor
                == old(self).cursor,
    {
        if self.cursor < self.records.len() {
            let k = self.records[self.cursor];
            self.cursor = self.cursor + 1;
            Some(k)
        } else {
            None
        }
    }
}

/// Why no control source could be built.
#[derive(Clone, Copy, Debug, PartialEq, Eq, Structural)]
pub enum ControlError {
    /// Automated control is not available.
    Unsupported,
}

/// The control source of one agent.
#[derive(Clone, Debug)]
pub enum ControlSource {
    Human(HumanInput),
    Replay(ReplaySource),
}

impl ControlSource {
    /// The source is in a usable state.
    pub open spec fn wf(&self) -> bool {
        match self {
            ControlSource::Replay(r) => r.cursor <= r.records@.len(),
            ControlSource::Human(_) => true,
        }
    }

    /// The source for control kind `kind`; `records` is what a replay plays.
    pub fn for_kind(kind: AgentControl, records: Vec<u16>) -> (r: Result<ControlSource, ControlError>)
        ensures
            r matches Ok(s) ==> s.wf(),
            match kind {
                AgentControl::Human => r matches Ok(ControlSource::Human(h)) && h == HumanInput {
                    held: 0,
                    quit: false,
                },
                AgentControl::Replay => r matches Ok(ControlSource::Replay(p)) && p.records@
                    == records@ && p.cursor == 0,
                AgentControl::Intelligent => r == Err::<ControlSource, ControlError>(
                    ControlError::Unsupported,
                ),
            },
    {
        match kind {
            AgentControl::Human => Ok(ControlSource::Human(HumanInput::new())),
            AgentControl::Replay => Ok(ControlSource::Replay(ReplaySource::new(records))),
            AgentControl::Intelligent => Err(ControlError::Unsupported),
        }
    }

    /// The next control input, or `None` when the source has no further input.
    pub fn next_input(&mut self) -> (r: Option<u16>)
        requires
            old(self).wf(),
        ensures
            final(self).wf(),
            match *old(self) {
                ControlSource::Human(h) => *final(self) == *old(self) && r == if h.quit {
                    None
                } else {
                    Some(opposing_masked(h.held))
                },
                ControlSource::Replay(p) => *final(self) matches ControlSource::Replay(q) && q.records
                    == p.records && if p.cursor < p.records@.len() {
                    r == Some(p.records@[p.cursor as int]) && q.cursor == p.cursor + 1
                } else {
                    r.is_none() && q.cursor == p.cursor
                },
            },
    {
        match self {
            ControlSource::Human(h) => h.emit(),
            ControlSource::Replay(p) => p.next_record(),
        }
    }

    /// Passes a device event to a human source; other sources ignore it.
    pub fn handle_event(&mut self, event: DeviceEvent)
        requires
            old(self).wf(),
        ensures
            final(self).wf(),
            match *old(self) {
                ControlSource::Human(h) => *final(self) matches ControlSource::Human(g) && g == match event {
                    DeviceEvent::Press(b) => HumanInput { held: h.held | button_bit(b), ..h },
                    DeviceEvent::Release(b) => HumanInput { held: h.held & !button_bit(b), ..h },
                    DeviceEvent::Quit => HumanInput { quit: true, ..h },
                },
                ControlSource::Replay(_) => *final(self) == *old(self),
            },
    {
        match self {
            ControlSource::Human(h) => h.handle(event),
            ControlSource::Replay(_) => {},
        }
    }
}

} // verus!
