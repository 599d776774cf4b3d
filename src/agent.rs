//! One agent's state between the outside steps of its run loop: the loop's
//! decisions, the current frame, the control source and the history.

use crate::config::{AgentConfiguration, AgentControl};
use crate::control::{opposing_masked, ControlError, ControlSource};
use crate::observation::{
    pixel_luma, FrameBuffer, ObservationData, ObservationSet,
};
use crate::pacer::RunLoop;
use crate::wire::FrameGeometry;
use vstd::prelude::*;

verus! {

/// Whether a cycle that runs input/output processes its frame.
pub open spec fn processes_frames(config: AgentConfiguration) -> bool {
    config.store_observations || config.render_condition
}

/// `f` is `old` with its processed bytes recomputed from its raw bytes
/// (for 4-byte pixels; at another depth they stay as they were).
pub open spec fn processed_from(f: FrameBuffer, old: FrameBuffer) -> bool {
    &&& f.width == old.width
    &&& f.height == old.height
    &&& f.bpp == old.bpp
    &&& f.pixel_format == old.pixel_format
    &&& f.frame_data@ == old.frame_data@
    &&& f.processed_data@.len() == old.processed_data@.len()
    &&& old.bpp == 4 ==> forall|i: int|
        0 <= i < old.processed_data@.len() ==> #[trigger] f.processed_data@[i] == pixel_luma(
            old.frame_data@,
            i,
        )
    &&& old.bpp != 4 ==> f.processed_data@ == old.processed_data@
}

/// `o` records frame `f` and control input `k`.
pub open spec fn records(o: ObservationData, f: FrameBuffer, k: u16) -> bool {
    &&& o.keycode_data == k
    &&& o.frame_buffer.width == f.width
    &&& o.frame_buffer.height == f.height
    &&& o.frame_buffer.bpp == f.bpp
    &&& o.frame_buffer.pixel_format == f.pixel_format
    &&& o.frame_buffer.frame_data@ == f.frame_data@
    &&& o.frame_buffer.processed_data@ == f.processed_data@
}

/// The outside-free part of one agent.
pub struct AgentCore {
    pub config: AgentConfiguration,
    pub run_loop: RunLoop,
    /// The frame the backend writes into.
    pub frame: FrameBuffer,
    /// Present exactly when observations are stored.
    pub history: Option<ObservationSet>,
    pub control: ControlSource,
}

impl AgentCore {
    /// The parts agree with one another and with the configuration.
    pub open spec fn wf(&self) -> bool {
        &&& self.config.valid()
        &&& self.run_loop.wf()
        &&& self.run_loop.clock == self.config.emu_clock_mgr
        &&& self.frame.wf()
        &&& self.control.wf()
        &&& self.history.is_some() == self.config.store_observations
    }

    /// An agent for `config` whose backend produces frames of `geometry`;
    /// `records` is what a replay source plays; `start` is the clock reading
    /// at which the loop starts. Fails only for an unsupported control kind.
    pub fn new(
        config: AgentConfiguration,
        geometry: FrameGeometry,
        records: Vec<u16>,
        start: u64,
    ) -> (r: Result<AgentCore, ControlError>)
        requires
            config.valid(),
            geometry.wf(),
        ensures
            config.agent_control == AgentControl::Intelligent ==> r == Err::<
                AgentCore,
                ControlError,
            >(ControlError::Unsupported),
            config.agent_control != AgentControl::Intelligent ==> (r matches Ok(
                a,
            ) && {
                &&& a.wf()
                &&& a.config == config
                &&& a.run_loop == RunLoop::new_spec(config, start)
                &&& a.frame.width == geometry.width
                &&& a.frame.height == geometry.height
                &&& a.frame.bpp == geometry.bpp
                &&& a.frame.pixel_format == geometry.pixel_format
                &&& match config.agent_control {
                    AgentControl::Replay => a.control matches ControlSource::Replay(p)
                        && p.records@ == records@ && p.cursor == 0,
                    _ => a.control matches ControlSource::Human(h) && h.held == 0 && !h.quit,
                }
                &&& match a.history {
                    Some(h) => h@.len() == 0 && h.spec_width() == geometry.width
                        && h.spec_height() == geometry.height && h.spec_pixel_type()
                        == geometry.pixel_format,
                    None => true,
                }
            }),
    {
        let control = match ControlSource::for_kind(config.agent_control, records) {
            Ok(c) => c,
            Err(e) => return Err(e),
        };
        let run_loop = RunLoop::new(&config, start);
        let frame = geometry.frame_buffer();
        let history = if config.store_observations {
            Some(ObservationSet::new(None, geometry.width, geometry.height, geometry.pixel_format))
        } else {
            None
        };
        Ok(AgentCore { config, run_loop, frame, history, control })
    }

    /// The input/output part of a cycle, once the frame was shown: takes the
    /// next control input, and then processes the frame and stores the
    /// observation as the configuration asks. Returns whether the loop goes on.
    pub fn io_phase(&mut self) -> (go_on: bool)
        requires
            old(self).wf(),
            !old(self).run_loop.stopped,
        ensures
            final(self).wf(),
            final(self).config == old(self).config,
            go_on == match old(self).control {
                ControlSource::Human(h) => !h.quit,
                ControlSource::Replay(p) => p.cursor < p.records@.len(),
            },
            go_on ==> final(self).run_loop.keycode == match old(self).control {
                ControlSource::Human(h) => opposing_masked(h.held),
                ControlSource::Replay(p) => p.records@[p.cursor as int],
            },
            final(self).run_loop == (RunLoop {
                keycode: final(self).run_loop.keycode,
                stopped: !go_on,
                ..old(self).run_loop
            }),
            match (old(self).control, final(self).control) {
                (ControlSource::Human(h), ControlSource::Human(g)) => g == h,
                (ControlSource::Replay(p), ControlSource::Replay(q)) => q.records == p.records
                    && q.cursor == if go_on {
                    p.cursor + 1
                } else {
                    p.cursor as int
                },
                _ => false,
            },
            match (old(self).history, final(self).history) {
                (Some(h0), Some(h1)) => h1.spec_width() == h0.spec_width() && h1.spec_height()
                    == h0.spec_height() && h1.spec_pixel_type() == h0.spec_pixel_type(),
                _ => true,
            },
            !go_on ==> final(self).run_loop.stopped && final(self).frame == old(self).frame
                && final(self).history == old(self).history,
            go_on ==> {
                let k = final(self).run_loop.keycode;
                &&& !final(self).run_loop.stopped
                &&& if processes_frames(old(self).config) {
                    processed_from(final(self).frame, old(self).frame)
                } else {
                    final(self).frame == old(self).frame
                }
                &&& match (old(self).history, final(self).history) {
                    (Some(h0), Some(h1)) => h1@.len() == h0@.len() + 1 && h1@.subrange(
                        0,
                        h0@.len() as int,
                    ) == h0@ && records(h1@.last(), final(self).frame, k),
                    (None, None) => true,
                    _ => false,
                }
            },
    {
        let input = self.control.next_input();
        if !self.run_loop.accept_input(input) {
            return false;
        }
        if self.config.store_observations || self.config.render_condition {
            self.frame.post_process_data();
        }
        let keycode = self.run_loop.keycode;
        match &mut self.history {
            Some(h) => {
                let ghost h0 = h@;
                let snapshot = ObservationData { frame_buffer: self.frame.snapshot(), keycode_data: keycode };
                h.push(snapshot);
                assert(h@.subrange(0, h0.len() as int) =~= h0);
            },
            None => {},
        }
        true
    }

    /// Ends the run and hands back the stored observations.
    pub fn finish(self) -> (r: Option<ObservationSet>)
        ensures
            r == self.history,
    {
        self.history
    }
}

} // verus!
