use vstd::prelude::*;

use crate::mesh::count_up;

verus! {

/// What the host should do after the driver has seen an event.
#[derive(Clone, Copy, Debug, PartialEq, Eq, Structural)]
pub enum Action {
    /// Nothing to do.
    Idle,
    /// Ask for the first frame.
    Schedule,
    /// Advance and draw the scene, then ask for the next frame if `again`.
    Draw { again: bool },
}

/// The decisions of the animation loop: it runs one frame per display
/// refresh until a stop is asked for, which it honours before asking for the
/// next frame.
pub struct FrameDriver {
    pub frames: u64,
    pub running: bool,
    pub stopping: bool,
}

impl FrameDriver {
    /// A driver that has drawn nothing and is not running.
    pub fn new() -> (r: Self)
        ensures
            r.frames == 0,
            !r.running,
            !r.stopping,
    {
        FrameDriver { frames: 0, running: false, stopping: false }
    }

    /// Starts the loop unless it runs already.
    pub fn start(&mut self) -> (a: Action)
        ensures
            final(self).frames == old(self).frames,
            final(self).running,
            old(self).running ==> a == Action::Idle && final(self).stopping == old(self).stopping,
            !old(self).running ==> a == Action::Schedule && !final(self).stopping,
    {
        if self.running {
            Action::Idle
        } else {
            self.running = true;
            self.stopping = false;
            Action::Schedule
        }
    }

    /// Asks a running loop to stop before its next frame is requested.
    pub fn request_stop(&mut self)
        ensures
            final(self).frames == old(self).frames,
            final(self).running == old(self).running,
            final(self).stopping == old(self).running,
    {
        self.stopping = self.running;
    }

    /// A requested frame has come due: a running loop draws it, counts it,
    /// and asks for another unless a stop was asked for, in which case it
    /// stops.
    pub fn frame_due(&mut self) -> (a: Action)
        ensures
            !old(self).running ==> a == Action::Idle && *final(self) == *old(self),
            old(self).running ==> {
                &&& a == Action::Draw { again: !old(self).stopping }
                &&& final(self).frames == count_up(old(self).frames)
                &&& final(self).running == !old(self).stopping
                &&& !final(self).stopping
            },
    {
        if !self.running {
            return Action::Idle;
        }
        if self.frames < u64::MAX {
            self.frames = self.frames + 1;
        }
        let again = !self.stopping;
        self.running = again;
        self.stopping = false;
        Action::Draw { again }
    }
}

} // verus!
