use vstd::prelude::*;
use crate::frame::{frame_after, next_frame};

verus! {

/// Progress of a repository clone.
#[derive(Clone, Copy, Debug, PartialEq, Eq, Structural)]
pub enum CloneStatus {
    Cloning,
    Complete,
    Error,
}

/// Frames per second of the interface's tick.
pub const FRAMES_PER_SECOND: u64 = 60;

/// Clone progress screen.
#[derive(Debug)]
pub struct CloneScreen {
    frame: u64,
    destination: String,
    status: CloneStatus,
    progress_text: String,
    error_message: Option<String>,
    /// Frames since completion, for the auto-advance countdown.
    complete_frames: u64,
}

/// Seconds left on the countdown after a clone completed: 2, 1, then 0.
pub open spec fn clone_countdown(status: CloneStatus, complete_frames: u64) -> u8 {
    if status != CloneStatus::Complete {
        0
    } else if complete_frames / 60 == 0 {
        2
    } else if complete_frames / 60 == 1 {
        1
    } else {
        0
    }
}

impl CloneScreen {
    pub closed spec fn spec_frame(&self) -> u64 {
        self.frame
    }

    pub closed spec fn spec_status(&self) -> CloneStatus {
        self.status
    }

    pub closed spec fn spec_complete_frames(&self) -> u64 {
        self.complete_frames
    }

    pub closed spec fn spec_destination(&self) -> Seq<char> {
        self.destination@
    }

    pub closed spec fn spec_progress_text(&self) -> Seq<char> {
        self.progress_text@
    }

    pub closed spec fn spec_error(&self) -> Option<String> {
        self.error_message
    }

    pub fn new(destination: String) -> (r: Self)
        ensures
            r.spec_frame() == 0,
            r.spec_destination() == destination@,
            r.spec_status() == CloneStatus::Cloning,
            r.spec_complete_frames() == 0,
            r.spec_error() is None,
    {
        CloneScreen {
            frame: 0,
            destination,
            status: CloneStatus::Cloning,
            progress_text: String::from_str("Initializing..."),
            error_message: None,
            complete_frames: 0,
        }
    }

    /// Advances one frame; after completion the countdown frames advance too.
    pub fn tick(&mut self)
        ensures
            final(self).spec_frame() == frame_after(old(self).spec_frame()),
            final(self).spec_status() == old(self).spec_status(),
            final(self).spec_destination() == old(self).spec_destination(),
            final(self).spec_complete_frames() == if old(self).spec_status() == CloneStatus::Complete {
                frame_after(old(self).spec_complete_frames())
            } else {
                old(self).spec_complete_frames()
            },
    {
        self.frame = next_frame(self.frame);
        if self.status == CloneStatus::Complete {
            self.complete_frames = next_frame(self.complete_frames);
        }
    }

    /// True two seconds after the clone completed.
    pub fn should_auto_advance(&self) -> (r: bool)
        ensures
            r == (self.spec_status() == CloneStatus::Complete && self.spec_complete_frames() > 2 * FRAMES_PER_SECOND),
    {
        self.status == CloneStatus::Complete && self.complete_frames > 2 * FRAMES_PER_SECOND
    }

    pub fn countdown(&self) -> (r: u8)
        ensures
            r == clone_countdown(self.spec_status(), self.spec_complete_frames()),
    {
        if self.status != CloneStatus::Complete {
            return 0;
        }
        let seconds = self.complete_frames / FRAMES_PER_SECOND;
        if seconds == 0 {
            2
        } else if seconds == 1 {
            1
        } else {
            0
        }
    }

    pub fn set_progress(&mut self, text: String)
        ensures
            final(self).spec_progress_text() == text@,
            final(self).spec_status() == old(self).spec_status(),
            final(self).spec_frame() == old(self).spec_frame(),
            final(self).spec_complete_frames() == old(self).spec_complete_frames(),
            final(self).spec_destination() == old(self).spec_destination(),
    {
        self.progress_text = text;
    }

    pub fn set_complete(&mut self)
        ensures
            final(self).spec_status() == CloneStatus::Complete,
            final(self).spec_frame() == old(self).spec_frame(),
            final(self).spec_complete_frames() == old(self).spec_complete_frames(),
            final(self).spec_destination() == old(self).spec_destination(),
            final(self).spec_progress_text() == "Clone complete!"@,
            final(self).spec_error() == old(self).spec_error(),
    {
        self.status = CloneStatus::Complete;
        self.progress_text = String::from_str("Clone complete!");
    }

    pub fn set_error(&mut self, msg: String)
        ensures
            final(self).spec_status() == CloneStatus::Error,
            final(self).spec_error() == Some(msg),
            final(self).spec_frame() == old(self).spec_frame(),
            final(self).spec_destination() == old(self).spec_destination(),
    {
        self.status = CloneStatus::Error;
        self.error_message = Some(msg);
    }

    pub fn is_complete(&self) -> (r: bool)
        ensures
            r == (self.spec_status() == CloneStatus::Complete),
    {
        self.status == CloneStatus::Complete
    }

    pub fn is_error(&self) -> (r: bool)
        ensures
            r == (self.spec_status() == CloneStatus::Error),
    {
        self.status == CloneStatus::Error
    }

    pub fn destination(&self) -> (r: &str)
        ensures
            r@ == self.spec_destination(),
    {
        self.destination.as_str()
    }

    pub fn frame(&self) -> (r: u64)
        ensures
            r == self.spec_frame(),
    {
        self.frame
    }
}

} // verus!
