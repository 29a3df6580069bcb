//! Pointer capture: whether pointer motion steers the camera, and what one
//! pointer sample turns into.
//!
//! A pointer sample is a value of the caller's type `S`: the capture stores
//! and hands back samples without looking inside. In relative mode a sample
//! is a movement. In absolute mode a sample is a position, and a movement is
//! what lies between two of them.

use vstd::prelude::*;

verus! {

/// Pointer units per radian of camera turn: a pointer movement of this many
/// units turns the camera by one radian.
pub const LOOK_SCALE: u32 = 1000;

/// The divisor applied to the distance between two absolute pointer samples
/// to make a relative movement of it.
pub const ABSOLUTE_DAMPING: u32 = 4;

/// What a pointer sample makes the camera do.
#[derive(Debug, PartialEq)]
pub enum Look<S> {
    /// Nothing: the camera keeps its yaw and pitch.
    Still,
    /// Turn by the movement `delta`.
    By { delta: S },
    /// Turn by the movement from `previous` to `current`, divided by
    /// `ABSOLUTE_DAMPING`.
    Between { previous: S, current: S },
}

/// The capture's state as contracts see it.
pub ghost struct CaptureState<S> {
    /// Whether the pointer is captured.
    pub captured: bool,
    /// The previous absolute sample, where there is one to measure from.
    pub last_sample: Option<S>,
}

impl<S> CaptureState<S> {
    /// The state's invariant: a previous sample is kept only while the
    /// pointer is captured.
    pub open spec fn wf(self) -> bool {
        !self.captured ==> self.last_sample is None
    }

    /// The free pointer.
    pub open spec fn free() -> CaptureState<S> {
        CaptureState { captured: false, last_sample: None }
    }

    /// The state after a request to capture.
    pub open spec fn grabbed(self) -> CaptureState<S> {
        CaptureState { captured: true, ..self }
    }

    /// The state after a sample: only a captured pointer in absolute mode
    /// remembers it.
    pub open spec fn after_sample(self, absolute: bool, sample: S) -> CaptureState<S> {
        if self.captured && absolute {
            CaptureState { last_sample: Some(sample), ..self }
        } else {
            self
        }
    }

    /// What a sample makes the camera do. A free pointer is ignored. In
    /// relative mode the sample is the movement. In absolute mode the movement
    /// is measured from the previous sample, and the first sample of a capture
    /// only sets the starting point.
    pub open spec fn look(self, absolute: bool, sample: S) -> Look<S> {
        if !self.captured {
            Look::Still
        } else if !absolute {
            Look::By { delta: sample }
        } else {
            match self.last_sample {
                Some(previous) => Look::Between { previous, current: sample },
                None => Look::Still,
            }
        }
    }
}

/// The capture of the pointer and the sample it measures from.
pub struct PointerCapture<S> {
    grabbed: bool,
    last_mouse_delta: Option<S>,
}

impl<S> View for PointerCapture<S> {
    type V = CaptureState<S>;

    closed spec fn view(&self) -> CaptureState<S> {
        CaptureState { captured: self.grabbed, last_sample: self.last_mouse_delta }
    }
}

impl<S> PointerCapture<S> {
    /// What holds of every capture: it keeps a sample only while captured.
    #[verifier::type_invariant]
    pub closed spec fn inv(self) -> bool {
        !self.grabbed ==> self.last_mouse_delta is None
    }

    /// The invariant of a capture is the invariant of its state.
    pub proof fn lemma_inv_wf(self)
        requires
            self.inv(),
        ensures
            self@.wf(),
    {
    }
}

impl<S: Copy> PointerCapture<S> {
    /// The free pointer.
    pub fn new() -> (capture: Self)
        ensures
            capture@ == CaptureState::<S>::free(),
    {
        PointerCapture { grabbed: false, last_mouse_delta: None }
    }

    /// Whether the pointer is captured.
    pub fn grabbed(&self) -> (captured: bool)
        ensures
            captured == self@.captured,
            self@.wf(),
    {
        proof {
            use_type_invariant(self);
        }
        self.grabbed
    }

    /// Captures the pointer. Returns whether it was free before, in which
    /// case the caller is to capture the device.
    pub fn request_grab(&mut self) -> (newly: bool)
        ensures
            newly == !old(self)@.captured,
            final(self)@ == old(self)@.grabbed(),
            final(self)@.wf(),
    {
        proof {
            use_type_invariant(&*self);
        }
        let newly = !self.grabbed;
        self.grabbed = true;
        newly
    }

    /// Releases the pointer and forgets the previous sample.
    pub fn request_ungrab(&mut self)
        ensures
            final(self)@ == CaptureState::<S>::free(),
    {
        self.last_mouse_delta = None;
        self.grabbed = false;
    }

    /// Takes a pointer sample and says what the camera is to do with it.
    pub fn sample(&mut self, absolute: bool, sample: S) -> (look: Look<S>)
        ensures
            look == old(self)@.look(absolute, sample),
            final(self)@ == old(self)@.after_sample(absolute, sample),
            final(self)@.wf(),
    {
        proof {
            use_type_invariant(&*self);
        }
        if !self.grabbed {
            Look::Still
        } else if !absolute {
            Look::By { delta: sample }
        } else {
            let previous = self.last_mouse_delta;
            self.last_mouse_delta = Some(sample);
            match previous {
                Some(previous) => Look::Between { previous, current: sample },
                None => Look::Still,
            }
        }
    }
}

} // verus!
