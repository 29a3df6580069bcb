//! The viewer's input state machine: events in, actions out.
//!
//! The viewer owns the key state, the pointer capture and the frame clock.
//! Each event changes that state and tells the caller what to do: capture or
//! release the pointer, turn the camera, move it for a frame. The caller does
//! the arithmetic on the camera pose; the viewer decides what goes into it.

use crate::keys::{button_pressed, held, KeyBindings};
use crate::pointer::{CaptureState, Look, PointerCapture};
use crate::timing::{clock_after, clock_tick, ClockState, FrameClock, FrameTick};
use std::collections::HashMap;
use vstd::multiset::Multiset;
use vstd::prelude::*;
use vstd::std_specs::hash::*;

verus! {

/// Something that happened to the viewer's window or devices.
#[derive(Debug, PartialEq)]
pub enum Event<S> {
    /// A key went down or up.
    KeyChanged { scancode: u32, pressed: bool },
    /// The pointer reported a sample.
    PointerMoved { sample: S },
    /// The window lost the input focus.
    FocusLost,
    /// The user asked to capture the pointer, by a left click.
    CaptureRequested,
    /// The user asked to let the pointer go.
    CaptureReleased,
    /// A frame begins, at the time `now` in nanoseconds.
    Tick { now: u64 },
}

/// What a frame tick asks of the caller. Each movement flag stands for one
/// step of speed times frame duration along its axis. The steps add up as
/// they are: two held keys move the camera further than one, and opposite
/// keys undo each other.
#[derive(Clone, Copy, Debug, PartialEq, Eq, Structural)]
pub struct Frame {
    /// The frame's duration and, at the end of an interval, the report.
    pub timing: FrameTick,
    /// Step along the forward axis.
    pub forward: bool,
    /// Step against the forward axis.
    pub back: bool,
    /// Step along the side axis, which points to the camera's left.
    pub left: bool,
    /// Step against the side axis.
    pub right: bool,
    /// Step along the up axis.
    pub up: bool,
    /// Use the run speed for this frame's steps, not the walk speed.
    pub run: bool,
    /// Print the camera pose.
    pub print_pose: bool,
    /// Release the pointer.
    pub release_capture: bool,
    /// Write out the GPU timings.
    pub dump_profile: bool,
}

/// What the caller is to do after an event.
#[derive(Debug, PartialEq)]
pub enum Action<S> {
    /// Nothing.
    Idle,
    /// Capture the pointer.
    Grab,
    /// Release the pointer.
    Ungrab,
    /// Turn the camera.
    Turn(Look<S>),
    /// Advance the camera by one frame.
    Advance(Frame),
}

/// The viewer's state as contracts see it.
pub ghost struct ViewerState<S> {
    /// Whether pointer samples are absolute positions.
    pub absolute_mouse: bool,
    /// Which key does what.
    pub bindings: KeyBindings,
    /// The last reported state of each key that was ever reported.
    pub keys: Map<u32, bool>,
    /// The pointer capture.
    pub pointer: CaptureState<S>,
    /// The frame clock.
    pub clock: ClockState,
}

impl<S> ViewerState<S> {
    /// The state's invariant: that of the pointer capture.
    pub open spec fn wf(self) -> bool {
        self.pointer.wf()
    }

    /// The state of a new viewer whose clock starts at `now`.
    pub open spec fn initial(absolute_mouse: bool, bindings: KeyBindings, now: u64) -> ViewerState<
        S,
    > {
        ViewerState {
            absolute_mouse,
            bindings,
            keys: Map::empty(),
            pointer: CaptureState::free(),
            clock: ClockState { last_frame: now, last_second: now, samples: Multiset::empty() },
        }
    }

    /// The state with the pointer released and the previous sample forgotten.
    pub open spec fn released(self) -> ViewerState<S> {
        ViewerState { pointer: CaptureState::free(), ..self }
    }

    /// The state after a key event.
    pub open spec fn after_key(self, scancode: u32, pressed: bool) -> ViewerState<S> {
        ViewerState { keys: self.keys.insert(scancode, pressed), ..self }
    }

    /// The state after a request to capture the pointer.
    pub open spec fn after_capture_request(self) -> ViewerState<S> {
        ViewerState { pointer: self.pointer.grabbed(), ..self }
    }

    /// The state after a pointer sample.
    pub open spec fn after_pointer(self, sample: S) -> ViewerState<S> {
        ViewerState { pointer: self.pointer.after_sample(self.absolute_mouse, sample), ..self }
    }

    /// What a pointer sample makes the camera do.
    pub open spec fn look(self, sample: S) -> Look<S> {
        self.pointer.look(self.absolute_mouse, sample)
    }

    /// What a tick at `now` asks of the caller: each flag is the state of its
    /// key, whatever the other keys do.
    pub open spec fn frame(self, now: u64) -> Frame {
        Frame {
            timing: clock_tick(self.clock, now),
            forward: held(self.keys, self.bindings.forward),
            back: held(self.keys, self.bindings.back),
            left: held(self.keys, self.bindings.left),
            right: held(self.keys, self.bindings.right),
            up: held(self.keys, self.bindings.up),
            run: held(self.keys, self.bindings.run),
            print_pose: held(self.keys, self.bindings.print_pose),
            release_capture: held(self.keys, self.bindings.release),
            dump_profile: held(self.keys, self.bindings.dump_profile),
        }
    }

    /// The state after a tick at `now`: the clock has moved on, and a held
    /// release key has released the pointer.
    pub open spec fn after_tick(self, now: u64) -> ViewerState<S> {
        let ticked = ViewerState { clock: clock_after(self.clock, now), ..self };
        if held(self.keys, self.bindings.release) {
            ticked.released()
        } else {
            ticked
        }
    }

    /// The state after `event`.
    pub open spec fn after(self, event: Event<S>) -> ViewerState<S> {
        match event {
            Event::KeyChanged { scancode, pressed } => self.after_key(scancode, pressed),
            Event::PointerMoved { sample } => self.after_pointer(sample),
            Event::FocusLost => self.released(),
            Event::CaptureRequested => self.after_capture_request(),
            Event::CaptureReleased => self.released(),
            Event::Tick { now } => self.after_tick(now),
        }
    }

    /// What `event` asks of the caller.
    pub open spec fn action(self, event: Event<S>) -> Action<S> {
        match event {
            Event::KeyChanged { scancode, pressed } => Action::Idle,
            Event::PointerMoved { sample } => Action::Turn(self.look(sample)),
            Event::FocusLost => Action::Ungrab,
            Event::CaptureRequested => if self.pointer.captured {
                Action::Idle
            } else {
                Action::Grab
            },
            Event::CaptureReleased => Action::Ungrab,
            Event::Tick { now } => Action::Advance(self.frame(now)),
        }
    }
}

/// The input state of a scene viewer.
pub struct SceneViewer<S> {
    absolute_mouse: bool,
    bindings: KeyBindings,
    scancode_status: HashMap<u32, bool>,
    pointer: PointerCapture<S>,
    clock: FrameClock,
}

impl<S> View for SceneViewer<S> {
    type V = ViewerState<S>;

    closed spec fn view(&self) -> ViewerState<S> {
        ViewerState {
            absolute_mouse: self.absolute_mouse,
            bindings: self.bindings,
            keys: self.scancode_status@,
            pointer: self.pointer@,
            clock: self.clock@,
        }
    }
}

impl<S: Copy> SceneViewer<S> {
    /// A viewer with no key held and the pointer free, whose clock starts at
    /// `now`.
    pub fn new(absolute_mouse: bool, bindings: KeyBindings, now: u64) -> (viewer: Self)
        ensures
            viewer@ == ViewerState::<S>::initial(absolute_mouse, bindings, now),
            viewer@.wf(),
    {
        SceneViewer {
            absolute_mouse,
            bindings,
            scancode_status: HashMap::new(),
            pointer: PointerCapture::new(),
            clock: FrameClock::new(now),
        }
    }

    /// Whether pointer samples are taken as absolute positions.
    pub fn absolute_mouse(&self) -> (absolute: bool)
        ensures
            absolute == self@.absolute_mouse,
    {
        self.absolute_mouse
    }

    /// Which key does what.
    pub fn bindings(&self) -> (bindings: KeyBindings)
        ensures
            bindings == self@.bindings,
    {
        self.bindings
    }

    /// Whether the pointer is captured.
    pub fn grabbed(&self) -> (captured: bool)
        ensures
            captured == self@.pointer.captured,
            self@.wf(),
    {
        self.pointer.grabbed()
    }

    /// Whether the key `scancode` is held.
    pub fn pressed(&self, scancode: u32) -> (pressed: bool)
        ensures
            pressed == held(self@.keys, scancode),
    {
        broadcast use vstd::std_specs::hash::group_hash_axioms;

        button_pressed(&self.scancode_status, scancode)
    }

    /// Records that the key `scancode` went down or up.
    pub fn key_changed(&mut self, scancode: u32, pressed: bool)
        ensures
            final(self)@ == old(self)@.after_key(scancode, pressed),
            final(self)@.wf(),
    {
        broadcast use vstd::std_specs::hash::group_hash_axioms;

        proof {
            use_type_invariant(&self.pointer);
            self.pointer.lemma_inv_wf();
        }

        self.scancode_status.insert(scancode, pressed);
    }

    /// Takes a pointer sample and says how the camera is to turn.
    pub fn pointer_moved(&mut self, sample: S) -> (look: Look<S>)
        ensures
            look == old(self)@.look(sample),
            final(self)@ == old(self)@.after_pointer(sample),
            final(self)@.wf(),
    {
        self.pointer.sample(self.absolute_mouse, sample)
    }

    /// Releases the pointer because the window lost the focus.
    pub fn focus_lost(&mut self)
        ensures
            final(self)@ == old(self)@.released(),
            final(self)@.wf(),
    {
        self.pointer.request_ungrab();
    }

    /// Captures the pointer. Returns whether it was free before, in which
    /// case the caller is to capture the device.
    pub fn capture_requested(&mut self) -> (newly: bool)
        ensures
            newly == !old(self)@.pointer.captured,
            final(self)@ == old(self)@.after_capture_request(),
            final(self)@.wf(),
    {
        self.pointer.request_grab()
    }

    /// Releases the pointer.
    pub fn capture_released(&mut self)
        ensures
            final(self)@ == old(self)@.released(),
            final(self)@.wf(),
    {
        self.pointer.request_ungrab();
    }

    /// Begins a frame at `now`: measures it, reads the keys, and releases the
    /// pointer where the release key is held.
    pub fn tick(&mut self, now: u64) -> (frame: Frame)
        ensures
            frame == old(self)@.frame(now),
            frame.timing.report matches Some(report) ==> report.founded(),
            final(self)@ == old(self)@.after_tick(now),
            final(self)@.wf(),
    {
        proof {
            use_type_invariant(&self.pointer);
            self.pointer.lemma_inv_wf();
        }
        let timing = self.clock.tick(now);
        let frame = Frame {
            timing,
            forward: self.pressed(self.bindings.forward),
            back: self.pressed(self.bindings.back),
            left: self.pressed(self.bindings.left),
            right: self.pressed(self.bindings.right),
            up: self.pressed(self.bindings.up),
            run: self.pressed(self.bindings.run),
            print_pose: self.pressed(self.bindings.print_pose),
            release_capture: self.pressed(self.bindings.release),
            dump_profile: self.pressed(self.bindings.dump_profile),
        };
        if frame.release_capture {
            self.pointer.request_ungrab();
        }
        frame
    }

    /// Takes one event, changes the state by it and says what the caller is
    /// to do.
    pub fn handle_event(&mut self, event: Event<S>) -> (action: Action<S>)
        ensures
            action == old(self)@.action(event),
            action matches Action::Advance(Frame { timing, .. }) ==> (timing.report matches Some(
                report,
            ) ==> report.founded()),
            final(self)@ == old(self)@.after(event),
            final(self)@.wf(),
    {
        match event {
            Event::KeyChanged { scancode, pressed } => {
                self.key_changed(scancode, pressed);
                Action::Idle
            },
            Event::PointerMoved { sample } => Action::Turn(self.pointer_moved(sample)),
            Event::FocusLost => {
                self.focus_lost();
                Action::Ungrab
            },
            Event::CaptureRequested => {
                if self.capture_requested() {
                    Action::Grab
                } else {
                    Action::Idle
                }
            },
            Event::CaptureReleased => {
                self.capture_released();
                Action::Ungrab
            },
            Event::Tick { now } => Action::Advance(self.tick(now)),
        }
    }
}

} // verus!
