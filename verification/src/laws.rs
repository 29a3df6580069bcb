//! What holds of the viewer whatever the events: the capture gates the
//! pointer, an absolute pointer needs two samples, every key answers for
//! itself.

use crate::keys::held;
use crate::pointer::Look;
use crate::timing::{
    clock_after, clock_tick, frame_micros, ClockState, HISTOGRAM_LIMIT, REPORT_INTERVAL,
};
use crate::viewer::{Action, Event, ViewerState};
use vstd::prelude::*;

verus! {

/// The events of a pointer that reports `samples` in turn.
pub open spec fn pointer_events<S>(samples: Seq<S>) -> Seq<Event<S>> {
    samples.map_values(|sample: S| Event::PointerMoved { sample })
}

impl<S> ViewerState<S> {
    /// The state after all of `events`, in order.
    pub open spec fn after_all(self, events: Seq<Event<S>>) -> ViewerState<S>
        decreases events.len(),
    {
        if events.len() == 0 {
            self
        } else {
            self.after_all(events.drop_last()).after(events.last())
        }
    }

    /// What the `index`-th of `events` asks of the caller.
    pub open spec fn action_at(self, events: Seq<Event<S>>, index: int) -> Action<S>
        recommends
            0 <= index < events.len(),
    {
        self.after_all(events.take(index)).action(events[index])
    }
}

/// A new viewer is well formed, and no event breaks that: a previous sample
/// is kept only while the pointer is captured.
pub proof fn lemma_wf_always<S>(state: ViewerState<S>, events: Seq<Event<S>>)
    requires
        state.wf(),
    ensures
        state.after_all(events).wf(),
    decreases events.len(),
{
    if events.len() > 0 {
        lemma_wf_always(state, events.drop_last());
    }
}

/// Capture gating: while the pointer is free, pointer samples change
/// nothing. After any number of them the state is what it was, and none of
/// them turned the camera.
pub proof fn lemma_free_pointer_ignored<S>(state: ViewerState<S>, samples: Seq<S>)
    requires
        !state.pointer.captured,
    ensures
        state.after_all(pointer_events(samples)) == state,
        forall|i: int|
            0 <= i < samples.len() ==> #[trigger] state.action_at(pointer_events(samples), i)
                == Action::Turn(Look::<S>::Still),
    decreases samples.len(),
{
    let events = pointer_events(samples);
    if samples.len() > 0 {
        lemma_free_pointer_ignored(state, samples.drop_last());
        assert(events.drop_last() =~= pointer_events(samples.drop_last()));
        assert forall|i: int| 0 <= i < samples.len() implies #[trigger] state.action_at(events, i)
            == Action::Turn(Look::<S>::Still) by {
            let before = samples.take(i);
            lemma_free_pointer_ignored(state, before);
            assert(events.take(i) =~= pointer_events(before));
        }
    }
}

/// Only a pointer sample turns the camera: every other event asks for
/// something else.
pub proof fn lemma_only_samples_turn<S>(state: ViewerState<S>, event: Event<S>)
    ensures
        state.action(event) is Turn <==> event is PointerMoved,
{
}

/// An absolute pointer needs two samples. The first sample after the pointer
/// was captured turns nothing and only sets the starting point; the second
/// is measured from the first.
pub proof fn lemma_first_absolute_sample_dropped<S>(state: ViewerState<S>, first: S, second: S)
    requires
        state.wf(),
        state.absolute_mouse,
        !state.pointer.captured,
    ensures
        state.action(Event::CaptureRequested) == Action::<S>::Grab,
        ({
            let captured = state.after(Event::CaptureRequested);
            let seeded = captured.after(Event::PointerMoved { sample: first });
            &&& captured.action(Event::PointerMoved { sample: first }) == Action::Turn(
                Look::<S>::Still,
            )
            &&& seeded.action(Event::PointerMoved { sample: second }) == Action::Turn(
                Look::Between { previous: first, current: second },
            )
        }),
{
}

/// Every later sample of an absolute pointer is measured from the one before
/// it, and becomes the one to measure from.
pub proof fn lemma_absolute_samples_chain<S>(state: ViewerState<S>, previous: S, current: S)
    requires
        state.absolute_mouse,
        state.pointer.captured,
        state.pointer.last_sample == Some(previous),
    ensures
        state.action(Event::PointerMoved { sample: current }) == Action::Turn(
            Look::Between { previous, current },
        ),
        state.after(Event::PointerMoved { sample: current }).pointer.last_sample == Some(current),
        state.after(Event::PointerMoved { sample: current }).pointer.captured,
{
}

/// Releasing forgets the previous sample. However the capture ended, by lost
/// focus, by request, or by the release key at a tick, the first sample of the
/// next capture turns nothing.
pub proof fn lemma_release_forgets_sample<S>(
    state: ViewerState<S>,
    release: Event<S>,
    sample: S,
)
    requires
        state.absolute_mouse,
        release is FocusLost || release is CaptureReleased || (release matches Event::Tick { now }
            && held(state.keys, state.bindings.release)),
    ensures
        !state.after(release).pointer.captured,
        state.after(release).pointer.last_sample is None,
        state.after(release).after(Event::CaptureRequested).action(
            Event::PointerMoved { sample },
        ) == Action::Turn(Look::<S>::Still),
{
}

/// A relative pointer turns the camera by each sample as it comes, while
/// captured, and keeps no sample.
pub proof fn lemma_relative_sample_is_movement<S>(state: ViewerState<S>, sample: S)
    requires
        !state.absolute_mouse,
        state.pointer.captured,
    ensures
        state.action(Event::PointerMoved { sample }) == Action::Turn(Look::By { delta: sample }),
        state.after(Event::PointerMoved { sample }) == state,
{
}

/// Every key answers for itself. After a key event, the key `other` is held
/// exactly if it is the key of the event and went down, or is another key and
/// was held before. So the movement flags of a frame do not depend on each
/// other: keys held together give their steps together.
pub proof fn lemma_keys_independent<S>(
    state: ViewerState<S>,
    scancode: u32,
    pressed: bool,
    other: u32,
)
    ensures
        held(state.after(Event::KeyChanged { scancode, pressed }).keys, other) == if other
            == scancode {
            pressed
        } else {
            held(state.keys, other)
        },
{
}

/// Keys do not touch the pointer or the clock, and the pointer does not
/// touch the keys or the clock.
pub proof fn lemma_events_keep_to_their_part<S>(state: ViewerState<S>, event: Event<S>)
    ensures
        state.after(event).absolute_mouse == state.absolute_mouse,
        state.after(event).bindings == state.bindings,
        !(event is KeyChanged) ==> state.after(event).keys == state.keys,
        !(event is Tick) ==> state.after(event).clock == state.clock,
        event is KeyChanged ==> state.after(event).pointer == state.pointer,
{
}

/// A tick that reports starts a new interval at its own time with no frame in
/// it; a tick that does not report adds its frame to the interval and leaves
/// the interval's start alone. Either way the next frame is measured from
/// this tick.
pub proof fn lemma_report_restarts_interval(clock: ClockState, now: u64)
    ensures
        clock_after(clock, now).last_frame == now,
        clock_tick(clock, now).report is Some <==> now > clock.last_second && now
            - clock.last_second > REPORT_INTERVAL,
        clock_tick(clock, now).report is Some ==> clock_after(clock, now).last_second == now
            && clock_after(clock, now).samples.len() == 0,
        clock_tick(clock, now).report is None ==> clock_after(clock, now).last_second
            == clock.last_second && clock_after(clock, now).samples.len() == clock.samples.len()
            + 1,
{
}

/// One measured interval serves both uses. The duration that goes into the
/// histogram is the whole microseconds of the duration that the caller moves
/// the camera by, and it is accepted unless the frame took longer than the
/// histogram's limit.
pub proof fn lemma_one_measured_interval(clock: ClockState, now: u64)
    ensures
        frame_micros(clock, now) == clock_tick(clock, now).elapsed_nanos / 1000,
        clock_tick(clock, now).elapsed_nanos == if now >= clock.last_frame {
            now - clock.last_frame
        } else {
            0
        },
        clock_tick(clock, now).accepted <==> clock_tick(clock, now).elapsed_nanos < (
        HISTOGRAM_LIMIT + 1) * 1000,
        clock_tick(clock, now).report is None ==> clock_after(clock, now).samples.count(
            frame_micros(clock, now),
        ) == clock.samples.count(frame_micros(clock, now)) + 1,
{
}

} // verus!
