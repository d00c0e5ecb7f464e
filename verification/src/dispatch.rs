//! Routing of one event to one handler method.

use crate::event::{EventEnvelope, Payload};
use crate::registry::{binding_of, bindings_after_register, register_answer, Registry};
use crate::toolkit::raw_id;
use crate::window::WindowHandler;
use std::collections::VecDeque;
use std::rc::Rc;
use vstd::prelude::*;
use winit::window::WindowId;

verus! {

/// Whether `outcome` is what the one method of `handler` that corresponds to
/// `payload` returned when it was called with exactly the fields of `payload`.
pub open spec fn handled_by<H: WindowHandler + ?Sized>(
    handler: &H,
    payload: Payload,
    outcome: Result<(), H::Error>,
) -> bool {
    match payload {
        Payload::ActivationTokenDone { serial, token } => call_ensures(
            H::on_activation_token_done,
            (handler, serial, token),
            outcome,
        ),
        Payload::Resized(new) => call_ensures(H::on_resized, (handler, new), outcome),
        Payload::Moved(new) => call_ensures(H::on_moved, (handler, new), outcome),
        Payload::CloseRequested => call_ensures(H::on_close_requested, (handler,), outcome),
        Payload::DroppedFile(path) => call_ensures(H::on_dropped_file, (handler, path), outcome),
        Payload::HoveredFile(path) => call_ensures(H::on_hovered_file, (handler, path), outcome),
        Payload::HoveredFileCancelled => call_ensures(
            H::on_hovered_file_cancelled,
            (handler,),
            outcome,
        ),
        Payload::Focused(gained) => call_ensures(H::on_focused, (handler, gained), outcome),
        Payload::KeyboardInput { device_id, event, is_synthetic } => call_ensures(
            H::on_keyboard_input,
            (handler, device_id, event, is_synthetic),
            outcome,
        ),
        Payload::ModifiersChanged(m) => call_ensures(
            H::on_modifiers_changed,
            (handler, m),
            outcome,
        ),
        Payload::Ime(ev) => call_ensures(H::on_ime, (handler, ev), outcome),
        Payload::CursorMoved { device_id, position } => call_ensures(
            H::on_cursor_moved,
            (handler, device_id, position),
            outcome,
        ),
        Payload::CursorEntered { device_id } => call_ensures(
            H::on_cursor_entered,
            (handler, device_id),
            outcome,
        ),
        Payload::CursorLeft { device_id } => call_ensures(
            H::on_cursor_left,
            (handler, device_id),
            outcome,
        ),
        Payload::MouseWheel { device_id, delta, phase } => call_ensures(
            H::on_mouse_wheel,
            (handler, device_id, delta, phase),
            outcome,
        ),
        Payload::MouseInput { device_id, state, button } => call_ensures(
            H::on_mouse_input,
            (handler, device_id, state, button),
            outcome,
        ),
        Payload::PinchGesture { device_id, delta, phase } => call_ensures(
            H::on_pinch_gesture,
            (handler, device_id, delta, phase),
            outcome,
        ),
        Payload::PanGesture { device_id, delta, phase } => call_ensures(
            H::on_pan_gesture,
            (handler, device_id, delta, phase),
            outcome,
        ),
        Payload::DoubleTapGesture { device_id } => call_ensures(
            H::on_double_tap_gesture,
            (handler, device_id),
            outcome,
        ),
        Payload::RotationGesture { device_id, delta, phase } => call_ensures(
            H::on_rotation_gesture,
            (handler, device_id, delta, phase),
            outcome,
        ),
        Payload::TouchpadPressure { device_id, pressure, stage } => call_ensures(
            H::on_touchpad_pressure,
            (handler, device_id, pressure, stage),
            outcome,
        ),
        Payload::AxisMotion { device_id, axis, value } => call_ensures(
            H::on_axis_motion,
            (handler, device_id, axis, value),
            outcome,
        ),
        Payload::Touch(data) => call_ensures(H::on_touch, (handler, data), outcome),
        Payload::ScaleFactorChanged { scale_factor, inner_size_writer } => call_ensures(
            H::on_scale_factor_changed,
            (handler, scale_factor, inner_size_writer),
            outcome,
        ),
        Payload::ThemeChanged(new) => call_ensures(H::on_theme_changed, (handler, new), outcome),
        Payload::Occluded(new) => call_ensures(H::on_occluded, (handler, new), outcome),
        Payload::RedrawRequested => call_ensures(H::on_redraw_requested, (handler,), outcome),
    }
}

/// Calls the method of `handler` that corresponds to `payload`, hands it the
/// fields of `payload`, and returns what it returned.
pub fn deliver<H: WindowHandler + ?Sized>(
    handler: &H,
    payload: Payload,
) -> (outcome: Result<(), H::Error>)
    ensures
        handled_by(handler, payload, outcome),
{
    match payload {
        Payload::ActivationTokenDone { serial, token } => {
            handler.on_activation_token_done(serial, token)
        },
        Payload::Resized(new) => handler.on_resized(new),
        Payload::Moved(new) => handler.on_moved(new),
        Payload::CloseRequested => handler.on_close_requested(),
        Payload::DroppedFile(path) => handler.on_dropped_file(path),
        Payload::HoveredFile(path) => handler.on_hovered_file(path),
        Payload::HoveredFileCancelled => handler.on_hovered_file_cancelled(),
        Payload::Focused(gained) => handler.on_focused(gained),
        Payload::KeyboardInput { device_id, event, is_synthetic } => {
            handler.on_keyboard_input(device_id, event, is_synthetic)
        },
        Payload::ModifiersChanged(m) => handler.on_modifiers_changed(m),
        Payload::Ime(ev) => handler.on_ime(ev),
        Payload::CursorMoved { device_id, position } => {
            handler.on_cursor_moved(device_id, position)
        },
        Payload::CursorEntered { device_id } => handler.on_cursor_entered(device_id),
        Payload::CursorLeft { device_id } => handler.on_cursor_left(device_id),
        Payload::MouseWheel { device_id, delta, phase } => {
            handler.on_mouse_wheel(device_id, delta, phase)
        },
        Payload::MouseInput { device_id, state, button } => {
            handler.on_mouse_input(device_id, state, button)
        },
        Payload::PinchGesture { device_id, delta, phase } => {
            handler.on_pinch_gesture(device_id, delta, phase)
        },
        Payload::PanGesture { device_id, delta, phase } => {
            handler.on_pan_gesture(device_id, delta, phase)
        },
        Payload::DoubleTapGesture { device_id } => handler.on_double_tap_gesture(device_id),
        Payload::RotationGesture { device_id, delta, phase } => {
            handler.on_rotation_gesture(device_id, delta, phase)
        },
        Payload::TouchpadPressure { device_id, pressure, stage } => {
            handler.on_touchpad_pressure(device_id, pressure, stage)
        },
        Payload::AxisMotion { device_id, axis, value } => {
            handler.on_axis_motion(device_id, axis, value)
        },
        Payload::Touch(data) => handler.on_touch(data),
        Payload::ScaleFactorChanged { scale_factor, inner_size_writer } => {
            handler.on_scale_factor_changed(scale_factor, inner_size_writer)
        },
        Payload::ThemeChanged(new) => handler.on_theme_changed(new),
        Payload::Occluded(new) => handler.on_occluded(new),
        Payload::RedrawRequested => handler.on_redraw_requested(),
    }
}

/// The handler that `envelope` goes to: the one bound to its target, and no
/// other.
pub open spec fn route<H: ?Sized>(bindings: Map<u64, Rc<H>>, envelope: EventEnvelope) -> Option<
    Rc<H>,
> {
    binding_of(bindings, raw_id(envelope.target))
}

/// Whether `outcome` is what dispatching `envelope` against `bindings` gives:
/// the answer of the target's handler, or plain success where the target has
/// no handler and the event is dropped.
pub open spec fn dispatched<H: WindowHandler + ?Sized>(
    bindings: Map<u64, Rc<H>>,
    envelope: EventEnvelope,
    outcome: Result<(), H::Error>,
) -> bool {
    match route(bindings, envelope) {
        Some(handler) => handled_by(&*handler, envelope.payload, outcome),
        None => outcome is Ok,
    }
}

/// Routes one event: looks up the handler of its target and calls the method
/// that corresponds to the event. An event for a window without a handler is
/// dropped, which is no error.
pub fn dispatch<H: WindowHandler + ?Sized>(
    registry: &Registry<H>,
    envelope: EventEnvelope,
) -> (outcome: Result<(), H::Error>)
    ensures
        dispatched(registry@, envelope, outcome),
{
    match registry.lookup(envelope.target) {
        Some(handler) => deliver(&*handler, envelope.payload),
        None => Ok(()),
    }
}

/// How far a batch got: how many of its events were taken, in arrival
/// order, and how the last of them ended.
pub struct BatchReport<E> {
    /// The number of events that were dispatched or dropped.
    pub taken: usize,
    /// Success, or the error of the handler call that stopped the batch.
    pub outcome: Result<(), E>,
}

/// Whether `report` tells of a run through `events`, first to last, that
/// stopped at the first handler error: every event before the last one taken
/// ended in success, a failing batch ends with the event whose handler gave
/// the reported error, and a successful one has taken every event.
pub open spec fn batch_ran<H: WindowHandler + ?Sized>(
    bindings: Map<u64, Rc<H>>,
    events: Seq<EventEnvelope>,
    report: BatchReport<H::Error>,
) -> bool {
    &&& report.taken <= events.len()
    &&& match report.outcome {
        Ok(_) => {
            &&& report.taken == events.len()
            &&& forall|i: int|
                0 <= i < report.taken ==> dispatched(bindings, #[trigger] events[i], Ok(()))
        },
        Err(error) => {
            &&& report.taken >= 1
            &&& forall|i: int|
                0 <= i < report.taken - 1 ==> dispatched(bindings, #[trigger] events[i], Ok(()))
            &&& dispatched(bindings, events[report.taken - 1], Err(error))
        },
    }
}

/// Dispatches the queued events strictly in arrival order, one at a time,
/// taking each from the front of the queue. The first handler error ends the
/// batch: that error is the outcome, and the events behind the failing one
/// are not dispatched but stay in the queue.
pub fn dispatch_batch<H: WindowHandler + ?Sized>(
    registry: &Registry<H>,
    queue: &mut VecDeque<EventEnvelope>,
) -> (report: BatchReport<H::Error>)
    ensures
        batch_ran(registry@, old(queue)@, report),
        final(queue)@ == old(queue)@.skip(report.taken as int),
{
    let total = queue.len();
    let mut taken: usize = 0;
    loop
        invariant
            total == old(queue)@.len(),
            taken <= total,
            queue@ == old(queue)@.skip(taken as int),
            forall|i: int|
                0 <= i < taken ==> dispatched(registry@, #[trigger] old(queue)@[i], Ok(())),
        decreases total - taken,
    {
        match queue.pop_front() {
            None => {
                return BatchReport { taken, outcome: Ok(()) };
            },
            Some(envelope) => {
                taken = taken + 1;
                match dispatch(registry, envelope) {
                    Ok(done) => {
                        assert(done == ());
                    },
                    Err(error) => {
                        return BatchReport { taken, outcome: Err(error) };
                    },
                }
            },
        }
    }
}

/// Routing is by identity. Where three windows with different identifiers
/// are registered, each with its own handler, an event addressed to the
/// second goes to the handler of the second and to no other: every outcome of
/// its dispatch is an answer of the one method of that handler which
/// corresponds to the event, called with exactly the fields of the event.
pub proof fn lemma_routing<H: WindowHandler + ?Sized>(
    before: Map<u64, Rc<H>>,
    a: WindowId,
    b: WindowId,
    c: WindowId,
    handler_a: Rc<H>,
    handler_b: Rc<H>,
    handler_c: Rc<H>,
    envelope: EventEnvelope,
    outcome: Result<(), H::Error>,
)
    requires
        raw_id(a) != raw_id(b),
        raw_id(b) != raw_id(c),
        raw_id(a) != raw_id(c),
        register_answer(before, raw_id(a)) is Ok,
        register_answer(before, raw_id(b)) is Ok,
        register_answer(before, raw_id(c)) is Ok,
        envelope.target == b,
    ensures
        ({
            let with_a = bindings_after_register(before, raw_id(a), handler_a);
            let with_b = bindings_after_register(with_a, raw_id(b), handler_b);
            let bindings = bindings_after_register(with_b, raw_id(c), handler_c);
            &&& route(bindings, envelope) == Some(handler_b)
            &&& dispatched(bindings, envelope, outcome) == handled_by(
                &*handler_b,
                envelope.payload,
                outcome,
            )
        }),
{
}

/// An event addressed to an identifier without a binding reaches no handler
/// and is no error: its dispatch can only end in success.
pub proof fn lemma_unregistered_target<H: WindowHandler + ?Sized>(
    bindings: Map<u64, Rc<H>>,
    envelope: EventEnvelope,
    outcome: Result<(), H::Error>,
)
    requires
        binding_of(bindings, raw_id(envelope.target)) is None,
    ensures
        route(bindings, envelope) is None,
        dispatched(bindings, envelope, outcome) == (outcome is Ok),
{
}

/// An event without a handler never stops a batch. A batch that fails has
/// stopped at an event whose target is registered, and a batch in which no
/// event has a registered target is taken to its end with success.
pub proof fn lemma_dropped_events_do_not_stop<H: WindowHandler + ?Sized>(
    bindings: Map<u64, Rc<H>>,
    events: Seq<EventEnvelope>,
    report: BatchReport<H::Error>,
)
    requires
        batch_ran(bindings, events, report),
    ensures
        report.outcome is Err ==> route(bindings, events[report.taken - 1]) is Some,
        (forall|i: int| 0 <= i < events.len() ==> route(bindings, #[trigger] events[i]) is None)
            ==> report.outcome is Ok && report.taken == events.len(),
{
}

} // verus!
