use std::cell::{Cell, RefCell};
use std::collections::VecDeque;
use std::path::PathBuf;
use std::rc::Rc;
use wae::{
    deliver, dispatch, dispatch_batch, Double, EventEnvelope, Payload, Registry, Single,
    WindowHandler, WinitWindow,
};
use winit::dpi::{PhysicalPosition, PhysicalSize};
use winit::event::{
    AxisId, DeviceId, ElementState, Force, Ime, InnerSizeWriter, KeyEvent, Modifiers, MouseButton,
    MouseScrollDelta, Touch, TouchPhase,
};
use winit::event_loop::AsyncRequestSerial;
use winit::keyboard::ModifiersState;
use winit::window::{ActivationToken, Theme, WindowId};

/// A handler that writes down every call it gets, and fails on demand.
struct Recorder {
    id: WindowId,
    calls: RefCell<Vec<String>>,
    fail_on_resize: Cell<Option<u32>>,
}

impl Recorder {
    fn new(raw: u64) -> Rc<Recorder> {
        Rc::new(Recorder {
            id: WindowId::from(raw),
            calls: RefCell::new(Vec::new()),
            fail_on_resize: Cell::new(None),
        })
    }

    fn failing(raw: u64, code: u32) -> Rc<Recorder> {
        let recorder = Recorder::new(raw);
        recorder.fail_on_resize.set(Some(code));
        recorder
    }

    fn note(&self, call: String) -> Result<(), u32> {
        self.calls.borrow_mut().push(call);
        Ok(())
    }

    fn calls(&self) -> Vec<String> {
        self.calls.borrow().clone()
    }
}

impl WinitWindow for Recorder {
    fn id(&self) -> WindowId {
        self.id
    }
}

impl WindowHandler for Recorder {
    type Error = u32;

    fn on_activation_token_done(
        &self,
        serial: AsyncRequestSerial,
        token: ActivationToken,
    ) -> Result<(), u32> {
        self.note(format!("activation_token_done {:?} {:?}", serial, token))
    }

    fn on_resized(&self, new: PhysicalSize<u32>) -> Result<(), u32> {
        self.note(format!("resized {} {}", new.width, new.height))?;
        match self.fail_on_resize.get() {
            Some(code) => Err(code),
            None => Ok(()),
        }
    }

    fn on_moved(&self, new: PhysicalPosition<i32>) -> Result<(), u32> {
        self.note(format!("moved {} {}", new.x, new.y))
    }

    fn on_close_requested(&self) -> Result<(), u32> {
        self.note(String::from("close_requested"))
    }

    fn on_dropped_file(&self, path: PathBuf) -> Result<(), u32> {
        self.note(format!("dropped_file {}", path.display()))
    }

    fn on_hovered_file(&self, path: PathBuf) -> Result<(), u32> {
        self.note(format!("hovered_file {}", path.display()))
    }

    fn on_hovered_file_cancelled(&self) -> Result<(), u32> {
        self.note(String::from("hovered_file_cancelled"))
    }

    fn on_focused(&self, gained: bool) -> Result<(), u32> {
        self.note(format!("focused {}", gained))
    }

    fn on_keyboard_input(
        &self,
        dev: DeviceId,
        event: KeyEvent,
        is_synthetic: bool,
    ) -> Result<(), u32> {
        self.note(format!("keyboard_input {:?} {:?} {}", dev, event, is_synthetic))
    }

    fn on_modifiers_changed(&self, m: Modifiers) -> Result<(), u32> {
        self.note(format!("modifiers_changed {:?}", m.state()))
    }

    fn on_ime(&self, ev: Ime) -> Result<(), u32> {
        self.note(format!("ime {:?}", ev))
    }

    fn on_cursor_moved(&self, dev: DeviceId, pos: PhysicalPosition<Double>) -> Result<(), u32> {
        let x = f64::from_bits(pos.x.to_bits());
        let y = f64::from_bits(pos.y.to_bits());
        self.note(format!("cursor_moved {} {} {}", dev == DeviceId::dummy(), x, y))
    }

    fn on_cursor_entered(&self, dev: DeviceId) -> Result<(), u32> {
        self.note(format!("cursor_entered {}", dev == DeviceId::dummy()))
    }

    fn on_cursor_left(&self, dev: DeviceId) -> Result<(), u32> {
        self.note(format!("cursor_left {}", dev == DeviceId::dummy()))
    }

    fn on_mouse_wheel(
        &self,
        dev: DeviceId,
        delta: MouseScrollDelta,
        phase: TouchPhase,
    ) -> Result<(), u32> {
        self.note(format!("mouse_wheel {} {:?} {:?}", dev == DeviceId::dummy(), delta, phase))
    }

    fn on_mouse_input(
        &self,
        dev: DeviceId,
        st: ElementState,
        btn: MouseButton,
    ) -> Result<(), u32> {
        self.note(format!("mouse_input {} {:?} {:?}", dev == DeviceId::dummy(), st, btn))
    }

    fn on_pinch_gesture(
        &self,
        dev: DeviceId,
        delta: Double,
        phase: TouchPhase,
    ) -> Result<(), u32> {
        let delta = f64::from_bits(delta.to_bits());
        self.note(format!("pinch_gesture {} {} {:?}", dev == DeviceId::dummy(), delta, phase))
    }

    fn on_pan_gesture(
        &self,
        dev: DeviceId,
        delta: PhysicalPosition<Single>,
        phase: TouchPhase,
    ) -> Result<(), u32> {
        let x = f32::from_bits(delta.x.to_bits());
        let y = f32::from_bits(delta.y.to_bits());
        self.note(format!("pan_gesture {} {} {} {:?}", dev == DeviceId::dummy(), x, y, phase))
    }

    fn on_double_tap_gesture(&self, dev: DeviceId) -> Result<(), u32> {
        self.note(format!("double_tap_gesture {}", dev == DeviceId::dummy()))
    }

    fn on_rotation_gesture(
        &self,
        dev: DeviceId,
        delta: Single,
        phase: TouchPhase,
    ) -> Result<(), u32> {
        let delta = f32::from_bits(delta.to_bits());
        self.note(format!("rotation_gesture {} {} {:?}", dev == DeviceId::dummy(), delta, phase))
    }

    fn on_touchpad_pressure(&self, dev: DeviceId, pressure: Single, stage: i64) -> Result<(), u32> {
        let pressure = f32::from_bits(pressure.to_bits());
        self.note(format!("touchpad_pressure {} {} {}", dev == DeviceId::dummy(), pressure, stage))
    }

    fn on_axis_motion(&self, dev: DeviceId, axis: AxisId, value: Double) -> Result<(), u32> {
        let value = f64::from_bits(value.to_bits());
        self.note(format!("axis_motion {} {} {}", dev == DeviceId::dummy(), axis, value))
    }

    fn on_touch(&self, data: Touch) -> Result<(), u32> {
        self.note(format!(
            "touch {:?} {} {} {:?} {}",
            data.phase, data.location.x, data.location.y, data.force, data.id
        ))
    }

    fn on_scale_factor_changed(&self, new: Double, sw: InnerSizeWriter) -> Result<(), u32> {
        let new = f64::from_bits(new.to_bits());
        self.note(format!("scale_factor_changed {} {:?}", new, sw))
    }

    fn on_theme_changed(&self, new: Theme) -> Result<(), u32> {
        self.note(format!("theme_changed {:?}", new))
    }

    fn on_occluded(&self, new: bool) -> Result<(), u32> {
        self.note(format!("occluded {}", new))
    }

    fn on_redraw_requested(&self) -> Result<(), u32> {
        self.note(String::from("redraw_requested"))
    }
}

/// A handler that overrides nothing.
struct Silent {
    id: WindowId,
}

impl WinitWindow for Silent {
    fn id(&self) -> WindowId {
        self.id
    }
}

impl WindowHandler for Silent {
    type Error = String;
}

fn envelope(raw: u64, payload: Payload) -> EventEnvelope {
    EventEnvelope { target: WindowId::from(raw), payload }
}

fn resized(raw: u64, width: u32, height: u32) -> EventEnvelope {
    envelope(raw, Payload::Resized(PhysicalSize::new(width, height)))
}

fn double(value: f64) -> Double {
    Double::from_bits(value.to_bits())
}

fn single(value: f32) -> Single {
    Single::from_bits(value.to_bits())
}

fn delivered(payload: Payload) -> Vec<String> {
    let recorder = Recorder::new(1);
    assert_eq!(deliver(&*recorder, payload), Ok(()));
    recorder.calls()
}

fn three_windows() -> (Registry<Recorder>, Rc<Recorder>, Rc<Recorder>, Rc<Recorder>) {
    let mut registry = Registry::new();
    let a = Recorder::new(1);
    let b = Recorder::new(2);
    let c = Recorder::new(3);
    assert_eq!(registry.register(a.clone()), Ok(()));
    assert_eq!(registry.register(b.clone()), Ok(()));
    assert_eq!(registry.register(c.clone()), Ok(()));
    (registry, a, b, c)
}

#[test]
fn scalars_carry_their_bits() {
    assert_eq!(Double::from_bits(0x4009_21fb_5444_2d18).to_bits(), 0x4009_21fb_5444_2d18);
    assert_eq!(Single::from_bits(0x4049_0fdb).to_bits(), 0x4049_0fdb);
    assert_eq!(f64::from_bits(double(-0.5).to_bits()), -0.5);
    assert_eq!(f32::from_bits(single(1.25).to_bits()), 1.25);
    assert_eq!(double(1.5), double(1.5));
    assert_ne!(double(1.5), double(2.5));
    assert_ne!(single(0.0), single(-0.0));
    assert!(f64::from_bits(double(f64::NAN).to_bits()).is_nan());
}

#[test]
fn deliver_resized() {
    assert_eq!(delivered(Payload::Resized(PhysicalSize::new(800, 600))), vec!["resized 800 600"]);
}

#[test]
fn deliver_moved() {
    assert_eq!(delivered(Payload::Moved(PhysicalPosition::new(-5, 17))), vec!["moved -5 17"]);
}

#[test]
fn deliver_close_requested() {
    assert_eq!(delivered(Payload::CloseRequested), vec!["close_requested"]);
}

#[test]
fn deliver_dropped_file() {
    assert_eq!(
        delivered(Payload::DroppedFile(PathBuf::from("/tmp/a.txt"))),
        vec!["dropped_file /tmp/a.txt"]
    );
}

#[test]
fn deliver_hovered_file() {
    assert_eq!(
        delivered(Payload::HoveredFile(PathBuf::from("/tmp/b.txt"))),
        vec!["hovered_file /tmp/b.txt"]
    );
}

#[test]
fn deliver_hovered_file_cancelled() {
    assert_eq!(delivered(Payload::HoveredFileCancelled), vec!["hovered_file_cancelled"]);
}

#[test]
fn deliver_focused() {
    assert_eq!(delivered(Payload::Focused(true)), vec!["focused true"]);
    assert_eq!(delivered(Payload::Focused(false)), vec!["focused false"]);
}

#[test]
fn deliver_modifiers_changed() {
    let shift = Modifiers::from(ModifiersState::SHIFT);
    assert_eq!(
        delivered(Payload::ModifiersChanged(shift)),
        vec![format!("modifiers_changed {:?}", ModifiersState::SHIFT)]
    );
}

#[test]
fn deliver_ime() {
    assert_eq!(
        delivered(Payload::Ime(Ime::Commit(String::from("x")))),
        vec![format!("ime {:?}", Ime::Commit(String::from("x")))]
    );
}

#[test]
fn deliver_cursor_moved() {
    let position = PhysicalPosition::new(double(10.5), double(-3.25));
    assert_eq!(
        delivered(Payload::CursorMoved { device_id: DeviceId::dummy(), position }),
        vec!["cursor_moved true 10.5 -3.25"]
    );
}

#[test]
fn deliver_cursor_entered_and_left() {
    assert_eq!(
        delivered(Payload::CursorEntered { device_id: DeviceId::dummy() }),
        vec!["cursor_entered true"]
    );
    assert_eq!(
        delivered(Payload::CursorLeft { device_id: DeviceId::dummy() }),
        vec!["cursor_left true"]
    );
}

#[test]
fn deliver_mouse_wheel() {
    let delta = MouseScrollDelta::LineDelta(1.0, -2.0);
    assert_eq!(
        delivered(Payload::MouseWheel {
            device_id: DeviceId::dummy(),
            delta,
            phase: TouchPhase::Moved
        }),
        vec![format!("mouse_wheel true {:?} Moved", delta)]
    );
}

#[test]
fn deliver_mouse_input() {
    assert_eq!(
        delivered(Payload::MouseInput {
            device_id: DeviceId::dummy(),
            state: ElementState::Pressed,
            button: MouseButton::Right
        }),
        vec!["mouse_input true Pressed Right"]
    );
}

#[test]
fn deliver_pinch_gesture() {
    assert_eq!(
        delivered(Payload::PinchGesture {
            device_id: DeviceId::dummy(),
            delta: double(0.125),
            phase: TouchPhase::Started
        }),
        vec!["pinch_gesture true 0.125 Started"]
    );
}

#[test]
fn deliver_pan_gesture() {
    assert_eq!(
        delivered(Payload::PanGesture {
            device_id: DeviceId::dummy(),
            delta: PhysicalPosition::new(single(1.5), single(-2.5)),
            phase: TouchPhase::Ended
        }),
        vec!["pan_gesture true 1.5 -2.5 Ended"]
    );
}

#[test]
fn deliver_double_tap_gesture() {
    assert_eq!(
        delivered(Payload::DoubleTapGesture { device_id: DeviceId::dummy() }),
        vec!["double_tap_gesture true"]
    );
}

#[test]
fn deliver_rotation_gesture() {
    assert_eq!(
        delivered(Payload::RotationGesture {
            device_id: DeviceId::dummy(),
            delta: single(45.5),
            phase: TouchPhase::Cancelled
        }),
        vec!["rotation_gesture true 45.5 Cancelled"]
    );
}

#[test]
fn deliver_touchpad_pressure() {
    assert_eq!(
        delivered(Payload::TouchpadPressure {
            device_id: DeviceId::dummy(),
            pressure: single(0.75),
            stage: 2
        }),
        vec!["touchpad_pressure true 0.75 2"]
    );
}

#[test]
fn deliver_axis_motion() {
    assert_eq!(
        delivered(Payload::AxisMotion {
            device_id: DeviceId::dummy(),
            axis: 3,
            value: double(-1.0)
        }),
        vec!["axis_motion true 3 -1"]
    );
}

#[test]
fn deliver_touch() {
    let touch = Touch {
        device_id: DeviceId::dummy(),
        phase: TouchPhase::Started,
        location: PhysicalPosition::new(4.0, 5.5),
        force: Some(Force::Normalized(0.5)),
        id: 42,
    };
    assert_eq!(
        delivered(Payload::Touch(touch)),
        vec![format!("touch Started 4 5.5 {:?} 42", Some(Force::Normalized(0.5)))]
    );
}

#[test]
fn deliver_theme_changed() {
    assert_eq!(delivered(Payload::ThemeChanged(Theme::Dark)), vec!["theme_changed Dark"]);
}

#[test]
fn deliver_occluded() {
    assert_eq!(delivered(Payload::Occluded(true)), vec!["occluded true"]);
}

#[test]
fn deliver_redraw_requested() {
    assert_eq!(delivered(Payload::RedrawRequested), vec!["redraw_requested"]);
}

#[test]
fn deliver_returns_the_error_of_the_handler() {
    let recorder = Recorder::failing(1, 77);
    assert_eq!(deliver(&*recorder, Payload::Resized(PhysicalSize::new(1, 2))), Err(77));
    assert_eq!(recorder.calls(), vec!["resized 1 2"]);
    assert_eq!(deliver(&*recorder, Payload::RedrawRequested), Ok(()));
}

#[test]
fn methods_that_are_not_overridden_succeed() {
    let silent = Silent { id: WindowId::from(4u64) };
    assert_eq!(silent.id(), WindowId::from(4u64));
    assert_eq!(silent.on_resized(PhysicalSize::new(1, 2)), Ok(()));
    assert_eq!(silent.on_moved(PhysicalPosition::new(1, 2)), Ok(()));
    assert_eq!(silent.on_close_requested(), Ok(()));
    assert_eq!(silent.on_dropped_file(PathBuf::from("a")), Ok(()));
    assert_eq!(silent.on_hovered_file(PathBuf::from("a")), Ok(()));
    assert_eq!(silent.on_hovered_file_cancelled(), Ok(()));
    assert_eq!(silent.on_focused(true), Ok(()));
    assert_eq!(silent.on_modifiers_changed(Modifiers::default()), Ok(()));
    assert_eq!(silent.on_ime(Ime::Enabled), Ok(()));
    assert_eq!(
        silent.on_cursor_moved(DeviceId::dummy(), PhysicalPosition::new(double(1.0), double(2.0))),
        Ok(())
    );
    assert_eq!(silent.on_cursor_entered(DeviceId::dummy()), Ok(()));
    assert_eq!(silent.on_cursor_left(DeviceId::dummy()), Ok(()));
    assert_eq!(
        silent.on_mouse_wheel(
            DeviceId::dummy(),
            MouseScrollDelta::LineDelta(0.0, 1.0),
            TouchPhase::Moved
        ),
        Ok(())
    );
    assert_eq!(
        silent.on_mouse_input(DeviceId::dummy(), ElementState::Released, MouseButton::Left),
        Ok(())
    );
    assert_eq!(
        silent.on_pinch_gesture(DeviceId::dummy(), double(1.0), TouchPhase::Moved),
        Ok(())
    );
    assert_eq!(
        silent.on_pan_gesture(
            DeviceId::dummy(),
            PhysicalPosition::new(single(1.0), single(2.0)),
            TouchPhase::Moved
        ),
        Ok(())
    );
    assert_eq!(silent.on_double_tap_gesture(DeviceId::dummy()), Ok(()));
    assert_eq!(
        silent.on_rotation_gesture(DeviceId::dummy(), single(1.0), TouchPhase::Moved),
        Ok(())
    );
    assert_eq!(silent.on_touchpad_pressure(DeviceId::dummy(), single(1.0), 1), Ok(()));
    assert_eq!(silent.on_axis_motion(DeviceId::dummy(), 0, double(1.0)), Ok(()));
    assert_eq!(silent.on_theme_changed(Theme::Light), Ok(()));
    assert_eq!(silent.on_occluded(false), Ok(()));
    assert_eq!(silent.on_redraw_requested(), Ok(()));
}

#[test]
fn deliver_to_a_handler_without_overrides_succeeds() {
    let silent = Silent { id: WindowId::from(4u64) };
    assert_eq!(deliver(&silent, Payload::CloseRequested), Ok(()));
    assert_eq!(deliver(&silent, Payload::Resized(PhysicalSize::new(3, 4))), Ok(()));
    assert_eq!(deliver(&silent, Payload::Occluded(true)), Ok(()));
}

#[test]
fn routing_reaches_only_the_target() {
    let (registry, a, b, c) = three_windows();
    assert_eq!(dispatch(&registry, resized(2, 640, 480)), Ok(()));
    assert!(a.calls().is_empty());
    assert_eq!(b.calls(), vec!["resized 640 480"]);
    assert!(c.calls().is_empty());
}

#[test]
fn routing_follows_the_target_of_each_event() {
    let (registry, a, b, c) = three_windows();
    assert_eq!(dispatch(&registry, envelope(3, Payload::CloseRequested)), Ok(()));
    assert_eq!(dispatch(&registry, envelope(1, Payload::Focused(true))), Ok(()));
    assert_eq!(dispatch(&registry, envelope(3, Payload::RedrawRequested)), Ok(()));
    assert_eq!(a.calls(), vec!["focused true"]);
    assert!(b.calls().is_empty());
    assert_eq!(c.calls(), vec!["close_requested", "redraw_requested"]);
}

#[test]
fn event_for_an_unregistered_window_is_dropped() {
    let (registry, a, b, c) = three_windows();
    assert_eq!(dispatch(&registry, resized(9, 1, 1)), Ok(()));
    assert!(a.calls().is_empty());
    assert!(b.calls().is_empty());
    assert!(c.calls().is_empty());
}

#[test]
fn event_after_unregistering_is_dropped() {
    let (mut registry, a, b, _c) = three_windows();
    registry.unregister(WindowId::from(2u64));
    assert_eq!(dispatch(&registry, resized(2, 1, 1)), Ok(()));
    assert_eq!(dispatch(&registry, resized(1, 2, 2)), Ok(()));
    assert!(b.calls().is_empty());
    assert_eq!(a.calls(), vec!["resized 2 2"]);
}

#[test]
fn dispatch_in_an_empty_registry_succeeds() {
    let registry: Registry<Recorder> = Registry::new();
    assert_eq!(dispatch(&registry, envelope(1, Payload::CloseRequested)), Ok(()));
}

#[test]
fn dispatch_returns_the_error_of_the_handler() {
    let mut registry = Registry::new();
    let failing = Recorder::failing(5, 13);
    assert_eq!(registry.register(failing.clone()), Ok(()));
    assert_eq!(dispatch(&registry, resized(5, 3, 4)), Err(13));
    assert_eq!(failing.calls(), vec!["resized 3 4"]);
}

#[test]
fn dispatch_goes_through_unsized_handlers() {
    let mut registry: Registry<dyn WindowHandler<Error = u32>> = Registry::new();
    let a = Recorder::new(1);
    let b = Recorder::failing(2, 5);
    assert_eq!(registry.register(a.clone()), Ok(()));
    assert_eq!(registry.register(b.clone()), Ok(()));
    assert_eq!(dispatch(&registry, resized(1, 1, 1)), Ok(()));
    assert_eq!(dispatch(&registry, resized(2, 2, 2)), Err(5));
    assert_eq!(a.calls(), vec!["resized 1 1"]);
    assert_eq!(b.calls(), vec!["resized 2 2"]);
}

#[test]
fn batch_is_dispatched_in_arrival_order() {
    let (registry, a, b, c) = three_windows();
    let mut queue = VecDeque::new();
    queue.push_back(resized(1, 1, 1));
    queue.push_back(envelope(2, Payload::Focused(true)));
    queue.push_back(resized(1, 2, 2));
    queue.push_back(envelope(3, Payload::CloseRequested));
    queue.push_back(envelope(1, Payload::RedrawRequested));
    let report = dispatch_batch(&registry, &mut queue);
    assert_eq!(report.taken, 5);
    assert_eq!(report.outcome, Ok(()));
    assert!(queue.is_empty());
    assert_eq!(a.calls(), vec!["resized 1 1", "resized 2 2", "redraw_requested"]);
    assert_eq!(b.calls(), vec!["focused true"]);
    assert_eq!(c.calls(), vec!["close_requested"]);
}

#[test]
fn empty_batch_succeeds() {
    let (registry, a, _b, _c) = three_windows();
    let mut queue = VecDeque::new();
    let report = dispatch_batch(&registry, &mut queue);
    assert_eq!(report.taken, 0);
    assert_eq!(report.outcome, Ok(()));
    assert!(a.calls().is_empty());
}

#[test]
fn batch_continues_past_unregistered_targets() {
    let (registry, a, _b, c) = three_windows();
    let mut queue = VecDeque::new();
    queue.push_back(resized(8, 1, 1));
    queue.push_back(resized(1, 2, 2));
    queue.push_back(resized(9, 3, 3));
    queue.push_back(resized(3, 4, 4));
    let report = dispatch_batch(&registry, &mut queue);
    assert_eq!(report.taken, 4);
    assert_eq!(report.outcome, Ok(()));
    assert!(queue.is_empty());
    assert_eq!(a.calls(), vec!["resized 2 2"]);
    assert_eq!(c.calls(), vec!["resized 4 4"]);
}

#[test]
fn batch_stops_at_the_first_error() {
    let mut registry = Registry::new();
    let good = Recorder::new(1);
    let bad = Recorder::failing(2, 99);
    assert_eq!(registry.register(good.clone()), Ok(()));
    assert_eq!(registry.register(bad.clone()), Ok(()));
    let mut queue = VecDeque::new();
    queue.push_back(resized(1, 1, 1));
    queue.push_back(resized(2, 2, 2));
    queue.push_back(envelope(1, Payload::RedrawRequested));
    queue.push_back(envelope(2, Payload::RedrawRequested));
    let report = dispatch_batch(&registry, &mut queue);
    assert_eq!(report.taken, 2);
    assert_eq!(report.outcome, Err(99));
    assert_eq!(good.calls(), vec!["resized 1 1"]);
    assert_eq!(bad.calls(), vec!["resized 2 2"]);
    assert_eq!(queue.len(), 2);
    assert_eq!(queue[0].target, WindowId::from(1u64));
    assert_eq!(queue[1].target, WindowId::from(2u64));
}

#[test]
fn batch_reports_the_first_of_two_errors() {
    let mut registry = Registry::new();
    let first = Recorder::failing(1, 10);
    let second = Recorder::failing(2, 20);
    assert_eq!(registry.register(first.clone()), Ok(()));
    assert_eq!(registry.register(second.clone()), Ok(()));
    let mut queue = VecDeque::new();
    queue.push_back(resized(2, 1, 1));
    queue.push_back(resized(1, 1, 1));
    let report = dispatch_batch(&registry, &mut queue);
    assert_eq!(report.taken, 1);
    assert_eq!(report.outcome, Err(20));
    assert!(first.calls().is_empty());
    assert_eq!(queue.len(), 1);
}
