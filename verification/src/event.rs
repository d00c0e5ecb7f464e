//! Window events as the dispatcher takes them.

use crate::scalar::{Double, Single};
use std::path::PathBuf;
use vstd::prelude::*;
use winit::dpi::{PhysicalPosition, PhysicalSize};
use winit::event::{
    AxisId, DeviceId, ElementState, Ime, InnerSizeWriter, KeyEvent, Modifiers, MouseButton,
    MouseScrollDelta, Touch, TouchPhase,
};
use winit::event_loop::AsyncRequestSerial;
use winit::window::{ActivationToken, Theme, WindowId};

verus! {

/// What happened to a window, with the fields that belong to that kind of
/// event.
///
/// The variants and their fields are those of the toolkit's window event;
/// real-valued fields travel as [`Double`] and [`Single`].
#[allow(inconsistent_fields)]
pub enum Payload {
    ActivationTokenDone { serial: AsyncRequestSerial, token: ActivationToken },
    Resized(PhysicalSize<u32>),
    Moved(PhysicalPosition<i32>),
    CloseRequested,
    DroppedFile(PathBuf),
    HoveredFile(PathBuf),
    HoveredFileCancelled,
    Focused(bool),
    KeyboardInput { device_id: DeviceId, event: KeyEvent, is_synthetic: bool },
    ModifiersChanged(Modifiers),
    Ime(Ime),
    CursorMoved { device_id: DeviceId, position: PhysicalPosition<Double> },
    CursorEntered { device_id: DeviceId },
    CursorLeft { device_id: DeviceId },
    MouseWheel { device_id: DeviceId, delta: MouseScrollDelta, phase: TouchPhase },
    MouseInput { device_id: DeviceId, state: ElementState, button: MouseButton },
    PinchGesture { device_id: DeviceId, delta: Double, phase: TouchPhase },
    PanGesture { device_id: DeviceId, delta: PhysicalPosition<Single>, phase: TouchPhase },
    DoubleTapGesture { device_id: DeviceId },
    RotationGesture { device_id: DeviceId, delta: Single, phase: TouchPhase },
    TouchpadPressure { device_id: DeviceId, pressure: Single, stage: i64 },
    AxisMotion { device_id: DeviceId, axis: AxisId, value: Double },
    Touch(Touch),
    ScaleFactorChanged { scale_factor: Double, inner_size_writer: InnerSizeWriter },
    ThemeChanged(Theme),
    Occluded(bool),
    RedrawRequested,
}

/// One native occurrence: the window it is addressed to and what happened.
pub struct EventEnvelope {
    pub target: WindowId,
    pub payload: Payload,
}

} // verus!
