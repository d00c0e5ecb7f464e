//! What an application implements for each of its windows.

use crate::scalar::{Double, Single};
use std::path::PathBuf;
use vstd::prelude::*;
use winit::dpi::{PhysicalPosition, PhysicalSize};
use winit::event::{
    AxisId, DeviceId, ElementState, Ime, InnerSizeWriter, KeyEvent, Modifiers, MouseButton,
    MouseScrollDelta, Touch, TouchPhase,
};
use winit::event_loop::AsyncRequestSerial;
use winit::window::{ActivationToken, Theme, WindowId};

verus! {

/// Encapsulates a window with window-specific logic.
///
/// There is one method per kind of window event. Each does nothing and
/// succeeds unless the implementation overrides it. The event loop exits
/// immediately if any method returns an error.
pub trait WindowHandler: WinitWindow {
    /// What a method of this handler fails with.
    type Error;

    /// An activation token that the window asked for has arrived.
    fn on_activation_token_done(
        &self,
        serial: AsyncRequestSerial,
        token: ActivationToken,
    ) -> (r: Result<(), Self::Error>)
        default_ensures
            r is Ok,
    {
        let _ = token;
        let _ = serial;
        Ok(())
    }

    /// The size of the window's client area has changed.
    fn on_resized(&self, new: PhysicalSize<u32>) -> (r: Result<(), Self::Error>)
        default_ensures
            r is Ok,
    {
        let _ = new;
        Ok(())
    }

    /// The window has been moved.
    fn on_moved(&self, new: PhysicalPosition<i32>) -> (r: Result<(), Self::Error>)
        default_ensures
            r is Ok,
    {
        let _ = new;
        Ok(())
    }

    /// The user has asked for the window to be closed.
    fn on_close_requested(&self) -> (r: Result<(), Self::Error>)
        default_ensures
            r is Ok,
    {
        Ok(())
    }

    /// A file has been dropped into the window.
    fn on_dropped_file(&self, path: PathBuf) -> (r: Result<(), Self::Error>)
        default_ensures
            r is Ok,
    {
        let _ = path;
        Ok(())
    }

    /// A file is being dragged over the window.
    fn on_hovered_file(&self, path: PathBuf) -> (r: Result<(), Self::Error>)
        default_ensures
            r is Ok,
    {
        let _ = path;
        Ok(())
    }

    /// A file that was dragged over the window has left it.
    fn on_hovered_file_cancelled(&self) -> (r: Result<(), Self::Error>)
        default_ensures
            r is Ok,
    {
        Ok(())
    }

    /// The window has gained or lost the input focus.
    fn on_focused(&self, gained: bool) -> (r: Result<(), Self::Error>)
        default_ensures
            r is Ok,
    {
        let _ = gained;
        Ok(())
    }

    /// A key has been pressed or released.
    fn on_keyboard_input(
        &self,
        dev: DeviceId,
        event: KeyEvent,
        is_synthetic: bool,
    ) -> (r: Result<(), Self::Error>)
        default_ensures
            r is Ok,
    {
        let _ = is_synthetic;
        let _ = event;
        let _ = dev;
        Ok(())
    }

    /// The keyboard modifiers have changed.
    fn on_modifiers_changed(&self, m: Modifiers) -> (r: Result<(), Self::Error>)
        default_ensures
            r is Ok,
    {
        let _ = m;
        Ok(())
    }

    /// The input method has produced an event.
    fn on_ime(&self, ev: Ime) -> (r: Result<(), Self::Error>)
        default_ensures
            r is Ok,
    {
        let _ = ev;
        Ok(())
    }

    /// The cursor has moved within the window.
    fn on_cursor_moved(
        &self,
        dev: DeviceId,
        pos: PhysicalPosition<Double>,
    ) -> (r: Result<(), Self::Error>)
        default_ensures
            r is Ok,
    {
        let _ = pos;
        let _ = dev;
        Ok(())
    }

    /// The cursor has entered the window.
    fn on_cursor_entered(&self, dev: DeviceId) -> (r: Result<(), Self::Error>)
        default_ensures
            r is Ok,
    {
        let _ = dev;
        Ok(())
    }

    /// The cursor has left the window.
    fn on_cursor_left(&self, dev: DeviceId) -> (r: Result<(), Self::Error>)
        default_ensures
            r is Ok,
    {
        let _ = dev;
        Ok(())
    }

    /// A mouse wheel or touchpad scroll has occurred.
    fn on_mouse_wheel(
        &self,
        dev: DeviceId,
        delta: MouseScrollDelta,
        phase: TouchPhase,
    ) -> (r: Result<(), Self::Error>)
        default_ensures
            r is Ok,
    {
        let _ = phase;
        let _ = delta;
        let _ = dev;
        Ok(())
    }

    /// A mouse button has been pressed or released.
    fn on_mouse_input(
        &self,
        dev: DeviceId,
        st: ElementState,
        btn: MouseButton,
    ) -> (r: Result<(), Self::Error>)
        default_ensures
            r is Ok,
    {
        let _ = btn;
        let _ = st;
        let _ = dev;
        Ok(())
    }

    /// A two-finger pinch has progressed.
    fn on_pinch_gesture(
        &self,
        dev: DeviceId,
        delta: Double,
        phase: TouchPhase,
    ) -> (r: Result<(), Self::Error>)
        default_ensures
            r is Ok,
    {
        let _ = phase;
        let _ = delta;
        let _ = dev;
        Ok(())
    }

    /// A pan gesture has progressed.
    fn on_pan_gesture(
        &self,
        dev: DeviceId,
        delta: PhysicalPosition<Single>,
        phase: TouchPhase,
    ) -> (r: Result<(), Self::Error>)
        default_ensures
            r is Ok,
    {
        let _ = phase;
        let _ = delta;
        let _ = dev;
        Ok(())
    }

    /// A double tap has been made.
    fn on_double_tap_gesture(&self, dev: DeviceId) -> (r: Result<(), Self::Error>)
        default_ensures
            r is Ok,
    {
        let _ = dev;
        Ok(())
    }

    /// A two-finger rotation has progressed.
    fn on_rotation_gesture(
        &self,
        dev: DeviceId,
        delta: Single,
        phase: TouchPhase,
    ) -> (r: Result<(), Self::Error>)
        default_ensures
            r is Ok,
    {
        let _ = phase;
        let _ = delta;
        let _ = dev;
        Ok(())
    }

    /// The pressure on the touchpad has changed.
    fn on_touchpad_pressure(
        &self,
        dev: DeviceId,
        pressure: Single,
        stage: i64,
    ) -> (r: Result<(), Self::Error>)
        default_ensures
            r is Ok,
    {
        let _ = stage;
        let _ = pressure;
        let _ = dev;
        Ok(())
    }

    /// An analog axis of a device has moved.
    fn on_axis_motion(
        &self,
        dev: DeviceId,
        axis: AxisId,
        value: Double,
    ) -> (r: Result<(), Self::Error>)
        default_ensures
            r is Ok,
    {
        let _ = value;
        let _ = axis;
        let _ = dev;
        Ok(())
    }

    /// A touch point has started, moved or ended.
    fn on_touch(&self, data: Touch) -> (r: Result<(), Self::Error>)
        default_ensures
            r is Ok,
    {
        let _ = data;
        Ok(())
    }

    /// The scale factor of the window has changed.
    fn on_scale_factor_changed(
        &self,
        new: Double,
        sw: InnerSizeWriter,
    ) -> (r: Result<(), Self::Error>)
        default_ensures
            r is Ok,
    {
        let _ = sw;
        let _ = new;
        Ok(())
    }

    /// The system theme has changed.
    fn on_theme_changed(&self, new: Theme) -> (r: Result<(), Self::Error>)
        default_ensures
            r is Ok,
    {
        let _ = new;
        Ok(())
    }

    /// The window has become hidden from view, or visible again.
    fn on_occluded(&self, new: bool) -> (r: Result<(), Self::Error>)
        default_ensures
            r is Ok,
    {
        let _ = new;
        Ok(())
    }

    /// The window should draw its contents again.
    fn on_redraw_requested(&self) -> (r: Result<(), Self::Error>)
        default_ensures
            r is Ok,
    {
        Ok(())
    }
}

/// Provides the toolkit's properties of a window.
pub trait WinitWindow {
    /// The identifier that the toolkit gave the window.
    ///
    /// It must not change for as long as the window is registered.
    fn id(&self) -> WindowId;
}

/// Whether `id` is an answer that `window.id()` can give.
pub open spec fn reports_id<W: WinitWindow + ?Sized>(window: &W, id: WindowId) -> bool {
    call_ensures(W::id, (window,), id)
}

} // verus!
