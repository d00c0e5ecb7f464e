//! The windowing toolkit as the verified core sees it.
//!
//! Event payloads pass through this crate untouched, so their types are only
//! declared here and stay opaque to the verifier. The one thing the core needs
//! to know about a window identifier is its raw integer value: the registry
//! is keyed by it, so two identifiers name the same window to this crate
//! exactly when their raw values are equal.

use std::path::PathBuf;
use std::rc::Rc;
use vstd::prelude::*;
use winit::dpi::{PhysicalPosition, PhysicalSize};
use winit::event::{
    DeviceId, ElementState, Ime, InnerSizeWriter, KeyEvent, Modifiers, MouseButton,
    MouseScrollDelta, Touch, TouchPhase,
};
use winit::event_loop::AsyncRequestSerial;
use winit::window::{ActivationToken, Theme, WindowId};

verus! {

/// The toolkit's identifier of a window. Opaque here: values are only passed on.
#[verifier::external_type_specification]
#[verifier::external_body]
pub struct ExWindowId(WindowId);

/// The toolkit's identifier of an input device. Opaque here: values are only passed on.
#[verifier::external_type_specification]
#[verifier::external_body]
pub struct ExDeviceId(DeviceId);

/// A size in physical pixels. Opaque here: values are only passed on.
#[verifier::external_type_specification]
#[verifier::external_body]
#[verifier::reject_recursive_types(P)]
pub struct ExPhysicalSize<P>(PhysicalSize<P>);

/// A position in physical pixels. Opaque here: values are only passed on.
#[verifier::external_type_specification]
#[verifier::external_body]
#[verifier::reject_recursive_types(P)]
pub struct ExPhysicalPosition<P>(PhysicalPosition<P>);

/// A key press or release. Opaque here: values are only passed on.
#[verifier::external_type_specification]
#[verifier::external_body]
pub struct ExKeyEvent(KeyEvent);

/// The state of the keyboard modifiers. Opaque here: values are only passed on.
#[verifier::external_type_specification]
#[verifier::external_body]
pub struct ExModifiers(Modifiers);

/// An event of the input method. Opaque here: values are only passed on.
#[verifier::external_type_specification]
#[verifier::external_body]
pub struct ExIme(Ime);

/// How far a wheel or touchpad has scrolled. Opaque here: values are only passed on.
#[verifier::external_type_specification]
#[verifier::external_body]
pub struct ExMouseScrollDelta(MouseScrollDelta);

/// The phase of a touch or of a gesture. Opaque here: values are only passed on.
#[verifier::external_type_specification]
#[verifier::external_body]
pub struct ExTouchPhase(TouchPhase);

/// Whether a key or button is pressed or released. Opaque here: values are only passed on.
#[verifier::external_type_specification]
#[verifier::external_body]
pub struct ExElementState(ElementState);

/// A button of a mouse. Opaque here: values are only passed on.
#[verifier::external_type_specification]
#[verifier::external_body]
pub struct ExMouseButton(MouseButton);

/// A touch point and what happened to it. Opaque here: values are only passed on.
#[verifier::external_type_specification]
#[verifier::external_body]
pub struct ExTouch(Touch);

/// The handle through which a window's new size is requested. Opaque here: values are only passed on.
#[verifier::external_type_specification]
#[verifier::external_body]
pub struct ExInnerSizeWriter(InnerSizeWriter);

/// A system theme. Opaque here: values are only passed on.
#[verifier::external_type_specification]
#[verifier::external_body]
pub struct ExTheme(Theme);

/// The serial number of a request that is answered later. Opaque here: values are only passed on.
#[verifier::external_type_specification]
#[verifier::external_body]
pub struct ExAsyncRequestSerial(AsyncRequestSerial);

/// A token that lets a window ask to be activated. Opaque here: values are only passed on.
#[verifier::external_type_specification]
#[verifier::external_body]
pub struct ExActivationToken(ActivationToken);

/// An owned file path of the standard library. Opaque here: values are only passed on.
#[verifier::external_type_specification]
#[verifier::external_body]
pub struct ExPathBuf(PathBuf);

/// The raw integer that the toolkit's `u64::from(WindowId)` yields for `id`.
pub uninterp spec fn raw_id(id: WindowId) -> u64;

/// Converts a window identifier to its raw integer with the toolkit's
/// `impl From<WindowId> for u64`.
///
/// Trusted: the conversion is a function of the identifier alone.
#[verifier::external_body]
pub(crate) fn window_key(id: WindowId) -> (key: u64)
    ensures
        key == raw_id(id),
{
    u64::from(id)
}

/// Makes another handle on the same object with `Rc::clone`.
///
/// Trusted: the new handle points at the allocation of the old one, so both
/// denote the same value.
#[verifier::external_body]
pub(crate) fn share<H: ?Sized>(handle: &Rc<H>) -> (shared: Rc<H>)
    ensures
        shared == *handle,
{
    Rc::clone(handle)
}

} // verus!
