//! The narrow host-capability interfaces the driver loop consumes: a
//! frame renderer, a key-event source, and the error type that spans the
//! native and web front ends.
//!
//! The core never implements these; a host supplies them and the driver
//! hands each completed frame and drains each event queue through them.

use vstd::prelude::*;
use crate::input::Button;

verus! {

/// A host error, kept as its message: raised by the native or the web
/// presentation layer.
#[derive(Debug, PartialEq, Eq)]
pub enum CrossPlatformError {
    NativeError(String),
    JsError(String),
}

impl CrossPlatformError {
    /// The error's message text.
    pub fn message(&self) -> (r: &String)
        ensures
            r@ == spec_error_message(self)@,
    {
        match self {
            CrossPlatformError::NativeError(s) => s,
            CrossPlatformError::JsError(s) => s,
        }
    }
}

/// The message a host error carries.
pub open spec fn spec_error_message(e: &CrossPlatformError) -> &String {
    match e {
        CrossPlatformError::NativeError(s) => s,
        CrossPlatformError::JsError(s) => s,
    }
}

/// A host key event, already mapped onto the pad.
#[derive(Debug, Clone, Copy, PartialEq, Eq, Structural)]
pub enum KeyEvent {
    Pressed(Option<Button>),
    Released(Option<Button>),
    Ignored,
}

/// A sink for completed 160 x 144 RGB frames.
pub trait Renderer {
    /// Uploads one complete frame; the buffer always holds 160 x 144
    /// RGB triples.
    fn render(&mut self, pixel_buffer: &Vec<u8>) -> Result<(), CrossPlatformError>;
}

/// One host input event.
pub trait Event {
    /// The pad meaning of the event, if any.
    fn to_key_event(&self) -> KeyEvent;
}

/// A drainable queue of host input events, already mapped onto the pad.
pub trait EventQueue {
    /// Takes every event that arrived since the last call.
    fn poll(&mut self) -> Vec<KeyEvent>;
}

} // verus!
