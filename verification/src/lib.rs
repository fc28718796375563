//! Push-to-talk audio capture: the control logic that streams microphone
//! audio, base64-encoded chunk by chunk, as the body of one outgoing request
//! per button press.
//!
//! The crate holds no I/O. [`controller::CaptureController`] decides, from
//! what its surroundings report, what they are to do next; [`encoder`] turns
//! one chunk of raw audio into text; [`base64`] says what that text is; and
//! [`trace`] states what holds of whole runs of the controller.

pub mod base64;
pub mod controller;
pub mod encoder;
pub mod trace;
