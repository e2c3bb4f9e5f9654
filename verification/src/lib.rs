//! Request and response rules of a chat-completion gateway, and the
//! construction of image data URIs, stated and proved over sequences of
//! characters.
//!
//! The library sends and reads nothing. `exchange` prepares a completion
//! request and decides, event by event, what a caller that does the
//! sending gets back; `image` turns the bytes of an image file into a
//! data URI.

pub mod endpoint;
pub mod exchange;
pub mod image;
pub mod message;
pub mod status;

pub use crate::message::ChatMessage;
