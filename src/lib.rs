//! Decoder for the Bluetooth Host Controller Interface wire protocol: framing,
//! commands, events and the advertising-data records nested in them.
//!
//! Every record has a `parse` that takes the input bytes (and, where the record
//! is selected by an enclosing field, that field) and returns the bytes left
//! over with the decoded value, or why decoding failed. Its contract is stated
//! through two spec functions of the record: `spec_parse`, the number of bytes
//! read or the error, and `decodes`, what each field holds.
#![allow(non_camel_case_types)]
pub mod ad;
pub mod command;
pub mod event;
pub mod message;
pub mod response;
pub mod wire;

pub use message::{HciMessage, HciMessage_Message};
pub use wire::ParseError;
