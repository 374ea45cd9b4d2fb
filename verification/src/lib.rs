//! A logger that ships structured records to a Vector instance.
//!
//! The verified library holds what the logger decides and computes: which
//! severities a configured level lets through, the record that is sent, its
//! JSON text, the timestamp text and the address that is dialled.
//! Connecting and writing to the socket stand outside, in the application layer.

pub mod address;
pub mod clock;
pub mod json;
pub mod level;
pub mod message;
pub mod settings;

pub use address::{connect_address, port_text};
pub use clock::{format_timestamp, read_clock, time_now, timestamp_of_reading, TIMESTAMP_FORMAT};
pub use json::{encode_message, encode_string, frame_message_json};
pub use level::{admits, Severity};
pub use message::Message;
pub use settings::{Dispatch, LoggerSettings};
