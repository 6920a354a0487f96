//! Link-layer packet codec for a fixed-size USB HID report transport.
//!
//! A host and an authenticator exchange 65-byte HID reports. A logical
//! command that does not fit in one report is split into one leading
//! (init) frame and zero or more continuation frames. This crate holds
//! the two frame kinds, the fixed-offset field layout inside each
//! 65-byte buffer, and the command and error code enumerations with
//! their byte-level mappings.

pub mod packet;
