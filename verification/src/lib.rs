//! Verified core of a MIDI patch-switching relay.
//!
//! Bytes arriving on an input port are framed into complete MIDI messages and
//! forwarded unmodified to an output port, while an operator may select among
//! a named list of patches; selecting a patch emits a deterministic sequence
//! of bank-select and program-change messages onto the same output port.
//!
//! The crate verifies the message framing, the byte-exact serialization of
//! messages, the patch-book navigation with its clamping cursor, and the
//! front-end state machines.  Device I/O and thread plumbing live outside the
//! library and hand it plain values.

pub mod book;
pub mod channel;
pub mod device;
pub mod devicepicker;
pub mod framer;
pub mod message;
pub mod patch;
pub mod patchsystem;
