//! A typed interface to the PCAN-Basic CAN-bus driver.
//!
//! Everything the native driver consumes or produces crosses its C interface
//! as parameter codes, numeric return codes and fixed-size byte buffers.
//! This crate holds the verified translation layer: bus and socket
//! identifiers, frame construction, error-code mapping, and the encoding and
//! decoding of every parameter buffer.  The native calls themselves live
//! outside the verified library; callers hand the raw outputs of a call to
//! the decoding functions here and get typed values back.

pub mod bus;
pub mod df;
pub mod error;
pub mod hw;
pub mod info;
pub mod io;
pub mod log;
pub mod param;
pub mod pcan;
pub mod socket;
pub mod special;
pub mod text;
pub mod trace;
