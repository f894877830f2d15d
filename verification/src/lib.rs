//! A memory-safe front for a callback-driven multimedia backend.
//!
//! The crate covers two subsystems. The I/O bridge (`io`) adapts a
//! caller-supplied seekable reader or writer to the backend's
//! function-pointer protocol: three callback slots (read, write, seek) that
//! report failure or end-of-stream through a single sentinel value. The
//! adaptive encoding pipeline (`encoder`) owns an opened encoder
//! configuration and implements the send-frame/drain-packets protocol,
//! rescaling a frame on demand when its geometry does not match the
//! configured encoder.
//!
//! The backend itself performs the actual encoding and is driven elsewhere;
//! here its interaction is exchanged as plain values, so every decision the
//! two subsystems make is stated in a contract and proved.

pub mod codec;
pub mod encoder;
pub mod io;
pub mod mem;
