//! Error taxonomy of the library.
//!
//! Recoverable failures surface as explicit `Result` values: a creation call
//! that the device answered with a null handle, an I/O call that the device
//! answered with a negative status, or a text argument that could not be
//! converted to a C string. Fatal conditions (out of memory, an uncaught
//! fault) never appear here; they are routed through the fault bridge.

use vstd::prelude::*;

verus! {

/// The kind of native resource whose creation was attempted.
#[derive(Clone, Copy, Debug, PartialEq, Eq, Structural)]
pub enum ResourceKind {
    Font,
    Bitmap,
    BitmapTable,
    Sprite,
    File,
    FilePlayer,
    SamplePlayer,
    Sample,
}

/// A recoverable error reported by a device-call wrapper.
#[derive(Clone, Copy, Debug, PartialEq, Eq, Structural)]
pub enum PdError {
    /// The device returned a null or sentinel handle on a creation call.
    ResourceCreation { kind: ResourceKind },
    /// A device I/O call returned a negative status code.
    Io { code: i32 },
    /// A path or text argument contained an embedded null byte and could not
    /// be converted to a null-terminated C string.
    Encoding,
}

} // verus!
