//! A plain record of what the pipeline reads from a codec registry entry.
//!
//! The registry itself (lookup by name or id, descriptor tables) lives with
//! the backend and is consumed, not re-specified: the pipeline only reads a
//! codec's id, its media type, and whether it can encode or decode.

use vstd::prelude::*;

verus! {

/// The kind of data a codec works on.
#[derive(Copy, Clone, PartialEq, Eq, Structural, Debug)]
pub enum MediaType {
    Video,
    Audio,
    Data,
    Subtitle,
    Unknown,
}

/// A pixel layout, identified by the backend's numeric id.
/// Negative ids are reserved by the backend for "no format".
#[derive(Copy, Clone, PartialEq, Eq, Structural, Debug)]
pub struct PixelFormat(pub i32);

/// A rational number, the backend's representation of a time base.
#[derive(Copy, Clone, PartialEq, Eq, Structural, Debug)]
pub struct Rational {
    pub num: i32,
    pub den: i32,
}

/// What the encoding pipeline reads from one registry entry.
#[derive(Copy, Clone, PartialEq, Eq, Structural, Debug)]
pub struct Codec {
    pub id: i32,
    pub media_type: MediaType,
    pub encodes: bool,
    pub decodes: bool,
}

impl Codec {
    /// Whether the codec can encode.
    pub fn is_encoder(&self) -> (r: bool)
        ensures
            r == self.encodes,
    {
        self.encodes
    }

    /// Whether the codec can decode.
    pub fn is_decoder(&self) -> (r: bool)
        ensures
            r == self.decodes,
    {
        self.decodes
    }

    /// The backend's numeric id for this codec.
    pub fn id(&self) -> (r: i32)
        ensures
            r == self.id,
    {
        self.id
    }

    /// The kind of data this codec works on.
    pub fn media_type(&self) -> (r: MediaType)
        ensures
            r == self.media_type,
    {
        self.media_type
    }
}

} // verus!
