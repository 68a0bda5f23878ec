//! Manifest model: the typed records of an atlas description.
//!
//! A manifest enumerates named sub-rectangles of a packed texture image.
//! Each record carries its packed rectangle (`x`, `y`, `width`, `height`) and
//! an optional logical frame offset/size (`frame_x`, `frame_y`,
//! `frame_width`, `frame_height`), all defaulting to zero, used to re-center
//! frames of differing packed size. Record identity is positional: names may
//! repeat, and every lookup works by manifest index.

use vstd::prelude::*;

verus! {

/// Mathematical model of one manifest record.
pub struct SubTexRec {
    pub name: Seq<u8>,
    pub x: u32,
    pub y: u32,
    pub width: u32,
    pub height: u32,
    pub frame_x: i32,
    pub frame_y: i32,
    pub frame_width: u32,
    pub frame_height: u32,
}

/// One manifest record: a named sub-rectangle of the packed image, with its
/// logical frame offset and size.
pub struct SubTexture {
    pub name: Vec<u8>,
    pub x: u32,
    pub y: u32,
    pub width: u32,
    pub height: u32,
    pub frame_x: i32,
    pub frame_y: i32,
    pub frame_width: u32,
    pub frame_height: u32,
}

impl View for SubTexture {
    type V = SubTexRec;

    open spec fn view(&self) -> SubTexRec {
        SubTexRec {
            name: self.name@,
            x: self.x,
            y: self.y,
            width: self.width,
            height: self.height,
            frame_x: self.frame_x,
            frame_y: self.frame_y,
            frame_width: self.frame_width,
            frame_height: self.frame_height,
        }
    }
}

/// A parsed manifest: the ordered sequence of sub-texture records.
pub struct XML {
    pub subtexture: Vec<SubTexture>,
}

impl View for XML {
    type V = Seq<SubTexRec>;

    open spec fn view(&self) -> Seq<SubTexRec> {
        self.subtexture@.map_values(|t: SubTexture| t@)
    }
}

/// The manifest text is structurally malformed, a record misses a required
/// field, or a numeric field does not fit its type.
#[derive(Debug, PartialEq, Eq)]
pub struct ParseError;

} // verus!
