//! Offset table: the per-entry visual-compensation vectors, plus the packed
//! rectangles handed to an atlas packer.
//!
//! Entry `i` of the table compensates for record `i`'s logical frame offset.
//! Entries are stored doubled, in half-pixel units: entry `i` is
//! `(-frame_x, frame_y)`, which is twice the pixel compensation
//! `(-frame_x / 2, frame_y / 2)`. Keeping the doubled value makes every
//! computation in the core exact; a presentation adapter divides by two (and
//! by any additional world-scale divisor, such as the 100 a 3D presentation
//! uses) when it converts a position to world coordinates.

use vstd::prelude::*;

use crate::manifest::XML;

verus! {

/// An exact 2D integer vector (half-pixel units).
#[derive(Clone, Copy, Debug, PartialEq, Eq, Structural)]
pub struct Vec2I {
    pub x: i64,
    pub y: i64,
}

/// The externally owned position/scale state the core compensates.
/// Positions are in half-pixel units; the scale multiplies each compensation
/// componentwise. The core never touches rotation or any depth component.
#[derive(Clone, Copy, Debug, PartialEq, Eq, Structural)]
pub struct Transform2 {
    pub translation: Vec2I,
    pub scale: Vec2I,
}

/// A packed rectangle of the atlas image, in pixels.
#[derive(Clone, Copy, Debug, PartialEq, Eq, Structural)]
pub struct RectU {
    pub min_x: u32,
    pub min_y: u32,
    pub max_x: u64,
    pub max_y: u64,
}

/// The offset table, index-aligned 1:1 with the manifest sequence.
#[derive(Clone, Debug)]
pub struct Offsets {
    pub offsets_vec: Vec<Vec2I>,
}

/// The compensation vector of one record: `(-frame_x, frame_y)` in
/// half-pixel units.
pub open spec fn spec_offset_of(frame_x: i32, frame_y: i32) -> Vec2I {
    Vec2I { x: -(frame_x as int) as i64, y: frame_y as i64 }
}

impl Offsets {
    /// One table entry per manifest record, in manifest order, each computed
    /// from that record's logical frame offset alone.
    pub fn from_xml(xml: &XML) -> (r: Offsets)
        ensures
            r.offsets_vec@.len() == xml@.len(),
            forall|i: int|
                0 <= i < xml@.len() ==> r.offsets_vec@[i] == spec_offset_of(
                    xml@[i].frame_x,
                    xml@[i].frame_y,
                ),
    {
        let mut v: Vec<Vec2I> = Vec::new();
        let mut i: usize = 0;
        while i < xml.subtexture.len()
            invariant
                i <= xml.subtexture.len(),
                v@.len() == i,
                forall|k: int|
                    0 <= k < i ==> v@[k] == spec_offset_of(xml@[k].frame_x, xml@[k].frame_y),
            decreases xml.subtexture.len() - i,
        {
            let t = &xml.subtexture[i];
            let ox: i64 = -(t.frame_x as i64);
            let oy: i64 = t.frame_y as i64;
            v.push(Vec2I { x: ox, y: oy });
            i += 1;
        }
        Offsets { offsets_vec: v }
    }
}

/// The packed rectangles of a manifest, in manifest order.
///
/// The atlas packer assigns slot indices in submission order, so submitting
/// exactly this sequence keeps slot index == manifest index == offset-table
/// index; that alignment is what every stepping operation relies on.
pub fn packed_rects(xml: &XML) -> (r: Vec<RectU>)
    ensures
        r@.len() == xml@.len(),
        forall|i: int|
            0 <= i < xml@.len() ==> r@[i] == (RectU {
                min_x: xml@[i].x,
                min_y: xml@[i].y,
                max_x: (xml@[i].x + xml@[i].width) as u64,
                max_y: (xml@[i].y + xml@[i].height) as u64,
            }),
{
    let mut v: Vec<RectU> = Vec::new();
    let mut i: usize = 0;
    while i < xml.subtexture.len()
        invariant
            i <= xml.subtexture.len(),
            v@.len() == i,
            forall|k: int|
                0 <= k < i ==> v@[k] == (RectU {
                    min_x: xml@[k].x,
                    min_y: xml@[k].y,
                    max_x: (xml@[k].x + xml@[k].width) as u64,
                    max_y: (xml@[k].y + xml@[k].height) as u64,
                }),
        decreases xml.subtexture.len() - i,
    {
        let t = &xml.subtexture[i];
        let max_x: u64 = t.x as u64 + t.width as u64;
        let max_y: u64 = t.y as u64 + t.height as u64;
        v.push(RectU { min_x: t.x, min_y: t.y, max_x, max_y });
        i += 1;
    }
    v
}

} // verus!
