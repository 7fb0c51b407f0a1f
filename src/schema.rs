use std::collections::HashMap;
use vstd::prelude::*;

use crate::sequence::{AnimationDirection, FramesIter};

verus! {

/// A rectangle of the sheet, in pixels: top-left corner and extents.
#[derive(Debug, Clone, Copy, PartialEq, Eq, Structural)]
pub struct AsepriteRect {
    pub x: u32,
    pub y: u32,
    pub w: u32,
    pub h: u32,
}

/// Extents in pixels.
#[derive(Debug, Clone, Copy, PartialEq, Eq, Structural)]
pub struct AsepriteSize {
    pub w: u32,
    pub h: u32,
}

impl AsepriteRect {
    /// The extents of the rectangle.
    pub fn size(&self) -> (r: AsepriteSize)
        ensures
            r == (AsepriteSize { w: self.w, h: self.h }),
    {
        AsepriteSize { w: self.w, h: self.h }
    }
}

/// One exported cel of the sheet.
#[derive(Debug, Clone)]
pub struct AsepriteFrame {
    pub filename: String,
    /// Where the frame lies in the sheet.
    pub frame: AsepriteRect,
    pub rotated: bool,
    pub trimmed: bool,
    pub sprite_source_size: AsepriteRect,
    pub source_size: AsepriteSize,
    /// How long the frame is shown (ms).
    pub duration: u64,
}

/// The frame collection of a sheet: a list, or a map keyed by file name.
///
/// Only the list form can be interpreted; the map form is always refused.
#[derive(Debug, Clone)]
pub enum AsepriteFrames {
    List(Vec<AsepriteFrame>),
    Dict(HashMap<String, AsepriteFrame>),
}

impl AsepriteFrames {
    /// The frame at absolute index `i`, if the collection is a list that has it.
    pub open spec fn frame_at(&self, i: int) -> Option<&AsepriteFrame> {
        match self {
            AsepriteFrames::List(l) => if 0 <= i < l@.len() {
                Some(&l@[i])
            } else {
                None
            },
            AsepriteFrames::Dict(_) => None,
        }
    }

    /// The frame at absolute index `i`; a map-form collection has no indices.
    pub fn get(&self, i: usize) -> (r: Option<&AsepriteFrame>)
        ensures
            r == self.frame_at(i as int),
    {
        match self {
            AsepriteFrames::List(l) => {
                if i < l.len() {
                    Some(&l[i])
                } else {
                    None
                }
            },
            AsepriteFrames::Dict(_) => None,
        }
    }

    /// A fresh cursor over the frames `[from, to]` in the given direction.
    pub fn slice(&self, from: usize, to: usize, direction: AnimationDirection) -> (r: FramesIter<'_>)
        ensures
            r.wf(),
            r.remaining() == crate::sequence::indices(from, to, direction),
            r.frames == self,
            r.from == from,
            r.to == to,
            r.direction == direction,
    {
        FramesIter::new(self, from, to, direction)
    }
}

/// How a layer is blended.
#[derive(Debug, Clone, Copy, PartialEq, Eq, Structural)]
pub enum BlendMode {
    Normal,
}

/// A layer of the source document; carried along, not interpreted.
#[derive(Debug, Clone)]
pub struct AsepriteLayer {
    pub name: String,
    pub opacity: u8,
    pub blend_mode: BlendMode,
}

/// A named animation clip over the absolute frame range `[from, to]`.
#[derive(Debug, Clone)]
pub struct FrameTag {
    pub name: String,
    pub from: usize,
    pub to: usize,
    pub direction: AnimationDirection,
    /// `#RRGGBB` or `#RRGGBBAA`, as exported.
    pub color: String,
}

/// The sheet-wide metadata.
#[derive(Debug, Clone)]
pub struct AsepriteMeta {
    pub app: String,
    pub version: String,
    /// The file name of the packed image.
    pub image: String,
    pub format: String,
    pub size: AsepriteSize,
    pub scale: String,
    pub frame_tags: Vec<FrameTag>,
    pub layers: Option<Vec<AsepriteLayer>>,
    /// How many slices the export declared; their contents are not read.
    pub slices: Option<usize>,
}

/// A whole sprite-sheet export.
#[derive(Debug, Clone)]
pub struct AsepriteJson {
    pub frames: AsepriteFrames,
    pub meta: AsepriteMeta,
}

} // verus!
