use bevy::math::{URect, UVec2};
use bevy::sprite::TextureAtlasLayout;
use vstd::prelude::*;

use crate::schema::{AsepriteRect, AsepriteSize};

verus! {

#[verifier::external_type_specification]
pub struct ExUVec2(UVec2);

#[verifier::external_type_specification]
pub struct ExURect(URect);

#[verifier::external_type_specification]
pub struct ExTextureAtlasLayout(TextureAtlasLayout);

/// Relies on `TextureAtlasLayout::new_empty`: it stores the dimensions and an
/// empty list of rectangles.
pub assume_specification[ TextureAtlasLayout::new_empty ](dimensions: UVec2) -> (r:
    TextureAtlasLayout)
    ensures
        r.size == dimensions,
        r.textures@ == Seq::<URect>::empty(),
;

/// Relies on `TextureAtlasLayout::add_texture`: it appends the rectangle and
/// returns its position.
pub assume_specification[ TextureAtlasLayout::add_texture ](
    layout: &mut TextureAtlasLayout,
    rect: URect,
) -> (r: usize)
    ensures
        final(layout).size == old(layout).size,
        final(layout).textures@ == old(layout).textures@.push(rect),
        r == old(layout).textures@.len(),
;

/// Whether both far edges of a sheet rectangle lie within `u32`.
pub open spec fn rect_fits(r: AsepriteRect) -> bool {
    r.x + r.w <= u32::MAX && r.y + r.h <= u32::MAX
}

/// The corner form of a sheet rectangle: `min` inclusive, `max` exclusive.
pub open spec fn corners(r: AsepriteRect) -> URect {
    URect {
        min: UVec2 { x: r.x, y: r.y },
        max: UVec2 { x: (r.x + r.w) as u32, y: (r.y + r.h) as u32 },
    }
}

impl AsepriteRect {
    /// Whether both far edges lie within `u32`.
    pub fn fits(&self) -> (r: bool)
        ensures
            r == rect_fits(*self),
    {
        self.x <= u32::MAX - self.w && self.y <= u32::MAX - self.h
    }

    /// The rectangle in corner form.
    pub fn to_urect(&self) -> (r: URect)
        requires
            rect_fits(*self),
        ensures
            r == corners(*self),
    {
        URect {
            min: UVec2 { x: self.x, y: self.y },
            max: UVec2 { x: self.x + self.w, y: self.y + self.h },
        }
    }
}

impl AsepriteSize {
    /// The size as a vector of width and height.
    pub fn to_uvec2(&self) -> (r: UVec2)
        ensures
            r == (UVec2 { x: self.w, y: self.h }),
    {
        UVec2 { x: self.w, y: self.h }
    }
}

} // verus!
