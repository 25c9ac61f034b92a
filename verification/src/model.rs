//! Data model of the image widget: sizing and alignment policies, tint
//! color, the two element variants, and the slices of host state the
//! geometry reads.
//!
//! Image and atlas assets are referenced by plain numeric handles; the host
//! owns the asset tables and passes in only what the geometry needs (pixel
//! dimensions, sub-rectangles, flags).

use vstd::prelude::*;
use crate::rat::{Rat, RatVec2};

verus! {

/// How the final render size of an element is chosen.
#[derive(Clone, Copy)]
pub enum ExactSize {
    /// Publish the source pixel size as a measured-size hint so the layout
    /// solver leans toward the source aspect ratio; render at the node box.
    AttemptPreserveAspectRatio,
    /// Derive one axis of the render size from the other using the source
    /// aspect ratio, regardless of the node box.
    ForcePreserveAspectRatio,
    /// Stretch to fill the node box.
    FillNode,
    /// Use the source pixel size, regardless of the node box.
    Texture,
    /// Use the source pixel size scaled by the given per-axis factor.
    Scaled(RatVec2),
    /// Use the given size, regardless of the node box.
    Exactly(RatVec2),
}

impl ExactSize {
    /// The policy vectors, where present, are small enough for the formulas.
    pub open spec fn wf(self) -> bool {
        match self {
            ExactSize::Scaled(v) => v.in_range(),
            ExactSize::Exactly(v) => v.in_range(),
            _ => true,
        }
    }
}

/// Where the image sits inside the node box.
#[derive(Clone, Copy)]
pub enum ImageAlignment {
    TopLeft,
    TopCenter,
    TopRight,
    CenterLeft,
    Center,
    CenterRight,
    BottomLeft,
    BottomCenter,
    BottomRight,
    /// Fractional placement: the offset is the given fraction of the node
    /// box per axis (the vertical fraction is additionally halved).
    Anchor(RatVec2),
}

impl ImageAlignment {
    pub open spec fn wf(self) -> bool {
        match self {
            ImageAlignment::Anchor(v) => v.in_range(),
            _ => true,
        }
    }
}

/// An RGBA tint. Only the alpha channel is inspected (a zero alpha hides
/// the element); the whole color is passed through to the renderer.
#[derive(Clone, Copy)]
pub struct Rgba {
    pub r: Rat,
    pub g: Rat,
    pub b: Rat,
    pub a: Rat,
}

impl Rgba {
    pub open spec fn wf(self) -> bool {
        self.r.wf() && self.g.wf() && self.b.wf() && self.a.wf()
    }

    /// An alpha of exactly zero marks the element as intentionally hidden.
    pub open spec fn zero_alpha(self) -> bool {
        self.a.num == 0
    }
}

/// Flex direction of the owning node's style; decides which axis
/// `ForcePreserveAspectRatio` derives from the other.
#[derive(Clone, Copy, PartialEq, Eq, Structural)]
pub enum FlexDir {
    Row,
    RowReverse,
    Column,
    ColumnReverse,
}

impl FlexDir {
    /// Column-oriented directions derive width from height.
    pub open spec fn is_column(self) -> bool {
        self == FlexDir::Column || self == FlexDir::ColumnReverse
    }
}

/// An element that shows one whole logical image inside its node.
#[derive(Clone, Copy)]
pub struct ExactImage {
    /// Non-owning handle of the backing image asset.
    pub texture: u64,
    /// Rotation in radians, counter-clockwise; `None` means unrotated.
    /// The angle is carried through to the renderer untouched.
    pub rotation: Option<Rat>,
    pub alignment: ImageAlignment,
    pub color: Rgba,
    pub size: ExactSize,
}

impl ExactImage {
    pub open spec fn wf(self) -> bool {
        &&& match self.rotation {
            Some(r) => r.wf(),
            None => true,
        }
        &&& self.alignment.wf()
        &&& self.color.wf()
        &&& self.size.wf()
    }
}

/// An element that shows one sub-rectangle of a texture atlas.
#[derive(Clone, Copy)]
pub struct ExactAtlasImage {
    /// Non-owning handle of the atlas resource.
    pub atlas: u64,
    /// Index of the sub-rectangle within the atlas.
    pub index: usize,
    /// Rotation in radians, counter-clockwise; `None` means unrotated.
    pub rotation: Option<Rat>,
    pub alignment: ImageAlignment,
    pub color: Rgba,
    pub size: ExactSize,
}

impl ExactAtlasImage {
    pub open spec fn wf(self) -> bool {
        &&& match self.rotation {
            Some(r) => r.wf(),
            None => true,
        }
        &&& self.alignment.wf()
        &&& self.color.wf()
        &&& self.size.wf()
    }
}

/// One named sub-rectangle of an atlas, in atlas pixel coordinates.
#[derive(Clone, Copy)]
pub struct PixelRect {
    pub min_x: u32,
    pub min_y: u32,
    pub max_x: u32,
    pub max_y: u32,
}

impl PixelRect {
    /// A drawable sub-rectangle has at least one pixel on each axis.
    pub open spec fn wf(self) -> bool {
        self.min_x < self.max_x && self.min_y < self.max_y
    }

    pub open spec fn spec_width(self) -> u32 {
        (self.max_x - self.min_x) as u32
    }

    pub open spec fn spec_height(self) -> u32 {
        (self.max_y - self.min_y) as u32
    }

    pub fn width(&self) -> (w: u32)
        requires
            self.wf(),
        ensures
            w == self.spec_width(),
    {
        self.max_x - self.min_x
    }

    pub fn height(&self) -> (h: u32)
        requires
            self.wf(),
        ensures
            h == self.spec_height(),
    {
        self.max_y - self.min_y
    }
}

/// What the host's atlas store yields for a loaded atlas: its
/// sub-rectangles, the handle of its backing image, and its overall pixel
/// dimensions.
pub struct AtlasInfo {
    pub textures: Vec<PixelRect>,
    /// Non-owning handle of the atlas's backing image.
    pub texture: u64,
    /// Overall pixel dimensions of the atlas image.
    pub size: (u32, u32),
}

} // verus!
