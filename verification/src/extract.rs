//! The placement extractor: walks the host's draw-order stack after layout
//! and emits one drawable record per visible element, in stack order.
//!
//! The host resolves each stack slot against its component storage and
//! asset tables and passes the result in; this module decides which slots
//! emit, computes the exact geometry of each record, and appends the
//! records to the frame's output buffer without reordering.

use vstd::prelude::*;
use crate::rat::{Frac, Rat, RatVec2, RatRect};
use crate::model::{AtlasInfo, ExactAtlasImage, ExactImage, FlexDir, Rgba};
use crate::geometry::{
    alignment_offset, atlas_scale, resolve_render_size, spec_atlas_scale, spec_offset_x,
    spec_offset_y, spec_render_h, spec_render_w,
};

verus! {

/// One drawable record, handed to the render submission stage.
///
/// The record carries the element's local placement in exact parts —
/// alignment offset, optional rotation, optional atlas scale correction —
/// which the host composes onto the node's global transform, in that
/// order, before drawing.
pub struct ExtractedImageNode {
    /// Position of the element in the draw-order stack; records are emitted
    /// in increasing stack order.
    pub stack_index: usize,
    /// Alignment offset, applied as a translation after the node's global
    /// transform.
    pub offset: RatVec2,
    /// Rotation in radians about the Z axis, applied after the offset.
    pub rotation: Option<Rat>,
    /// Atlas scale correction, applied last; absent for whole images.
    pub post_scale: Option<RatVec2>,
    /// Tint color, passed through unchanged.
    pub color: Rgba,
    /// Source rectangle: the full render size for a whole image (origin
    /// zero), the sub-rectangle in atlas pixel coordinates for an atlas
    /// element.
    pub rect: RatRect,
    /// Non-owning handle of the image the renderer samples.
    pub image: u64,
    /// Overall pixel dimensions of the atlas; absent for whole images.
    pub atlas_size: Option<(u32, u32)>,
    /// Clip rectangle inherited from the node, if any.
    pub clip: Option<RatRect>,
    /// The display scale factor the geometry was resolved under.
    pub scale_factor: Rat,
}

/// One slot of the draw-order stack as the extractor sees it for whole
/// images: `None` when the stack entry is not an image node (or carries
/// conflicting components), `Some` with the node's layout results and
/// element otherwise.
#[derive(Clone, Copy)]
pub struct ImageNodeData {
    /// The node's allocated box after layout.
    pub node_size: RatVec2,
    /// Flex direction of the node's style.
    pub flex: FlexDir,
    pub image: ExactImage,
    /// The externally computed visibility flag.
    pub visible: bool,
    /// Clip rectangle inherited from the node, if any.
    pub clip: Option<RatRect>,
    /// Pixel dimensions of the backing image; `None` while it is unloaded.
    pub texture_size: Option<(u32, u32)>,
}

impl ImageNodeData {
    /// Inputs are in range and a loaded image has at least one pixel on
    /// each axis.
    pub open spec fn wf(self) -> bool {
        &&& self.node_size.in_range()
        &&& self.image.wf()
        &&& match self.texture_size {
            Some(size) => 1 <= size.0 && 1 <= size.1,
            None => true,
        }
    }
}

/// Whether a stack slot produces a record: it must hold an image node that
/// is visible, not tinted fully transparent, and whose image is loaded.
pub open spec fn emits_image(slot: Option<ImageNodeData>) -> bool {
    match slot {
        None => false,
        Some(d) => d.visible && !d.image.color.zero_alpha() && d.texture_size is Some,
    }
}

/// How many of the first `upto` stack slots produce a record.
pub open spec fn image_emit_count(slots: Seq<Option<ImageNodeData>>, upto: int) -> nat
    decreases upto,
{
    if upto <= 0 {
        0
    } else {
        image_emit_count(slots, upto - 1) + if emits_image(slots[upto - 1]) {
            1nat
        } else {
            0nat
        }
    }
}

pub proof fn lemma_image_emit_count_mono(slots: Seq<Option<ImageNodeData>>, a: int, b: int)
    requires
        a <= b,
    ensures
        image_emit_count(slots, a) <= image_emit_count(slots, b),
    decreases b - a,
{
    if a < b {
        lemma_image_emit_count_mono(slots, a, b - 1);
    }
}

/// The record a whole-image slot at stack position `idx` produces.
pub open spec fn image_record_matches(
    r: ExtractedImageNode,
    idx: int,
    d: ImageNodeData,
    sf: Rat,
) -> bool {
    let sw = d.texture_size.unwrap().0;
    let sh = d.texture_size.unwrap().1;
    let w = spec_render_w(d.image.size, d.node_size, d.flex, sw, sh, sf);
    let h = spec_render_h(d.image.size, d.node_size, d.flex, sw, sh, sf);
    &&& r.stack_index == idx
    &&& r.offset.x@ == spec_offset_x(d.image.alignment, d.node_size, w)
    &&& r.offset.y@ == spec_offset_y(d.image.alignment, d.node_size, h)
    &&& r.rotation == d.image.rotation
    &&& r.post_scale == None::<RatVec2>
    &&& r.color == d.image.color
    &&& r.rect.min.x@ == Frac::from_int(0)
    &&& r.rect.min.y@ == Frac::from_int(0)
    &&& r.rect.max.x@ == w
    &&& r.rect.max.y@ == h
    &&& r.image == d.image.texture
    &&& r.atlas_size == None::<(u32, u32)>
    &&& r.clip == d.clip
    &&& r.scale_factor == sf
}

/// Walks the draw-order stack and appends one record per emitting
/// whole-image slot, in stack order.
///
/// Slots that are not image nodes, are invisible, have a zero-alpha tint,
/// or whose image is unloaded are skipped without error. Records already in
/// the buffer are left untouched; the record of an earlier emitting slot
/// precedes that of a later one.
pub fn extract_exact_images(
    slots: &Vec<Option<ImageNodeData>>,
    scale_factor: Rat,
    out: &mut Vec<ExtractedImageNode>,
)
    requires
        scale_factor.in_range(),
        forall|i: int|
            0 <= i < slots@.len() ==> match #[trigger] slots@[i] {
                Some(d) => d.wf(),
                None => true,
            },
    ensures
        final(out)@.len() == old(out)@.len() + image_emit_count(slots@, slots@.len() as int),
        forall|k: int| 0 <= k < old(out)@.len() ==> #[trigger] final(out)@[k] == old(out)@[k],
        forall|i: int|
            0 <= i < slots@.len() && emits_image(#[trigger] slots@[i]) ==> image_record_matches(
                final(out)@[(old(out)@.len() + image_emit_count(slots@, i)) as int],
                i,
                slots@[i].unwrap(),
                scale_factor,
            ),
{
    let ghost out0 = out@;
    let n: usize = slots.len();
    let mut i: usize = 0;
    while i < n
        invariant
            i <= n,
            n == slots@.len(),
            scale_factor.in_range(),
            forall|k: int|
                0 <= k < slots@.len() ==> match #[trigger] slots@[k] {
                    Some(d) => d.wf(),
                    None => true,
                },
            out@.len() == out0.len() + image_emit_count(slots@, i as int),
            forall|k: int| 0 <= k < out0.len() ==> #[trigger] out@[k] == out0[k],
            forall|j: int|
                0 <= j < i && emits_image(#[trigger] slots@[j]) ==> image_record_matches(
                    out@[(out0.len() + image_emit_count(slots@, j)) as int],
                    j,
                    slots@[j].unwrap(),
                    scale_factor,
                ),
        decreases n - i,
    {
        let ghost out_before = out@;
        match slots[i] {
            None => {},
            Some(d) => {
                if d.visible && !d.image.color.a.is_zero() {
                    match d.texture_size {
                        None => {},
                        Some((sw, sh)) => {
                            let size = resolve_render_size(
                                d.image.size,
                                d.node_size,
                                d.flex,
                                sw,
                                sh,
                                scale_factor,
                            );
                            let offset = alignment_offset(d.image.alignment, d.node_size, size);
                            let zero = Rat::from_int(0);
                            out.push(
                                ExtractedImageNode {
                                    stack_index: i,
                                    offset,
                                    rotation: d.image.rotation,
                                    post_scale: None,
                                    color: d.image.color,
                                    rect: RatRect {
                                        min: RatVec2 { x: zero, y: zero },
                                        max: size,
                                    },
                                    image: d.image.texture,
                                    atlas_size: None,
                                    clip: d.clip,
                                    scale_factor,
                                },
                            );
                        },
                    }
                }
            },
        }
        proof {
            let i_ = i as int;
            assert(image_emit_count(slots@, i_ + 1) == image_emit_count(slots@, i_)
                + if emits_image(slots@[i_]) {
                1nat
            } else {
                0nat
            });
            assert forall|j: int|
                0 <= j < i_ + 1 && emits_image(#[trigger] slots@[j]) implies image_record_matches(
                out@[(out0.len() + image_emit_count(slots@, j)) as int],
                j,
                slots@[j].unwrap(),
                scale_factor,
            ) by {
                if j < i_ {
                    lemma_image_emit_count_mono(slots@, j + 1, i_);
                    assert(image_emit_count(slots@, j + 1) == image_emit_count(slots@, j) + 1nat);
                    assert(out@[(out0.len() + image_emit_count(slots@, j)) as int] == out_before[(out0.len() + image_emit_count(slots@, j)) as int]);
                }
            }
        }
        i += 1;
    }
}

/// One slot of the draw-order stack as the extractor sees it for atlas
/// elements.
pub struct AtlasNodeData {
    /// The node's allocated box after layout.
    pub node_size: RatVec2,
    /// Flex direction of the node's style.
    pub flex: FlexDir,
    pub image: ExactAtlasImage,
    /// The externally computed visibility flag.
    pub visible: bool,
    /// Clip rectangle inherited from the node, if any.
    pub clip: Option<RatRect>,
    /// Contents of the referenced atlas; `None` while it is unloaded.
    pub atlas: Option<AtlasInfo>,
    /// Whether the atlas's own backing image is loaded.
    pub texture_loaded: bool,
}

impl AtlasNodeData {
    /// Inputs are in range, the element's index selects a sub-rectangle of
    /// the atlas, and that sub-rectangle has at least one pixel on each
    /// axis.
    pub open spec fn wf(self) -> bool {
        &&& self.node_size.in_range()
        &&& self.image.wf()
        &&& match self.atlas {
            Some(a) => {
                &&& self.image.index < a.textures@.len()
                &&& a.textures@[self.image.index as int].wf()
            },
            None => true,
        }
    }
}

/// Whether a stack slot produces a record: it must hold an atlas element
/// that is visible and not fully transparent, with both the atlas resource
/// and the atlas's backing image loaded.
pub open spec fn emits_atlas(slot: Option<AtlasNodeData>) -> bool {
    match slot {
        None => false,
        Some(d) => d.visible && !d.image.color.zero_alpha() && d.atlas is Some
            && d.texture_loaded,
    }
}

/// How many of the first `upto` stack slots produce a record.
pub open spec fn atlas_emit_count(slots: Seq<Option<AtlasNodeData>>, upto: int) -> nat
    decreases upto,
{
    if upto <= 0 {
        0
    } else {
        atlas_emit_count(slots, upto - 1) + if emits_atlas(slots[upto - 1]) {
            1nat
        } else {
            0nat
        }
    }
}

pub proof fn lemma_atlas_emit_count_mono(slots: Seq<Option<AtlasNodeData>>, a: int, b: int)
    requires
        a <= b,
    ensures
        atlas_emit_count(slots, a) <= atlas_emit_count(slots, b),
    decreases b - a,
{
    if a < b {
        lemma_atlas_emit_count_mono(slots, a, b - 1);
    }
}

/// The record an atlas slot at stack position `idx` produces: the source
/// rectangle is the element's sub-rectangle, and a post scale stretches its
/// native pixel size to the resolved render size.
pub open spec fn atlas_record_matches(
    r: ExtractedImageNode,
    idx: int,
    d: AtlasNodeData,
    sf: Rat,
) -> bool {
    let a = d.atlas.unwrap();
    let rect = a.textures@[d.image.index as int];
    let rw = rect.spec_width();
    let rh = rect.spec_height();
    let w = spec_render_w(d.image.size, d.node_size, d.flex, rw, rh, sf);
    let h = spec_render_h(d.image.size, d.node_size, d.flex, rw, rh, sf);
    &&& r.stack_index == idx
    &&& r.offset.x@ == spec_offset_x(d.image.alignment, d.node_size, w)
    &&& r.offset.y@ == spec_offset_y(d.image.alignment, d.node_size, h)
    &&& r.rotation == d.image.rotation
    &&& r.post_scale is Some
    &&& r.post_scale.unwrap().x@ == spec_atlas_scale(w, rw)
    &&& r.post_scale.unwrap().y@ == spec_atlas_scale(h, rh)
    &&& r.color == d.image.color
    &&& r.rect.min.x@ == Frac::from_int(rect.min_x as int)
    &&& r.rect.min.y@ == Frac::from_int(rect.min_y as int)
    &&& r.rect.max.x@ == Frac::from_int(rect.max_x as int)
    &&& r.rect.max.y@ == Frac::from_int(rect.max_y as int)
    &&& r.image == a.texture
    &&& r.atlas_size == Some(a.size)
    &&& r.clip == d.clip
    &&& r.scale_factor == sf
}

/// Walks the draw-order stack and appends one record per emitting atlas
/// slot, in stack order; the counterpart of [`extract_exact_images`] for
/// atlas elements.
pub fn extract_exact_atlas_images(
    slots: &Vec<Option<AtlasNodeData>>,
    scale_factor: Rat,
    out: &mut Vec<ExtractedImageNode>,
)
    requires
        scale_factor.in_range(),
        forall|i: int|
            0 <= i < slots@.len() ==> match #[trigger] slots@[i] {
                Some(d) => d.wf(),
                None => true,
            },
    ensures
        final(out)@.len() == old(out)@.len() + atlas_emit_count(slots@, slots@.len() as int),
        forall|k: int| 0 <= k < old(out)@.len() ==> #[trigger] final(out)@[k] == old(out)@[k],
        forall|i: int|
            0 <= i < slots@.len() && emits_atlas(#[trigger] slots@[i]) ==> atlas_record_matches(
                final(out)@[(old(out)@.len() + atlas_emit_count(slots@, i)) as int],
                i,
                slots@[i].unwrap(),
                scale_factor,
            ),
{
    let ghost out0 = out@;
    let n: usize = slots.len();
    let mut i: usize = 0;
    while i < n
        invariant
            i <= n,
            n == slots@.len(),
            scale_factor.in_range(),
            forall|k: int|
                0 <= k < slots@.len() ==> match #[trigger] slots@[k] {
                    Some(d) => d.wf(),
                    None => true,
                },
            out@.len() == out0.len() + atlas_emit_count(slots@, i as int),
            forall|k: int| 0 <= k < out0.len() ==> #[trigger] out@[k] == out0[k],
            forall|j: int|
                0 <= j < i && emits_atlas(#[trigger] slots@[j]) ==> atlas_record_matches(
                    out@[(out0.len() + atlas_emit_count(slots@, j)) as int],
                    j,
                    slots@[j].unwrap(),
                    scale_factor,
                ),
        decreases n - i,
    {
        let ghost out_before = out@;
        match &slots[i] {
            None => {},
            Some(d) => {
                if d.visible && !d.image.color.a.is_zero() {
                    match &d.atlas {
                        None => {},
                        Some(a) => {
                            if d.texture_loaded {
                                let rect = a.textures[d.image.index];
                                let rw = rect.width();
                                let rh = rect.height();
                                let size = resolve_render_size(
                                    d.image.size,
                                    d.node_size,
                                    d.flex,
                                    rw,
                                    rh,
                                    scale_factor,
                                );
                                let offset = alignment_offset(
                                    d.image.alignment,
                                    d.node_size,
                                    size,
                                );
                                let scale = atlas_scale(size, rw, rh);
                                out.push(
                                    ExtractedImageNode {
                                        stack_index: i,
                                        offset,
                                        rotation: d.image.rotation,
                                        post_scale: Some(scale),
                                        color: d.image.color,
                                        rect: RatRect {
                                            min: RatVec2 {
                                                x: Rat { num: rect.min_x as i128, den: 1 },
                                                y: Rat { num: rect.min_y as i128, den: 1 },
                                            },
                                            max: RatVec2 {
                                                x: Rat { num: rect.max_x as i128, den: 1 },
                                                y: Rat { num: rect.max_y as i128, den: 1 },
                                            },
                                        },
                                        image: a.texture,
                                        atlas_size: Some(a.size),
                                        clip: d.clip,
                                        scale_factor,
                                    },
                                );
                            }
                        },
                    }
                }
            },
        }
        proof {
            let i_ = i as int;
            assert(atlas_emit_count(slots@, i_ + 1) == atlas_emit_count(slots@, i_)
                + if emits_atlas(slots@[i_]) {
                1nat
            } else {
                0nat
            });
            assert forall|j: int|
                0 <= j < i_ + 1 && emits_atlas(#[trigger] slots@[j]) implies atlas_record_matches(
                out@[(out0.len() + atlas_emit_count(slots@, j)) as int],
                j,
                slots@[j].unwrap(),
                scale_factor,
            ) by {
                if j < i_ {
                    lemma_atlas_emit_count_mono(slots@, j + 1, i_);
                    assert(atlas_emit_count(slots@, j + 1) == atlas_emit_count(slots@, j) + 1nat);
                    assert(out@[(out0.len() + atlas_emit_count(slots@, j)) as int] == out_before[(out0.len() + atlas_emit_count(slots@, j)) as int]);
                }
            }
        }
        i += 1;
    }
}

/// Emitted records keep the draw-order stack's order: of two emitting
/// slots, the earlier one's record stands at the smaller output position.
pub proof fn lemma_image_records_keep_stack_order(
    slots: Seq<Option<ImageNodeData>>,
    i: int,
    j: int,
)
    requires
        0 <= i < j < slots.len(),
        emits_image(slots[i]),
    ensures
        image_emit_count(slots, i) < image_emit_count(slots, j),
{
    lemma_image_emit_count_mono(slots, i + 1, j);
}

/// Emitted records keep the draw-order stack's order; the counterpart of
/// [`lemma_image_records_keep_stack_order`] for atlas elements.
pub proof fn lemma_atlas_records_keep_stack_order(
    slots: Seq<Option<AtlasNodeData>>,
    i: int,
    j: int,
)
    requires
        0 <= i < j < slots.len(),
        emits_atlas(slots[i]),
    ensures
        atlas_emit_count(slots, i) < atlas_emit_count(slots, j),
{
    lemma_atlas_emit_count_mono(slots, i + 1, j);
}

/// A zero-alpha element never emits, whatever its other fields hold.
pub proof fn lemma_zero_alpha_image_not_emitted(d: ImageNodeData)
    requires
        d.image.color.zero_alpha(),
    ensures
        !emits_image(Some(d)),
{
}

/// A zero-alpha atlas element never emits, whatever its other fields hold.
pub proof fn lemma_zero_alpha_atlas_not_emitted(d: AtlasNodeData)
    requires
        d.image.color.zero_alpha(),
    ensures
        !emits_atlas(Some(d)),
{
}

/// A stack in which no slot emits produces no records at all.
pub proof fn lemma_no_emitting_image_slots_no_records(slots: Seq<Option<ImageNodeData>>, n: int)
    requires
        0 <= n <= slots.len(),
        forall|i: int| 0 <= i < n ==> !emits_image(#[trigger] slots[i]),
    ensures
        image_emit_count(slots, n) == 0,
    decreases n,
{
    if n > 0 {
        lemma_no_emitting_image_slots_no_records(slots, n - 1);
    }
}

/// A stack in which no slot emits produces no records at all; the
/// counterpart of [`lemma_no_emitting_image_slots_no_records`] for atlas
/// elements.
pub proof fn lemma_no_emitting_atlas_slots_no_records(slots: Seq<Option<AtlasNodeData>>, n: int)
    requires
        0 <= n <= slots.len(),
        forall|i: int| 0 <= i < n ==> !emits_atlas(#[trigger] slots[i]),
    ensures
        atlas_emit_count(slots, n) == 0,
    decreases n,
{
    if n > 0 {
        lemma_no_emitting_atlas_slots_no_records(slots, n - 1);
    }
}

} // verus!
