//! The sizing and alignment formulas.
//!
//! Each formula is written once as a spec function over exact fractions and
//! once as executable code whose contract says it computes that fraction,
//! with every intermediate product proved to fit the machine integers.

use vstd::prelude::*;
use crate::rat::{Frac, Rat, RatVec2, COORD_LIMIT};
use crate::model::{ExactSize, FlexDir, ImageAlignment};

verus! {

/// Largest numerator magnitude a resolved render size can reach: an input
/// coordinate times a pixel count times a scale factor.
pub const SIZE_NUM_LIMIT: i128 = COORD_LIMIT * 0x1_0000_0000 * COORD_LIMIT;

/// Largest denominator a resolved render size can reach: an input
/// denominator times a pixel count.
pub const SIZE_DEN_LIMIT: i128 = COORD_LIMIT * 0x1_0000_0000;

/// Bounds that hold of every resolved render size.
pub open spec fn size_in_range(r: Rat) -> bool {
    &&& -SIZE_NUM_LIMIT <= r.num <= SIZE_NUM_LIMIT
    &&& 0 < r.den <= SIZE_DEN_LIMIT
}

pub proof fn lemma_mul_bound(a: int, b: int, aa: int, bb: int)
    by (nonlinear_arith)
    requires
        -aa <= a <= aa,
        -bb <= b <= bb,
        0 <= aa,
        0 <= bb,
    ensures
        -(aa * bb) <= a * b <= aa * bb,
{
}

pub proof fn lemma_mul_pos(a: int, b: int)
    by (nonlinear_arith)
    requires
        0 < a,
        0 < b,
    ensures
        0 < a * b,
{
}

/// Width of the final render size, as the exact fraction the sizing policy
/// prescribes. `sw`/`sh` are the source pixel dimensions (the texture's for
/// a whole image, the sub-rectangle's for an atlas element), `sf` the
/// display scale factor.
pub open spec fn spec_render_w(
    sizing: ExactSize,
    node: RatVec2,
    flex: FlexDir,
    sw: u32,
    sh: u32,
    sf: Rat,
) -> Frac {
    match sizing {
        ExactSize::AttemptPreserveAspectRatio => node.x@,
        ExactSize::FillNode => node.x@,
        ExactSize::ForcePreserveAspectRatio => if flex.is_column() {
            // width follows from the node height and the source aspect:
            // node.y / (sh / sw)
            Frac { num: node.y@.num * sw, den: node.y@.den * sh }
        } else {
            node.x@
        },
        ExactSize::Texture => Frac { num: sw * sf@.num, den: sf@.den },
        ExactSize::Scaled(v) => Frac { num: v.x@.num * sw * sf@.num, den: v.x@.den * sf@.den },
        ExactSize::Exactly(v) => Frac { num: v.x@.num * sf@.num, den: v.x@.den * sf@.den },
    }
}

/// Height of the final render size; mirror of [`spec_render_w`].
pub open spec fn spec_render_h(
    sizing: ExactSize,
    node: RatVec2,
    flex: FlexDir,
    sw: u32,
    sh: u32,
    sf: Rat,
) -> Frac {
    match sizing {
        ExactSize::AttemptPreserveAspectRatio => node.y@,
        ExactSize::FillNode => node.y@,
        ExactSize::ForcePreserveAspectRatio => if flex.is_column() {
            node.y@
        } else {
            // height follows from the node width and the source aspect:
            // node.x * (sh / sw)
            Frac { num: node.x@.num * sh, den: node.x@.den * sw }
        },
        ExactSize::Texture => Frac { num: sh * sf@.num, den: sf@.den },
        ExactSize::Scaled(v) => Frac { num: v.y@.num * sh * sf@.num, den: v.y@.den * sf@.den },
        ExactSize::Exactly(v) => Frac { num: v.y@.num * sf@.num, den: v.y@.den * sf@.den },
    }
}

/// Horizontal alignment offset: low-edge policies shift by half the size
/// difference toward the low edge, high-edge policies by the mirror amount,
/// centered policies not at all; an anchor shifts by its fraction of the
/// node width.
pub open spec fn spec_offset_x(align: ImageAlignment, node: RatVec2, sw: Frac) -> Frac {
    match align {
        ImageAlignment::TopLeft | ImageAlignment::CenterLeft | ImageAlignment::BottomLeft => (Frac {
            num: sw.num * node.x@.den - node.x@.num * sw.den,
            den: 2 * sw.den * node.x@.den,
        }),
        ImageAlignment::TopCenter | ImageAlignment::Center | ImageAlignment::BottomCenter => (Frac {
            num: 0,
            den: 1,
        }),
        ImageAlignment::TopRight | ImageAlignment::CenterRight | ImageAlignment::BottomRight => (Frac {
            num: node.x@.num * sw.den - sw.num * node.x@.den,
            den: 2 * node.x@.den * sw.den,
        }),
        ImageAlignment::Anchor(v) => (Frac {
            num: v.x@.num * node.x@.num,
            den: v.x@.den * node.x@.den,
        }),
    }
}

/// Vertical alignment offset; mirror of [`spec_offset_x`], except that an
/// anchor's vertical fraction is additionally halved.
pub open spec fn spec_offset_y(align: ImageAlignment, node: RatVec2, sh: Frac) -> Frac {
    match align {
        ImageAlignment::TopLeft | ImageAlignment::TopCenter | ImageAlignment::TopRight => (Frac {
            num: sh.num * node.y@.den - node.y@.num * sh.den,
            den: 2 * sh.den * node.y@.den,
        }),
        ImageAlignment::CenterLeft | ImageAlignment::Center | ImageAlignment::CenterRight => (Frac {
            num: 0,
            den: 1,
        }),
        ImageAlignment::BottomLeft | ImageAlignment::BottomCenter | ImageAlignment::BottomRight => (Frac {
            num: node.y@.num * sh.den - sh.num * node.y@.den,
            den: 2 * node.y@.den * sh.den,
        }),
        ImageAlignment::Anchor(v) => (Frac {
            num: v.y@.num * node.y@.num,
            den: 2 * v.y@.den * node.y@.den,
        }),
    }
}

/// Per-axis scale that stretches an atlas sub-rectangle of native width
/// `rw` to the resolved render width: `size / rw`.
pub open spec fn spec_atlas_scale(size: Frac, rw: u32) -> Frac {
    Frac { num: size.num, den: size.den * rw }
}

/// `a * k * sf`: a policy factor times a pixel count times the scale factor.
fn rat_scale_px(a: Rat, k: u32, sf: Rat) -> (r: Rat)
    requires
        a.in_range(),
        sf.in_range(),
    ensures
        r@ == (Frac { num: a@.num * k * sf@.num, den: a@.den * sf@.den }),
        size_in_range(r),
{
    proof {
        lemma_mul_bound(a.num as int, k as int, COORD_LIMIT as int, 0xFFFF_FFFF);
        lemma_mul_bound(a.num * k, sf.num as int, COORD_LIMIT * 0xFFFF_FFFF, COORD_LIMIT as int);
        lemma_mul_bound(a.den as int, sf.den as int, COORD_LIMIT as int, COORD_LIMIT as int);
        lemma_mul_pos(a.den as int, sf.den as int);
    }
    let num: i128 = a.num * (k as i128) * sf.num;
    let den: i128 = a.den * sf.den;
    Rat { num, den }
}

/// `k * sf`: a pixel count times the scale factor.
fn rat_px_times(k: u32, sf: Rat) -> (r: Rat)
    requires
        sf.in_range(),
    ensures
        r@ == (Frac { num: k * sf@.num, den: sf@.den }),
        size_in_range(r),
{
    proof {
        lemma_mul_bound(k as int, sf.num as int, 0xFFFF_FFFF, COORD_LIMIT as int);
    }
    Rat { num: (k as i128) * sf.num, den: sf.den }
}

/// `a * sf`: a literal size times the scale factor.
fn rat_times(a: Rat, sf: Rat) -> (r: Rat)
    requires
        a.in_range(),
        sf.in_range(),
    ensures
        r@ == (Frac { num: a@.num * sf@.num, den: a@.den * sf@.den }),
        size_in_range(r),
{
    proof {
        lemma_mul_bound(a.num as int, sf.num as int, COORD_LIMIT as int, COORD_LIMIT as int);
        lemma_mul_bound(a.den as int, sf.den as int, COORD_LIMIT as int, COORD_LIMIT as int);
        lemma_mul_pos(a.den as int, sf.den as int);
    }
    Rat { num: a.num * sf.num, den: a.den * sf.den }
}

/// `a * k / d`: one node axis stretched by a source aspect ratio.
fn rat_px_ratio(a: Rat, k: u32, d: u32) -> (r: Rat)
    requires
        a.in_range(),
        1 <= d,
    ensures
        r@ == (Frac { num: a@.num * k, den: a@.den * d }),
        size_in_range(r),
{
    proof {
        lemma_mul_bound(a.num as int, k as int, COORD_LIMIT as int, 0xFFFF_FFFF);
        lemma_mul_bound(a.den as int, d as int, COORD_LIMIT as int, 0xFFFF_FFFF);
        lemma_mul_pos(a.den as int, d as int);
    }
    Rat { num: a.num * (k as i128), den: a.den * (d as i128) }
}

/// Resolves the final render size of an element per its sizing policy.
///
/// `sw`/`sh` are the source pixel dimensions, `sf` the display scale
/// factor. The node box is used as-is by the policies that keep it, and as
/// the base axis for `ForcePreserveAspectRatio`, whose derived axis is
/// picked by the node's flex direction.
pub fn resolve_render_size(
    sizing: ExactSize,
    node: RatVec2,
    flex: FlexDir,
    sw: u32,
    sh: u32,
    sf: Rat,
) -> (r: RatVec2)
    requires
        sizing.wf(),
        node.in_range(),
        sf.in_range(),
        1 <= sw,
        1 <= sh,
    ensures
        r.x@ == spec_render_w(sizing, node, flex, sw, sh, sf),
        r.y@ == spec_render_h(sizing, node, flex, sw, sh, sf),
        size_in_range(r.x),
        size_in_range(r.y),
{
    match sizing {
        ExactSize::AttemptPreserveAspectRatio => node,
        ExactSize::FillNode => node,
        ExactSize::ForcePreserveAspectRatio => {
            if matches!(flex, FlexDir::Column | FlexDir::ColumnReverse) {
                RatVec2 { x: rat_px_ratio(node.y, sw, sh), y: node.y }
            } else {
                RatVec2 { x: node.x, y: rat_px_ratio(node.x, sh, sw) }
            }
        },
        ExactSize::Texture => RatVec2 { x: rat_px_times(sw, sf), y: rat_px_times(sh, sf) },
        ExactSize::Scaled(v) => RatVec2 {
            x: rat_scale_px(v.x, sw, sf),
            y: rat_scale_px(v.y, sh, sf),
        },
        ExactSize::Exactly(v) => RatVec2 { x: rat_times(v.x, sf), y: rat_times(v.y, sf) },
    }
}

/// `(a - b) / 2`, kept as the exact fraction over `2 * a.den * b.den`.
fn half_diff(a: Rat, b: Rat) -> (r: Rat)
    requires
        size_in_range(a) && b.in_range() || a.in_range() && size_in_range(b),
    ensures
        r@ == (Frac { num: a@.num * b@.den - b@.num * a@.den, den: 2 * a@.den * b@.den }),
        r.wf(),
{
    proof {
        if size_in_range(a) && b.in_range() {
            lemma_mul_bound(a.num as int, b.den as int, SIZE_NUM_LIMIT as int, COORD_LIMIT as int);
            lemma_mul_bound(b.num as int, a.den as int, COORD_LIMIT as int, SIZE_DEN_LIMIT as int);
            lemma_mul_bound(a.den as int, b.den as int, SIZE_DEN_LIMIT as int, COORD_LIMIT as int);
        } else {
            lemma_mul_bound(a.num as int, b.den as int, COORD_LIMIT as int, SIZE_DEN_LIMIT as int);
            lemma_mul_bound(b.num as int, a.den as int, SIZE_NUM_LIMIT as int, COORD_LIMIT as int);
        }
        lemma_mul_bound(
            2 * (a.den as int),
            b.den as int,
            2 * SIZE_DEN_LIMIT as int,
            SIZE_DEN_LIMIT as int,
        );
        lemma_mul_pos(2 * (a.den as int), b.den as int);
    }
    Rat { num: a.num * b.den - b.num * a.den, den: 2 * a.den * b.den }
}

/// `a * b` for two input-range factors.
fn in_range_prod(a: Rat, b: Rat) -> (r: Rat)
    requires
        a.in_range(),
        b.in_range(),
    ensures
        r@ == (Frac { num: a@.num * b@.num, den: a@.den * b@.den }),
        r.wf(),
{
    proof {
        lemma_mul_bound(a.num as int, b.num as int, COORD_LIMIT as int, COORD_LIMIT as int);
        lemma_mul_bound(a.den as int, b.den as int, COORD_LIMIT as int, COORD_LIMIT as int);
        lemma_mul_pos(a.den as int, b.den as int);
    }
    Rat { num: a.num * b.num, den: a.den * b.den }
}

/// `a * b / 2` for two input-range factors.
fn in_range_half_prod(a: Rat, b: Rat) -> (r: Rat)
    requires
        a.in_range(),
        b.in_range(),
    ensures
        r@ == (Frac { num: a@.num * b@.num, den: 2 * a@.den * b@.den }),
        r.wf(),
{
    proof {
        lemma_mul_bound(a.num as int, b.num as int, COORD_LIMIT as int, COORD_LIMIT as int);
        lemma_mul_bound(2 * (a.den as int), b.den as int, 2 * COORD_LIMIT as int, COORD_LIMIT as int);
        lemma_mul_pos(2 * (a.den as int), b.den as int);
    }
    Rat { num: a.num * b.num, den: 2 * a.den * b.den }
}

/// Computes the alignment offset of the image inside its node box, per
/// axis, from the alignment policy, the node box and the resolved render
/// size.
pub fn alignment_offset(align: ImageAlignment, node: RatVec2, size: RatVec2) -> (r: RatVec2)
    requires
        align.wf(),
        node.in_range(),
        size_in_range(size.x),
        size_in_range(size.y),
    ensures
        r.x@ == spec_offset_x(align, node, size.x@),
        r.y@ == spec_offset_y(align, node, size.y@),
        r.wf(),
{
    let zero = Rat::from_int(0);
    let x = match align {
        ImageAlignment::TopLeft | ImageAlignment::CenterLeft | ImageAlignment::BottomLeft => {
            half_diff(size.x, node.x)
        },
        ImageAlignment::TopCenter | ImageAlignment::Center | ImageAlignment::BottomCenter => zero,
        ImageAlignment::TopRight | ImageAlignment::CenterRight | ImageAlignment::BottomRight => {
            half_diff(node.x, size.x)
        },
        ImageAlignment::Anchor(v) => in_range_prod(v.x, node.x),
    };
    let y = match align {
        ImageAlignment::TopLeft | ImageAlignment::TopCenter | ImageAlignment::TopRight => {
            half_diff(size.y, node.y)
        },
        ImageAlignment::CenterLeft | ImageAlignment::Center | ImageAlignment::CenterRight => zero,
        ImageAlignment::BottomLeft | ImageAlignment::BottomCenter | ImageAlignment::BottomRight => {
            half_diff(node.y, size.y)
        },
        ImageAlignment::Anchor(v) => in_range_half_prod(v.y, node.y),
    };
    RatVec2 { x, y }
}

/// Computes the per-axis scale that stretches an atlas sub-rectangle of
/// native pixel size `rw` x `rh` to the resolved render size.
pub fn atlas_scale(size: RatVec2, rw: u32, rh: u32) -> (r: RatVec2)
    requires
        size_in_range(size.x),
        size_in_range(size.y),
        1 <= rw,
        1 <= rh,
    ensures
        r.x@ == spec_atlas_scale(size.x@, rw),
        r.y@ == spec_atlas_scale(size.y@, rh),
        r.wf(),
{
    proof {
        lemma_mul_bound(size.x.den as int, rw as int, SIZE_DEN_LIMIT as int, 0xFFFF_FFFF);
        lemma_mul_bound(size.y.den as int, rh as int, SIZE_DEN_LIMIT as int, 0xFFFF_FFFF);
        lemma_mul_pos(size.x.den as int, rw as int);
        lemma_mul_pos(size.y.den as int, rh as int);
    }
    RatVec2 {
        x: Rat { num: size.x.num, den: size.x.den * (rw as i128) },
        y: Rat { num: size.y.num, den: size.y.den * (rh as i128) },
    }
}

/// A fraction stretched by a pixel count: `f * k`.
pub open spec fn mul_px(f: Frac, k: u32) -> Frac {
    Frac { num: f.num * k, den: f.den }
}

/// Under `ForcePreserveAspectRatio` the resolved render size keeps the
/// source aspect ratio exactly, whichever axis was derived: render width
/// times source height equals render height times source width, as
/// rationals.
pub proof fn lemma_force_preserve_keeps_source_aspect(
    node: RatVec2,
    flex: FlexDir,
    sw: u32,
    sh: u32,
    sf: Rat,
)
    requires
        node.wf(),
        1 <= sw,
        1 <= sh,
    ensures
        mul_px(spec_render_w(ExactSize::ForcePreserveAspectRatio, node, flex, sw, sh, sf), sh).eqv(
            mul_px(spec_render_h(ExactSize::ForcePreserveAspectRatio, node, flex, sw, sh, sf), sw),
        ),
{
    if flex.is_column() {
        assert((node.y@.num * sw * sh) * node.y@.den == node.y@.num * sw * (node.y@.den * sh))
            by (nonlinear_arith);
    } else {
        assert((node.x@.num * sh) * (node.x@.den * sw) == (node.x@.num * sh * sw) * node.x@.den)
            by (nonlinear_arith);
    }
}

/// The atlas scale correction stretches the sub-rectangle's native pixel
/// size back to the resolved render size exactly: scale times native size
/// equals render size, as rationals.
pub proof fn lemma_atlas_scale_restores_render_size(size: Frac, rw: u32)
    requires
        1 <= rw,
    ensures
        mul_px(spec_atlas_scale(size, rw), rw).eqv(size),
{
    assert((size.num * rw) * size.den == size.num * (size.den * rw)) by (nonlinear_arith);
}

/// The render size under the `Texture` policy depends on the source pixel
/// size and the scale factor alone: the node box and flex direction do not
/// enter it.
pub proof fn lemma_texture_size_ignores_node(
    node1: RatVec2,
    node2: RatVec2,
    flex1: FlexDir,
    flex2: FlexDir,
    sw: u32,
    sh: u32,
    sf: Rat,
)
    ensures
        spec_render_w(ExactSize::Texture, node1, flex1, sw, sh, sf) == spec_render_w(
            ExactSize::Texture,
            node2,
            flex2,
            sw,
            sh,
            sf,
        ),
        spec_render_h(ExactSize::Texture, node1, flex1, sw, sh, sf) == spec_render_h(
            ExactSize::Texture,
            node2,
            flex2,
            sw,
            sh,
            sf,
        ),
{
}

} // verus!
