use bevy_ui_exact_image::extract::{
    extract_exact_atlas_images, extract_exact_images, AtlasNodeData, ExtractedImageNode,
    ImageNodeData,
};
use bevy_ui_exact_image::model::{
    AtlasInfo, ExactAtlasImage, ExactImage, ExactSize, FlexDir, ImageAlignment, PixelRect, Rgba,
};
use bevy_ui_exact_image::rat::{Rat, RatRect, RatVec2};

fn rat(num: i64, den: i64) -> Rat {
    Rat::new(num, den).unwrap()
}

fn vec2(x: i64, y: i64) -> RatVec2 {
    RatVec2::new(rat(x, 1), rat(y, 1))
}

fn assert_value(r: Rat, num: i128, den: i128) {
    assert!(r.den > 0, "denominator must stay positive");
    assert_eq!(r.num * den, num * r.den, "expected {num}/{den}, got {}/{}", r.num, r.den);
}

fn color_with_alpha(alpha: Rat) -> Rgba {
    Rgba { r: rat(1, 1), g: rat(1, 2), b: rat(1, 4), a: alpha }
}

fn image_slot(texture: u64, visible: bool, alpha: Rat) -> ImageNodeData {
    ImageNodeData {
        node_size: vec2(200, 100),
        flex: FlexDir::Row,
        image: ExactImage {
            texture,
            rotation: None,
            alignment: ImageAlignment::Center,
            color: color_with_alpha(alpha),
            size: ExactSize::FillNode,
        },
        visible,
        clip: None,
        texture_size: Some((40, 30)),
    }
}

#[test]
fn draw_order_is_preserved() {
    // stack [A, B, C]; only B and C pass visibility: records come out [B, C]
    let a = image_slot(10, false, rat(1, 1));
    let b = image_slot(11, true, rat(1, 1));
    let c = image_slot(12, true, rat(1, 1));
    let slots = vec![Some(a), Some(b), Some(c)];
    let mut out: Vec<ExtractedImageNode> = Vec::new();
    extract_exact_images(&slots, rat(1, 1), &mut out);
    assert_eq!(out.len(), 2);
    assert_eq!(out[0].stack_index, 1);
    assert_eq!(out[0].image, 11);
    assert_eq!(out[1].stack_index, 2);
    assert_eq!(out[1].image, 12);
}

#[test]
fn zero_alpha_emits_no_record() {
    let slot = image_slot(10, true, rat(0, 1));
    let slots = vec![Some(slot)];
    let mut out: Vec<ExtractedImageNode> = Vec::new();
    extract_exact_images(&slots, rat(1, 1), &mut out);
    assert_eq!(out.len(), 0);
}

#[test]
fn unloaded_image_emits_no_record() {
    let mut slot = image_slot(10, true, rat(1, 1));
    slot.texture_size = None;
    let slots = vec![Some(slot)];
    let mut out: Vec<ExtractedImageNode> = Vec::new();
    extract_exact_images(&slots, rat(1, 1), &mut out);
    assert_eq!(out.len(), 0);
}

#[test]
fn empty_stack_slots_emit_no_record() {
    let slots: Vec<Option<ImageNodeData>> = vec![None, None];
    let mut out: Vec<ExtractedImageNode> = Vec::new();
    extract_exact_images(&slots, rat(1, 1), &mut out);
    assert_eq!(out.len(), 0);
}

#[test]
fn simple_record_carries_geometry_and_passthrough_fields() {
    let clip = RatRect { min: vec2(1, 2), max: vec2(3, 4) };
    let slot = ImageNodeData {
        node_size: vec2(200, 100),
        flex: FlexDir::Row,
        image: ExactImage {
            texture: 42,
            rotation: Some(rat(7, 4)),
            alignment: ImageAlignment::TopLeft,
            color: color_with_alpha(rat(1, 2)),
            size: ExactSize::Exactly(vec2(100, 100)),
        },
        visible: true,
        clip: Some(clip),
        texture_size: Some((16, 16)),
    };
    let slots = vec![Some(slot)];
    let mut out: Vec<ExtractedImageNode> = Vec::new();
    extract_exact_images(&slots, rat(1, 1), &mut out);
    assert_eq!(out.len(), 1);
    let rec = &out[0];
    assert_eq!(rec.stack_index, 0);
    // render size (100,100) in node (200,100), TopLeft: offset (-50, 0)
    assert_value(rec.offset.x, -50, 1);
    assert_value(rec.offset.y, 0, 1);
    assert_value(rec.rect.min.x, 0, 1);
    assert_value(rec.rect.min.y, 0, 1);
    assert_value(rec.rect.max.x, 100, 1);
    assert_value(rec.rect.max.y, 100, 1);
    assert!(rec.post_scale.is_none());
    assert!(rec.atlas_size.is_none());
    assert_eq!(rec.image, 42);
    let rot = rec.rotation.unwrap();
    assert_value(rot, 7, 4);
    let c = rec.clip.unwrap();
    assert_value(c.min.x, 1, 1);
    assert_value(c.max.y, 4, 1);
    assert_value(rec.color.a, 1, 2);
    assert_value(rec.scale_factor, 1, 1);
}

#[test]
fn records_append_after_existing_ones() {
    let slots = vec![Some(image_slot(10, true, rat(1, 1)))];
    let mut out: Vec<ExtractedImageNode> = Vec::new();
    extract_exact_images(&slots, rat(1, 1), &mut out);
    let more = vec![Some(image_slot(11, true, rat(1, 1)))];
    extract_exact_images(&more, rat(1, 1), &mut out);
    assert_eq!(out.len(), 2);
    assert_eq!(out[0].image, 10);
    assert_eq!(out[1].image, 11);
}

fn atlas_slot(visible: bool, alpha: Rat, loaded: bool) -> AtlasNodeData {
    AtlasNodeData {
        node_size: vec2(128, 128),
        flex: FlexDir::Row,
        image: ExactAtlasImage {
            atlas: 8,
            index: 1,
            rotation: None,
            alignment: ImageAlignment::Center,
            color: color_with_alpha(alpha),
            size: ExactSize::FillNode,
        },
        visible,
        clip: None,
        atlas: Some(AtlasInfo {
            textures: vec![
                PixelRect { min_x: 0, min_y: 0, max_x: 8, max_y: 8 },
                PixelRect { min_x: 16, min_y: 32, max_x: 80, max_y: 96 },
            ],
            texture: 77,
            size: (256, 128),
        }),
        texture_loaded: loaded,
    }
}

#[test]
fn atlas_record_applies_scale_correction() {
    // sub-rectangle native size (64,64), render size (128,128): scale (2,2)
    let slots = vec![Some(atlas_slot(true, rat(1, 1), true))];
    let mut out: Vec<ExtractedImageNode> = Vec::new();
    extract_exact_atlas_images(&slots, rat(1, 1), &mut out);
    assert_eq!(out.len(), 1);
    let rec = &out[0];
    let scale = rec.post_scale.unwrap();
    assert_value(scale.x, 2, 1);
    assert_value(scale.y, 2, 1);
    // the source rectangle is the sub-rectangle in atlas pixels
    assert_value(rec.rect.min.x, 16, 1);
    assert_value(rec.rect.min.y, 32, 1);
    assert_value(rec.rect.max.x, 80, 1);
    assert_value(rec.rect.max.y, 96, 1);
    // the record points at the atlas's backing image and carries its size
    assert_eq!(rec.image, 77);
    assert_eq!(rec.atlas_size, Some((256, 128)));
}

#[test]
fn atlas_zero_alpha_emits_no_record() {
    let slots = vec![Some(atlas_slot(true, rat(0, 1), true))];
    let mut out: Vec<ExtractedImageNode> = Vec::new();
    extract_exact_atlas_images(&slots, rat(1, 1), &mut out);
    assert_eq!(out.len(), 0);
}

#[test]
fn unloaded_atlas_image_emits_no_record() {
    let slots = vec![Some(atlas_slot(true, rat(1, 1), false))];
    let mut out: Vec<ExtractedImageNode> = Vec::new();
    extract_exact_atlas_images(&slots, rat(1, 1), &mut out);
    assert_eq!(out.len(), 0);
}

#[test]
fn unloaded_atlas_resource_emits_no_record() {
    let mut slot = atlas_slot(true, rat(1, 1), true);
    slot.atlas = None;
    let slots = vec![Some(slot)];
    let mut out: Vec<ExtractedImageNode> = Vec::new();
    extract_exact_atlas_images(&slots, rat(1, 1), &mut out);
    assert_eq!(out.len(), 0);
}

#[test]
fn atlas_draw_order_is_preserved() {
    let hidden = atlas_slot(false, rat(1, 1), true);
    let shown_a = atlas_slot(true, rat(1, 1), true);
    let shown_b = atlas_slot(true, rat(1, 1), true);
    let slots = vec![Some(shown_a), Some(hidden), Some(shown_b)];
    let mut out: Vec<ExtractedImageNode> = Vec::new();
    extract_exact_atlas_images(&slots, rat(1, 1), &mut out);
    assert_eq!(out.len(), 2);
    assert_eq!(out[0].stack_index, 0);
    assert_eq!(out[1].stack_index, 2);
}

#[test]
fn atlas_force_preserve_uses_sub_rectangle_aspect() {
    // node (128,192), row-oriented, sub-rectangle 64x32 (2:1):
    // height = 128 * 32 / 64 = 64
    let mut slot = atlas_slot(true, rat(1, 1), true);
    slot.node_size = vec2(128, 192);
    slot.image.size = ExactSize::ForcePreserveAspectRatio;
    slot.atlas = Some(AtlasInfo {
        textures: vec![
            PixelRect { min_x: 0, min_y: 0, max_x: 8, max_y: 8 },
            PixelRect { min_x: 0, min_y: 0, max_x: 64, max_y: 32 },
        ],
        texture: 77,
        size: (256, 128),
    });
    let slots = vec![Some(slot)];
    let mut out: Vec<ExtractedImageNode> = Vec::new();
    extract_exact_atlas_images(&slots, rat(1, 1), &mut out);
    assert_eq!(out.len(), 1);
    // the render size is visible through the scale correction:
    // scale = render / native = (128/64, 64/32) = (2, 2)
    let scale = out[0].post_scale.unwrap();
    assert_value(scale.x, 2, 1);
    assert_value(scale.y, 2, 1);
}

#[test]
fn scale_factor_reaches_every_policy() {
    // Texture policy under scale factor 3/2: 40x30 source gives (60,45)
    let mut slot = image_slot(10, true, rat(1, 1));
    slot.image.size = ExactSize::Texture;
    let slots = vec![Some(slot)];
    let mut out: Vec<ExtractedImageNode> = Vec::new();
    extract_exact_images(&slots, rat(3, 2), &mut out);
    assert_eq!(out.len(), 1);
    assert_value(out[0].rect.max.x, 60, 1);
    assert_value(out[0].rect.max.y, 45, 1);
    assert_value(out[0].scale_factor, 3, 2);
}
