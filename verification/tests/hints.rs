use bevy_ui_exact_image::hints::{
    exact_atlas_image_system, exact_image_system, AtlasSizeEntry, HintStore, ImageSizeEntry,
};
use bevy_ui_exact_image::model::{
    AtlasInfo, ExactAtlasImage, ExactImage, ExactSize, ImageAlignment, PixelRect, Rgba,
};
use bevy_ui_exact_image::rat::Rat;

fn rat(num: i64, den: i64) -> Rat {
    Rat::new(num, den).unwrap()
}

fn opaque_white() -> Rgba {
    Rgba { r: rat(1, 1), g: rat(1, 1), b: rat(1, 1), a: rat(1, 1) }
}

fn image_with(size: ExactSize) -> ExactImage {
    ExactImage {
        texture: 5,
        rotation: None,
        alignment: ImageAlignment::Center,
        color: opaque_white(),
        size,
    }
}

fn atlas_image_with(size: ExactSize, index: usize) -> ExactAtlasImage {
    ExactAtlasImage {
        atlas: 8,
        index,
        rotation: None,
        alignment: ImageAlignment::Center,
        color: opaque_white(),
        size,
    }
}

#[test]
fn non_aspect_policy_removes_hint() {
    let mut store = HintStore::new();
    store.set(1, (5, 5));
    let entries = vec![ImageSizeEntry {
        entity: 1,
        image: image_with(ExactSize::FillNode),
        texture_size: Some((10, 10)),
    }];
    exact_image_system(&entries, &mut store);
    assert_eq!(store.get(1), None);
}

#[test]
fn every_non_aspect_policy_clears_the_hint() {
    let policies = vec![
        ExactSize::FillNode,
        ExactSize::Texture,
        ExactSize::Scaled(bevy_ui_exact_image::rat::RatVec2::new(rat(2, 1), rat(2, 1))),
        ExactSize::Exactly(bevy_ui_exact_image::rat::RatVec2::new(rat(9, 1), rat(9, 1))),
    ];
    for policy in policies {
        let mut store = HintStore::new();
        store.set(1, (5, 5));
        let entries = vec![ImageSizeEntry {
            entity: 1,
            image: image_with(policy),
            texture_size: Some((10, 10)),
        }];
        exact_image_system(&entries, &mut store);
        assert_eq!(store.get(1), None);
    }
}

#[test]
fn attempt_preserve_inserts_texture_size() {
    let mut store = HintStore::new();
    let entries = vec![ImageSizeEntry {
        entity: 1,
        image: image_with(ExactSize::AttemptPreserveAspectRatio),
        texture_size: Some((33, 44)),
    }];
    exact_image_system(&entries, &mut store);
    assert_eq!(store.get(1), Some((33, 44)));
}

#[test]
fn force_preserve_updates_stale_hint() {
    let mut store = HintStore::new();
    let first = vec![ImageSizeEntry {
        entity: 1,
        image: image_with(ExactSize::ForcePreserveAspectRatio),
        texture_size: Some((33, 44)),
    }];
    exact_image_system(&first, &mut store);
    assert_eq!(store.get(1), Some((33, 44)));
    // the asset's dimensions change; the next pass updates the hint
    let second = vec![ImageSizeEntry {
        entity: 1,
        image: image_with(ExactSize::ForcePreserveAspectRatio),
        texture_size: Some((50, 60)),
    }];
    exact_image_system(&second, &mut store);
    assert_eq!(store.get(1), Some((50, 60)));
}

#[test]
fn unloaded_texture_leaves_hint_alone() {
    let mut store = HintStore::new();
    store.set(1, (7, 8));
    let entries = vec![ImageSizeEntry {
        entity: 1,
        image: image_with(ExactSize::FillNode),
        texture_size: None,
    }];
    exact_image_system(&entries, &mut store);
    assert_eq!(store.get(1), Some((7, 8)));
}

#[test]
fn unnamed_entities_keep_their_hints() {
    let mut store = HintStore::new();
    store.set(9, (3, 4));
    let entries = vec![ImageSizeEntry {
        entity: 1,
        image: image_with(ExactSize::AttemptPreserveAspectRatio),
        texture_size: Some((10, 20)),
    }];
    exact_image_system(&entries, &mut store);
    assert_eq!(store.get(9), Some((3, 4)));
    assert_eq!(store.get(1), Some((10, 20)));
}

#[test]
fn atlas_system_uses_sub_rectangle_size() {
    let mut store = HintStore::new();
    let atlas = AtlasInfo {
        textures: vec![
            PixelRect { min_x: 0, min_y: 0, max_x: 16, max_y: 16 },
            PixelRect { min_x: 10, min_y: 10, max_x: 74, max_y: 42 },
        ],
        texture: 77,
        size: (256, 128),
    };
    let entries = vec![AtlasSizeEntry {
        entity: 2,
        image: atlas_image_with(ExactSize::AttemptPreserveAspectRatio, 1),
        atlas: Some(atlas),
    }];
    exact_atlas_image_system(&entries, &mut store);
    assert_eq!(store.get(2), Some((64, 32)));
}

#[test]
fn atlas_system_clears_hint_for_other_policies() {
    let mut store = HintStore::new();
    store.set(2, (64, 32));
    let atlas = AtlasInfo {
        textures: vec![PixelRect { min_x: 0, min_y: 0, max_x: 16, max_y: 16 }],
        texture: 77,
        size: (256, 128),
    };
    let entries = vec![AtlasSizeEntry {
        entity: 2,
        image: atlas_image_with(ExactSize::Texture, 0),
        atlas: Some(atlas),
    }];
    exact_atlas_image_system(&entries, &mut store);
    assert_eq!(store.get(2), None);
}

#[test]
fn unloaded_atlas_leaves_hint_alone() {
    let mut store = HintStore::new();
    store.set(2, (9, 9));
    let entries = vec![AtlasSizeEntry {
        entity: 2,
        image: atlas_image_with(ExactSize::Texture, 0),
        atlas: None,
    }];
    exact_atlas_image_system(&entries, &mut store);
    assert_eq!(store.get(2), Some((9, 9)));
}
