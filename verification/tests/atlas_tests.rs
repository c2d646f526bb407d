use elementipelago::atlas::{AtlasDef, AtlasFrame, AtlasMeta, ImageRect, ImageSize};

fn frame(x: u32, y: u32, w: u32, h: u32) -> AtlasFrame {
    AtlasFrame {
        frame: ImageRect { x, y, w, h },
        rotated: false,
        trimmed: false,
        sprite_source_size: ImageRect { x: 0, y: 0, w, h },
        source_size: ImageSize { w, h },
        duration: 100,
    }
}

fn atlas(frames: Vec<(&str, AtlasFrame)>) -> AtlasDef {
    AtlasDef {
        meta: AtlasMeta {
            app: "app".to_string(),
            version: "1".to_string(),
            image: "atlas.png".to_string(),
            format: "RGBA8888".to_string(),
            size: ImageSize { w: 96, h: 48 },
            scale: "1".to_string(),
        },
        frames: frames.into_iter().map(|(n, f)| (n.to_string(), f)).collect(),
    }
}

#[test]
fn sprite_location_is_that_of_the_named_frame() {
    let def = atlas(vec![("fire", frame(0, 0, 48, 48)), ("water", frame(48, 0, 48, 48))]);
    assert_eq!(def.get_sprite_location("water"), Some(ImageRect { x: 48, y: 0, w: 48, h: 48 }));
    assert_eq!(def.get_sprite_location("fire"), Some(ImageRect { x: 0, y: 0, w: 48, h: 48 }));
    assert_eq!(def.get_sprite_location("earth"), None);
    assert_eq!(atlas(vec![]).get_sprite_location("fire"), None);
}

#[test]
fn the_last_of_two_frames_with_one_name_counts() {
    let def = atlas(vec![("fire", frame(0, 0, 1, 1)), ("fire", frame(2, 2, 3, 3))]);
    assert_eq!(def.get_sprite_location("fire"), Some(ImageRect { x: 2, y: 2, w: 3, h: 3 }));
}

#[test]
fn max_corner_adds_without_wrapping() {
    assert_eq!(ImageRect { x: 1, y: 2, w: 3, h: 4 }.max_corner(), Some((4, 6)));
    assert_eq!(ImageRect { x: u32::MAX, y: 0, w: 0, h: 0 }.max_corner(), Some((u32::MAX, 0)));
    assert_eq!(ImageRect { x: u32::MAX, y: 0, w: 1, h: 0 }.max_corner(), None);
    assert_eq!(ImageRect { x: 0, y: 1, w: 0, h: u32::MAX }.max_corner(), None);
}

#[test]
fn frames_must_lie_inside_the_image() {
    let size = ImageSize { w: 96, h: 48 };
    assert!(ImageRect { x: 48, y: 0, w: 48, h: 48 }.fits(&size));
    assert!(!ImageRect { x: 49, y: 0, w: 48, h: 48 }.fits(&size));
    assert!(!ImageRect { x: 0, y: 1, w: 48, h: 48 }.fits(&size));
    assert!(!ImageRect { x: u32::MAX, y: 0, w: 2, h: 1 }.fits(&size));
    assert!(atlas(vec![("a", frame(0, 0, 48, 48)), ("b", frame(48, 0, 48, 48))]).frames_fit());
    assert!(!atlas(vec![("a", frame(0, 0, 48, 48)), ("b", frame(48, 1, 48, 48))]).frames_fit());
    assert!(atlas(vec![]).frames_fit());
}
