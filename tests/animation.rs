use std::collections::HashMap;

use bevy::math::{URect, UVec2};

use bevy_aseprite_anim::{
    AnimationDirection, AsepriteAnimation, AsepriteColor, AsepriteError, AsepriteFrame,
    AsepriteFrames, AsepriteJson, AsepriteLoader, AsepriteMeta, AsepriteRect, AsepriteSize,
    AsepriteState, ColorParseError, FrameTag, UnsupportedFeature,
};

fn frame(x: u32, y: u32, w: u32, h: u32, duration: u64) -> AsepriteFrame {
    AsepriteFrame {
        filename: format!("sheet {}.png", x),
        frame: AsepriteRect { x, y, w, h },
        rotated: false,
        trimmed: false,
        sprite_source_size: AsepriteRect { x: 0, y: 0, w, h },
        source_size: AsepriteSize { w, h },
        duration,
    }
}

fn tag(name: &str, from: usize, to: usize, direction: AnimationDirection, color: &str) -> FrameTag {
    FrameTag {
        name: name.to_string(),
        from,
        to,
        direction,
        color: color.to_string(),
    }
}

fn sheet(frames: Vec<AsepriteFrame>, tags: Vec<FrameTag>) -> AsepriteJson {
    AsepriteJson {
        frames: AsepriteFrames::List(frames),
        meta: AsepriteMeta {
            app: "http://www.aseprite.org/".to_string(),
            version: "1.3".to_string(),
            image: "sheet.png".to_string(),
            format: "RGBA8888".to_string(),
            size: AsepriteSize { w: 128, h: 128 },
            scale: "1".to_string(),
            frame_tags: tags,
            layers: None,
            slices: None,
        },
    }
}

fn rect(x0: u32, y0: u32, x1: u32, y1: u32) -> URect {
    URect { min: UVec2::new(x0, y0), max: UVec2::new(x1, y1) }
}

fn three_frames() -> Vec<AsepriteFrame> {
    vec![frame(0, 0, 16, 16, 100), frame(16, 0, 16, 16, 150), frame(32, 0, 16, 16, 200)]
}

fn build(t: FrameTag, frames: Vec<AsepriteFrame>) -> Result<AsepriteState, AsepriteError> {
    let s = sheet(frames, vec![]);
    AsepriteState::new(&t, &s)
}

fn all_indices(frames: &AsepriteFrames, from: usize, to: usize, d: AnimationDirection) -> Vec<usize> {
    let mut it = frames.slice(from, to, d);
    let mut out = Vec::new();
    while let Some(i) = it.next_index() {
        out.push(i);
    }
    assert_eq!(it.next_index(), None);
    assert_eq!(it.next_index(), None);
    out
}

#[test]
fn forward_sequence_is_ascending() {
    let frames = AsepriteFrames::List(vec![]);
    assert_eq!(all_indices(&frames, 3, 7, AnimationDirection::Forward), vec![3, 4, 5, 6, 7]);
    assert_eq!(all_indices(&frames, 2, 2, AnimationDirection::Forward), vec![2]);
}

#[test]
fn reverse_sequence_is_descending() {
    let frames = AsepriteFrames::List(vec![]);
    assert_eq!(all_indices(&frames, 3, 7, AnimationDirection::Reverse), vec![7, 6, 5, 4, 3]);
    assert_eq!(all_indices(&frames, 0, 2, AnimationDirection::Reverse), vec![2, 1, 0]);
}

#[test]
fn sequence_bounds_at_the_ends_of_usize() {
    let frames = AsepriteFrames::List(vec![]);
    assert_eq!(
        all_indices(&frames, usize::MAX - 1, usize::MAX, AnimationDirection::Forward),
        vec![usize::MAX - 1, usize::MAX]
    );
    assert_eq!(all_indices(&frames, 0, 0, AnimationDirection::Reverse), vec![0]);
}

#[test]
fn sequence_of_inverted_range_is_empty() {
    let frames = AsepriteFrames::List(vec![]);
    assert!(all_indices(&frames, 5, 4, AnimationDirection::Forward).is_empty());
    assert!(all_indices(&frames, 5, 4, AnimationDirection::Reverse).is_empty());
}

#[test]
fn frames_iterator_yields_frames_in_playback_order() {
    let frames = AsepriteFrames::List(three_frames());
    let mut it = frames.slice(0, 2, AnimationDirection::Reverse);
    let mut durations = Vec::new();
    while let Some(f) = it.next() {
        durations.push(f.duration);
    }
    assert_eq!(durations, vec![200, 150, 100]);
    assert!(frames.get(3).is_none());
    assert_eq!(frames.get(1).map(|f| f.duration), Some(150));
}

#[test]
fn inverted_range_is_rejected_in_both_directions() {
    for d in [AnimationDirection::Forward, AnimationDirection::Reverse] {
        let r = build(tag("walk", 2, 1, d, "#000000"), three_frames());
        assert_eq!(r.unwrap_err(), AsepriteError::InvalidTagRange(2, 1));
    }
}

#[test]
fn range_past_the_last_frame_is_rejected() {
    let r = build(tag("walk", 1, 3, AnimationDirection::Forward, "#000000"), three_frames());
    assert_eq!(r.unwrap_err(), AsepriteError::InvalidTagRange(1, 3));
}

#[test]
fn color_with_alpha() {
    assert_eq!(
        AsepriteColor::parse("#FF000080"),
        Ok(AsepriteColor { red: 255, green: 0, blue: 0, alpha: 128 })
    );
}

#[test]
fn color_without_alpha_is_opaque() {
    assert_eq!(
        AsepriteColor::parse("#00FF00"),
        Ok(AsepriteColor { red: 0, green: 255, blue: 0, alpha: 255 })
    );
    assert_eq!(
        AsepriteColor::parse("#a1b2c3"),
        Ok(AsepriteColor { red: 0xa1, green: 0xb2, blue: 0xc3, alpha: 255 })
    );
}

#[test]
fn color_without_hash_is_rejected() {
    assert_eq!(AsepriteColor::parse("FF000080F"), Err(ColorParseError::NoHashtag));
    assert_eq!(AsepriteColor::parse("x00FF00"), Err(ColorParseError::NoHashtag));
}

#[test]
fn color_of_wrong_length_is_rejected() {
    assert_eq!(AsepriteColor::parse("#FF000"), Err(ColorParseError::WrongLength(6)));
    assert_eq!(AsepriteColor::parse("#FF00000"), Err(ColorParseError::WrongLength(8)));
    assert_eq!(AsepriteColor::parse("#FF0000800"), Err(ColorParseError::WrongLength(10)));
    assert_eq!(AsepriteColor::parse(""), Err(ColorParseError::WrongLength(0)));
}

#[test]
fn color_with_bad_digit_is_rejected() {
    assert_eq!(AsepriteColor::parse("#GG0000"), Err(ColorParseError::InvalidHexDigit(1)));
    assert_eq!(AsepriteColor::parse("#00FF0Z"), Err(ColorParseError::InvalidHexDigit(6)));
    assert_eq!(AsepriteColor::parse("#00FF00+1"), Err(ColorParseError::InvalidHexDigit(7)));
}

#[test]
fn rotated_frame_is_rejected() {
    let mut frames = three_frames();
    frames[1].rotated = true;
    let r = build(tag("walk", 0, 2, AnimationDirection::Forward, "#000000"), frames);
    assert_eq!(r.unwrap_err(), AsepriteError::Unsupported(UnsupportedFeature::FrameRotation));
}

#[test]
fn first_issue_in_playback_order_wins() {
    let mut frames = three_frames();
    frames[0].rotated = true;
    frames[2].trimmed = true;
    let fwd = build(tag("walk", 0, 2, AnimationDirection::Forward, "#000000"), frames.clone());
    assert_eq!(fwd.unwrap_err(), AsepriteError::Unsupported(UnsupportedFeature::FrameRotation));
    let rev = build(tag("walk", 0, 2, AnimationDirection::Reverse, "#000000"), frames);
    assert_eq!(rev.unwrap_err(), AsepriteError::Unsupported(UnsupportedFeature::SpriteTrimming));
}

#[test]
fn trimmed_frames_are_rejected() {
    let mut frames = three_frames();
    frames[0].source_size = AsepriteSize { w: 20, h: 16 };
    let r = build(tag("walk", 0, 0, AnimationDirection::Forward, "#000000"), frames);
    assert_eq!(r.unwrap_err(), AsepriteError::Unsupported(UnsupportedFeature::SpriteTrimming));

    let mut frames = three_frames();
    frames[0].sprite_source_size = AsepriteRect { x: 0, y: 0, w: 16, h: 12 };
    let r = build(tag("walk", 0, 0, AnimationDirection::Forward, "#000000"), frames);
    assert_eq!(r.unwrap_err(), AsepriteError::Unsupported(UnsupportedFeature::CelTrimming));
}

#[test]
fn malformed_tag_color_is_rejected() {
    let r = build(tag("walk", 0, 2, AnimationDirection::Forward, "000000"), three_frames());
    assert_eq!(r.unwrap_err(), AsepriteError::Color(ColorParseError::WrongLength(6)));
}

#[test]
fn durations_follow_direction() {
    let fwd = build(tag("walk", 0, 2, AnimationDirection::Forward, "#000000"), three_frames()).unwrap();
    assert_eq!(fwd.durations, vec![100, 150, 200]);
    assert_eq!((fwd.first(), fwd.last()), (0, 2));
    assert_eq!(fwd.duration(2), Some(200));
    assert_eq!(fwd.duration(3), None);
    let rev = build(tag("walk", 0, 2, AnimationDirection::Reverse, "#000000"), three_frames()).unwrap();
    assert_eq!(rev.durations, vec![200, 150, 100]);
    assert_eq!(rev.atlas().textures[0], rect(32, 0, 48, 16));
}

#[test]
fn dictionary_frames_are_rejected() {
    let mut map = HashMap::new();
    map.insert("sheet 0.aseprite".to_string(), frame(0, 0, 16, 16, 100));
    let mut s = sheet(vec![], vec![]);
    s.frames = AsepriteFrames::Dict(map);
    for t in [
        tag("a", 0, 0, AnimationDirection::Forward, "#000000"),
        tag("b", 5, 1, AnimationDirection::Reverse, "#000000"),
    ] {
        assert_eq!(
            AsepriteState::new(&t, &s).unwrap_err(),
            AsepriteError::Unsupported(UnsupportedFeature::FramesAsDictionary)
        );
    }
    assert!(s.frames.get(0).is_none());
}

#[test]
fn later_tag_of_the_same_name_wins() {
    let s = sheet(
        three_frames(),
        vec![
            tag("walk", 0, 1, AnimationDirection::Forward, "#000000"),
            tag("run", 2, 2, AnimationDirection::Forward, "#000000"),
            tag("walk", 1, 2, AnimationDirection::Reverse, "#FFFFFF"),
        ],
    );
    let anim = AsepriteAnimation::new(s).unwrap();
    assert_eq!(anim.states().len(), 2);
    let walk = anim.get("walk").unwrap();
    assert_eq!(walk.durations, vec![200, 150]);
    assert_eq!(walk.direction, AnimationDirection::Reverse);
    assert_eq!(walk.color, AsepriteColor { red: 255, green: 255, blue: 255, alpha: 255 });
    assert!(anim.get("jump").is_none());
}

#[test]
fn first_refused_tag_refuses_the_sheet() {
    let mut frames = three_frames();
    frames[2].rotated = true;
    let s = sheet(
        frames,
        vec![
            tag("walk", 0, 1, AnimationDirection::Forward, "#000000"),
            tag("run", 2, 1, AnimationDirection::Forward, "#000000"),
            tag("jump", 2, 2, AnimationDirection::Forward, "#000000"),
        ],
    );
    assert_eq!(AsepriteAnimation::new(s).unwrap_err(), AsepriteError::InvalidTagRange(2, 1));
}

#[test]
fn end_to_end_sheet() {
    let s = sheet(
        vec![frame(0, 0, 64, 64, 80), frame(64, 0, 64, 64, 120)],
        vec![tag("idle", 0, 1, AnimationDirection::Forward, "#112233")],
    );
    let anim = AsepriteLoader.load(s).unwrap();
    assert_eq!(anim.image(), "sheet.png");
    let idle = anim.get("idle").unwrap();
    assert_eq!(idle.name, "idle");
    assert_eq!(idle.durations, vec![80, 120]);
    let c = idle.color;
    let rgba = [c.red, c.green, c.blue, c.alpha].map(|v| v as f32 / 255.0);
    for (got, want) in rgba.iter().zip([0.0667f32, 0.1333, 0.2, 1.0]) {
        assert!((got - want).abs() < 1e-3);
    }
    assert_eq!(idle.atlas.size, UVec2::new(128, 128));
    assert_eq!(idle.atlas.textures, vec![rect(0, 0, 64, 64), rect(64, 0, 128, 64)]);
}

#[test]
fn feature_names() {
    assert_eq!(UnsupportedFeature::FrameRotation.name(), "Frame Rotation");
    assert_eq!(UnsupportedFeature::SpriteTrimming.name(), "Sprite Trimming");
    assert_eq!(UnsupportedFeature::CelTrimming.name(), "Cel Trimming");
    assert_eq!(UnsupportedFeature::FramesAsDictionary.name(), "Frames as dictionary");
}

#[test]
fn frame_beyond_u32_is_rejected_only_when_visited() {
    let mut frames = three_frames();
    frames[1].frame = AsepriteRect { x: u32::MAX - 3, y: 0, w: 3, h: 16 };
    frames[1].sprite_source_size = AsepriteRect { x: 0, y: 0, w: 3, h: 16 };
    frames[1].source_size = AsepriteSize { w: 3, h: 16 };
    assert_eq!(frames[1].frame.to_urect(), rect(u32::MAX - 3, 0, u32::MAX, 16));
    frames[2].frame.x = u32::MAX - 2;
    let s = sheet(
        frames.clone(),
        vec![tag("walk", 0, 1, AnimationDirection::Forward, "#000000")],
    );
    let walk = AsepriteLoader.load(s).unwrap();
    assert_eq!(walk.get("walk").unwrap().atlas.textures[1], rect(u32::MAX - 3, 0, u32::MAX, 16));
    let r = build(tag("run", 1, 2, AnimationDirection::Forward, "#000000"), frames);
    assert_eq!(r.unwrap_err(), AsepriteError::FrameOutOfBounds(2));
    assert_eq!(AsepriteSize { w: 3, h: 5 }.to_uvec2(), UVec2::new(3, 5));
}

#[test]
fn frames_iterator_stays_exhausted_after_none() {
    let frames = AsepriteFrames::List(vec![frame(0, 0, 16, 16, 100)]);
    let mut it = frames.slice(0, 1, AnimationDirection::Reverse);
    assert!(it.next().is_none());
    assert!(it.next().is_none());
    assert_eq!(it.next_index(), None);
}
