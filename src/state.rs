use vstd::prelude::*;
use vstd::utf8::encode_utf8;

use bevy::math::{URect, UVec2};
use bevy::sprite::TextureAtlasLayout;

use crate::atlas::{corners, rect_fits};
use crate::color::{color_of, AsepriteColor, ColorParseError};
use crate::schema::{AsepriteFrame, AsepriteFrames, AsepriteJson, FrameTag};
use crate::sequence::{indices, AnimationDirection};

verus! {

/// An export feature that cannot be rendered faithfully and is refused.
#[derive(Debug, Clone, Copy, PartialEq, Eq, Structural)]
pub enum UnsupportedFeature {
    FrameRotation,
    SpriteTrimming,
    CelTrimming,
    FramesAsDictionary,
}

pub open spec fn feature_name(f: UnsupportedFeature) -> Seq<char> {
    match f {
        UnsupportedFeature::FrameRotation => "Frame Rotation"@,
        UnsupportedFeature::SpriteTrimming => "Sprite Trimming"@,
        UnsupportedFeature::CelTrimming => "Cel Trimming"@,
        UnsupportedFeature::FramesAsDictionary => "Frames as dictionary"@,
    }
}

impl UnsupportedFeature {
    /// A human-readable name of the feature.
    pub fn name(&self) -> (r: &'static str)
        ensures
            r@ == feature_name(*self),
    {
        match self {
            UnsupportedFeature::FrameRotation => "Frame Rotation",
            UnsupportedFeature::SpriteTrimming => "Sprite Trimming",
            UnsupportedFeature::CelTrimming => "Cel Trimming",
            UnsupportedFeature::FramesAsDictionary => "Frames as dictionary",
        }
    }
}

/// Why a sheet could not be turned into animations.
#[derive(Debug, Clone, Copy, PartialEq, Eq, Structural)]
pub enum AsepriteError {
    /// The export uses a feature that is refused.
    Unsupported(UnsupportedFeature),
    /// A tag's range `(from, to)` is inverted or reaches past the last frame.
    InvalidTagRange(usize, usize),
    /// A tag's color string is malformed.
    Color(ColorParseError),
    /// The far edge of the frame at this absolute index lies beyond `u32`, so its
    /// atlas rectangle cannot be written.
    FrameOutOfBounds(usize),
}

/// The first reason, if any, why a frame cannot contribute to an animation.
pub open spec fn frame_issue(f: AsepriteFrame) -> Option<UnsupportedFeature> {
    if f.rotated {
        Some(UnsupportedFeature::FrameRotation)
    } else if f.trimmed || f.source_size.w != f.frame.w || f.source_size.h != f.frame.h {
        Some(UnsupportedFeature::SpriteTrimming)
    } else if f.frame.w != f.sprite_source_size.w || f.frame.h != f.sprite_source_size.h {
        Some(UnsupportedFeature::CelTrimming)
    } else {
        None
    }
}

/// Why the frame at absolute index `i` refuses its tag, if it does: a refused
/// feature first, then a rectangle that reaches past `u32`.
pub open spec fn frame_error(f: AsepriteFrame, i: usize) -> Option<AsepriteError> {
    match frame_issue(f) {
        Some(e) => Some(AsepriteError::Unsupported(e)),
        None => if rect_fits(f.frame) {
            None
        } else {
            Some(AsepriteError::FrameOutOfBounds(i))
        },
    }
}

/// The first error among the frames visited from position `k` of `order` on.
pub open spec fn first_error(frames: Seq<AsepriteFrame>, order: Seq<usize>, k: int) -> Option<
    AsepriteError,
>
    decreases order.len() - k,
{
    if k < 0 || k >= order.len() {
        None
    } else {
        match frame_error(frames[order[k] as int], order[k]) {
            Some(e) => Some(e),
            None => first_error(frames, order, k + 1),
        }
    }
}

/// Checks one frame for refused features.
pub fn check_frame(frame: &AsepriteFrame) -> (r: Option<UnsupportedFeature>)
    ensures
        r == frame_issue(*frame),
{
    if frame.rotated {
        return Some(UnsupportedFeature::FrameRotation);
    }
    if frame.trimmed || frame.source_size != frame.frame.size() {
        return Some(UnsupportedFeature::SpriteTrimming);
    }
    if frame.frame.size() != frame.sprite_source_size.size() {
        return Some(UnsupportedFeature::CelTrimming);
    }
    None
}

/// What an animation state holds.
pub struct StateModel {
    pub name: Seq<char>,
    pub direction: AnimationDirection,
    pub color: AsepriteColor,
    /// The size of the image that the atlas rectangles lie in.
    pub size: UVec2,
    /// Atlas rectangles by zero-based local frame index.
    pub rects: Seq<URect>,
    /// Display durations (ms) by zero-based local frame index.
    pub durations: Seq<u64>,
}

/// The state that a tag of a sheet yields, or the error that refuses it.
///
/// The map form of the frame collection is refused first; then a range that is
/// inverted or reaches past the last frame; then the first frame, in playback
/// order, with a refused feature or a rectangle beyond `u32`; then a malformed
/// color.
pub open spec fn state_of(tag: FrameTag, sheet: AsepriteJson) -> Result<StateModel, AsepriteError> {
    match sheet.frames {
        AsepriteFrames::Dict(_) => Err(
            AsepriteError::Unsupported(UnsupportedFeature::FramesAsDictionary),
        ),
        AsepriteFrames::List(l) => {
            let order = indices(tag.from, tag.to, tag.direction);
            if tag.from > tag.to || tag.to >= l@.len() {
                Err(AsepriteError::InvalidTagRange(tag.from, tag.to))
            } else if first_error(l@, order, 0) is Some {
                Err(first_error(l@, order, 0)->0)
            } else {
                match color_of(encode_utf8(tag.color@)) {
                    Err(e) => Err(AsepriteError::Color(e)),
                    Ok(c) => Ok(
                        StateModel {
                            name: tag.name@,
                            direction: tag.direction,
                            color: c,
                            size: UVec2 { x: sheet.meta.size.w, y: sheet.meta.size.h },
                            rects: order.map_values(|i: usize| corners(l@[i as int].frame)),
                            durations: order.map_values(|i: usize| l@[i as int].duration),
                        },
                    ),
                }
            }
        },
    }
}

/// One validated animation clip.
#[derive(Debug)]
pub struct AsepriteState {
    pub name: String,
    pub direction: AnimationDirection,
    pub color: AsepriteColor,
    /// The clip's frames in the image, by local index.
    pub atlas: TextureAtlasLayout,
    /// Duration of each frame (ms), by local index.
    pub durations: Vec<u64>,
    pub first: usize,
    pub last: usize,
}

impl View for AsepriteState {
    type V = StateModel;

    open spec fn view(&self) -> StateModel {
        StateModel {
            name: self.name@,
            direction: self.direction,
            color: self.color,
            size: self.atlas.size,
            rects: self.atlas.textures@,
            durations: self.durations@,
        }
    }
}

impl AsepriteState {
    /// Local indices run from `first == 0` to `last`, one per duration and rectangle.
    pub open spec fn wf(&self) -> bool {
        &&& self.first == 0
        &&& self.durations@.len() > 0
        &&& self.last == self.durations@.len() - 1
        &&& self.atlas.textures@.len() == self.durations@.len()
    }

    /// Builds the state of `tag`, or refuses it as [`state_of`] says.
    pub fn new(tag: &FrameTag, aseprite_json: &AsepriteJson) -> (r: Result<Self, AsepriteError>)
        ensures
            match r {
                Ok(s) => s.wf() && state_of(*tag, *aseprite_json) == Ok::<StateModel, AsepriteError>(s@),
                Err(e) => state_of(*tag, *aseprite_json) == Err::<StateModel, AsepriteError>(e),
            },
    {
        let frames = match &aseprite_json.frames {
            AsepriteFrames::Dict(_) => {
                return Err(AsepriteError::Unsupported(UnsupportedFeature::FramesAsDictionary));
            },
            AsepriteFrames::List(l) => l,
        };
        if tag.from > tag.to || tag.to >= frames.len() {
            return Err(AsepriteError::InvalidTagRange(tag.from, tag.to));
        }
        let ghost fs = frames@;
        let ghost order = indices(tag.from, tag.to, tag.direction);
        assert(forall|j: int| 0 <= j < order.len() ==> #[trigger] order[j] < fs.len());
        let mut durations: Vec<u64> = Vec::new();
        let mut atlas = TextureAtlasLayout::new_empty(aseprite_json.meta.size.to_uvec2());
        let mut it = aseprite_json.frames.slice(tag.from, tag.to, tag.direction);
        loop
            invariant
                it.wf(),
                it.frames == &aseprite_json.frames,
                aseprite_json.frames == AsepriteFrames::List(*frames),
                fs == frames@,
                tag.from <= tag.to,
                tag.to < fs.len(),
                fs.len() <= usize::MAX,
                order == indices(tag.from, tag.to, tag.direction),
                order.len() == tag.to - tag.from + 1,
                forall|j: int| 0 <= j < order.len() ==> #[trigger] order[j] < fs.len(),
                durations@.len() <= order.len(),
                it.remaining() == order.skip(durations@.len() as int),
                durations@ == order.take(durations@.len() as int).map_values(
                    |i: usize| fs[i as int].duration,
                ),
                atlas.textures@ == order.take(durations@.len() as int).map_values(
                    |i: usize| corners(fs[i as int].frame),
                ),
                atlas.size == (UVec2 { x: aseprite_json.meta.size.w, y: aseprite_json.meta.size.h }),
                atlas.textures@.len() == durations@.len(),
                first_error(fs, order, 0) == first_error(fs, order, durations@.len() as int),
            ensures
                durations@.len() == order.len(),
            decreases it.remaining().len(),
        {
            let ghost k = durations@.len() as int;
            match it.next_index() {
                None => {
                    assert(order.skip(k).len() == 0);
                    break ;
                },
                Some(i) => {
                    assert(order.skip(k)[0] == order[k]);
                    let frame = &frames[i];
                    if let Some(e) = check_frame(frame) {
                        assert(first_error(fs, order, k) == Some(AsepriteError::Unsupported(e)));
                        return Err(AsepriteError::Unsupported(e));
                    }
                    if !frame.frame.fits() {
                        assert(first_error(fs, order, k) == Some(AsepriteError::FrameOutOfBounds(i)));
                        return Err(AsepriteError::FrameOutOfBounds(i));
                    }
                    atlas.add_texture(frame.frame.to_urect());
                    durations.push(frame.duration);
                    assert(order.take(k + 1) =~= order.take(k).push(order[k]));
                    assert(durations@ =~= order.take(k + 1).map_values(
                        |i: usize| fs[i as int].duration,
                    ));
                    assert(atlas.textures@ =~= order.take(k + 1).map_values(
                        |i: usize| corners(fs[i as int].frame),
                    ));
                    assert(it.remaining() =~= order.skip(k + 1));
                },
            }
        }
        assert(order.take(order.len() as int) =~= order);
        let color = match AsepriteColor::parse(tag.color.as_str()) {
            Ok(c) => c,
            Err(e) => {
                return Err(AsepriteError::Color(e));
            },
        };
        let last = durations.len() - 1;
        Ok(AsepriteState {
            name: tag.name.clone(),
            direction: tag.direction,
            color,
            atlas,
            durations,
            first: 0,
            last,
        })
    }

    pub fn first(&self) -> (r: usize)
        ensures
            r == self.first,
    {
        self.first
    }

    pub fn last(&self) -> (r: usize)
        ensures
            r == self.last,
    {
        self.last
    }

    /// The duration (ms) of the frame at a local index.
    pub fn duration(&self, index: usize) -> (r: Option<u64>)
        requires
            self.wf(),
        ensures
            r == (if index < self.durations@.len() {
                Some(self.durations@[index as int])
            } else {
                None
            }),
    {
        if index < self.durations.len() {
            Some(self.durations[index - self.first])
        } else {
            None
        }
    }

    /// The clip's atlas layout.
    pub fn atlas(&self) -> (r: &TextureAtlasLayout)
        ensures
            r == &self.atlas,
    {
        &self.atlas
    }
}

/// When the frames visited before position `k` refuse nothing, the first error
/// is the one found from `k` on.
proof fn lemma_first_error_skip(frames: Seq<AsepriteFrame>, order: Seq<usize>, k: int)
    requires
        0 <= k <= order.len(),
        forall|j: int| 0 <= j < k ==> frame_error(frames[order[j] as int], #[trigger] order[j]) is None,
    ensures
        first_error(frames, order, 0) == first_error(frames, order, k),
    decreases k,
{
    if k > 0 {
        lemma_first_error_skip(frames, order, k - 1);
        assert(frame_error(frames[order[k - 1] as int], order[k - 1]) is None);
    }
}

/// A sheet whose frames are keyed by name refuses every tag, whatever its range.
pub proof fn lemma_dictionary_rejected(tag: FrameTag, sheet: AsepriteJson)
    requires
        sheet.frames is Dict,
    ensures
        state_of(tag, sheet) == Err::<StateModel, AsepriteError>(
            AsepriteError::Unsupported(UnsupportedFeature::FramesAsDictionary),
        ),
{
}

/// An inverted range is refused with its bounds, in either direction.
pub proof fn lemma_inverted_range_rejected(tag: FrameTag, sheet: AsepriteJson)
    requires
        sheet.frames is List,
        tag.from > tag.to,
    ensures
        state_of(tag, sheet) == Err::<StateModel, AsepriteError>(
            AsepriteError::InvalidTagRange(tag.from, tag.to),
        ),
{
}

/// A rotated frame refuses the tag when no frame visited before it refuses it.
pub proof fn lemma_rotated_frame_rejected(tag: FrameTag, sheet: AsepriteJson, k: int)
    requires
        sheet.frames is List,
        tag.from <= tag.to < sheet.frames->List_0@.len(),
        0 <= k <= tag.to - tag.from,
        sheet.frames->List_0@[indices(tag.from, tag.to, tag.direction)[k] as int].rotated,
        forall|j: int|
            0 <= j < k ==> frame_error(
                sheet.frames->List_0@[indices(tag.from, tag.to, tag.direction)[j] as int],
                #[trigger] indices(tag.from, tag.to, tag.direction)[j],
            ) is None,
    ensures
        state_of(tag, sheet) == Err::<StateModel, AsepriteError>(
            AsepriteError::Unsupported(UnsupportedFeature::FrameRotation),
        ),
{
    let fs = sheet.frames->List_0@;
    let order = indices(tag.from, tag.to, tag.direction);
    lemma_first_error_skip(fs, order, k);
}

/// A state has one duration and one atlas rectangle per frame of its tag's
/// range, in playback order.
pub proof fn lemma_state_frame_count(tag: FrameTag, sheet: AsepriteJson)
    requires
        state_of(tag, sheet) is Ok,
    ensures
        state_of(tag, sheet)->Ok_0.durations.len() == tag.to - tag.from + 1,
        state_of(tag, sheet)->Ok_0.rects.len() == tag.to - tag.from + 1,
        forall|k: int|
            0 <= k <= tag.to - tag.from ==> #[trigger] state_of(tag, sheet)->Ok_0.durations[k]
                == sheet.frames->List_0@[indices(tag.from, tag.to, tag.direction)[k] as int].duration,
{
}

/// The same tag played in the other direction.
pub open spec fn with_direction(tag: FrameTag, direction: AnimationDirection) -> FrameTag {
    FrameTag { direction, ..tag }
}

/// Playing a tag in reverse visits its frames in the opposite order: the
/// durations and atlas rectangles come out reversed.
pub proof fn lemma_reverse_reverses(tag: FrameTag, sheet: AsepriteJson)
    requires
        state_of(with_direction(tag, AnimationDirection::Forward), sheet) is Ok,
    ensures
        state_of(with_direction(tag, AnimationDirection::Reverse), sheet) is Ok,
        state_of(with_direction(tag, AnimationDirection::Reverse), sheet)->Ok_0.durations
            == state_of(with_direction(tag, AnimationDirection::Forward), sheet)->Ok_0.durations.reverse(),
        state_of(with_direction(tag, AnimationDirection::Reverse), sheet)->Ok_0.rects
            == state_of(with_direction(tag, AnimationDirection::Forward), sheet)->Ok_0.rects.reverse(),
{
    let fwd = with_direction(tag, AnimationDirection::Forward);
    let rev = with_direction(tag, AnimationDirection::Reverse);
    let fs = sheet.frames->List_0@;
    let of = indices(tag.from, tag.to, AnimationDirection::Forward);
    let or = indices(tag.from, tag.to, AnimationDirection::Reverse);
    let n = of.len() as int;
    assert forall|k: int| 0 <= k < n implies #[trigger] or[k] == of[n - 1 - k] by {}
    assert forall|k: int| 0 <= k < n implies frame_error(fs[of[k] as int], #[trigger] of[k]) is None by {
        lemma_no_issue(fs, of, 0, k);
    }
    assert forall|k: int| 0 <= k < n implies frame_error(fs[or[k] as int], #[trigger] or[k]) is None by {
        assert(or[k] == of[n - 1 - k]);
        assert(frame_error(fs[of[n - 1 - k] as int], of[n - 1 - k]) is None);
    }
    lemma_first_error_skip(fs, or, n);
    assert(state_of(rev, sheet)->Ok_0.durations =~= state_of(fwd, sheet)->Ok_0.durations.reverse());
    assert(state_of(rev, sheet)->Ok_0.rects =~= state_of(fwd, sheet)->Ok_0.rects.reverse());
}

/// When no error is found from `j` on, the frame at any later position has none.
proof fn lemma_no_issue(frames: Seq<AsepriteFrame>, order: Seq<usize>, j: int, k: int)
    requires
        0 <= j <= k < order.len(),
        first_error(frames, order, j) is None,
    ensures
        frame_error(frames[order[k] as int], order[k]) is None,
    decreases k - j,
{
    if j < k {
        lemma_no_issue(frames, order, j + 1, k);
    }
}

} // verus!
