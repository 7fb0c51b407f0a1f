//! Interpretation of Aseprite JSON sprite-sheet exports as validated animation sets.
mod animation;
mod atlas;
mod color;
mod loader;
mod schema;
mod sequence;
mod state;

pub use animation::{
    animation_of, lemma_later_tag_wins, names_unique, states_map, states_upto, AnimationModel,
    AsepriteAnimation,
};
pub use atlas::{corners, rect_fits};
pub use color::{
    color_of, first_non_hex, hex_byte, hex_value, lemma_color_shape_errors, AsepriteColor,
    ColorParseError,
};
pub use loader::{AsepriteLoader, AsepritePlugin};
pub use schema::{
    AsepriteFrame, AsepriteFrames, AsepriteJson, AsepriteLayer, AsepriteMeta, AsepriteRect,
    AsepriteSize, BlendMode, FrameTag,
};
pub use sequence::{
    indices, lemma_forward_indices, lemma_reverse_indices, AnimationDirection, FramesIter,
};
pub use state::{
    check_frame, feature_name, first_error, frame_error, frame_issue, lemma_dictionary_rejected,
    lemma_inverted_range_rejected, lemma_reverse_reverses, lemma_rotated_frame_rejected,
    lemma_state_frame_count, state_of, with_direction, AsepriteError, AsepriteState, StateModel,
    UnsupportedFeature,
};
