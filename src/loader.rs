use vstd::prelude::*;

use crate::animation::{animation_of, AnimationModel, AsepriteAnimation};
use crate::schema::AsepriteJson;
use crate::state::AsepriteError;

verus! {

/// Turns parsed sprite-sheet exports into animation sets.
#[derive(Debug, Clone, Copy, Default)]
pub struct AsepriteLoader;

impl AsepriteLoader {
    /// The animation set of a parsed sheet, or the error of its first refused tag.
    pub fn load(&self, sheet: AsepriteJson) -> (r: Result<AsepriteAnimation, AsepriteError>)
        ensures
            match r {
                Ok(a) => a.wf() && animation_of(sheet) == Ok::<AnimationModel, AsepriteError>(a@),
                Err(e) => animation_of(sheet) == Err::<AnimationModel, AsepriteError>(e),
            },
    {
        AsepriteAnimation::new(sheet)
    }
}

/// Registers the animation asset type and its loader with a host application.
#[derive(Debug, Clone, Copy, Default)]
pub struct AsepritePlugin;

} // verus!
