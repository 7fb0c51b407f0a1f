use vstd::prelude::*;

use crate::schema::{AsepriteJson, FrameTag};
use crate::state::{state_of, AsepriteError, AsepriteState, StateModel};

verus! {

/// What an animation set holds: the image file name and the states by name.
pub struct AnimationModel {
    pub image: Seq<char>,
    pub states: Map<Seq<char>, StateModel>,
}

/// The states of the first `n` tags of a sheet, keyed by name with later
/// tags overwriting earlier ones, or the error of the first tag refused.
pub open spec fn states_upto(sheet: AsepriteJson, n: int) -> Result<
    Map<Seq<char>, StateModel>,
    AsepriteError,
>
    decreases n,
{
    if n <= 0 {
        Ok(Map::empty())
    } else {
        match states_upto(sheet, n - 1) {
            Err(e) => Err(e),
            Ok(m) => {
                let tag = sheet.meta.frame_tags@[n - 1];
                match state_of(tag, sheet) {
                    Err(e) => Err(e),
                    Ok(st) => Ok(m.insert(tag.name@, st)),
                }
            },
        }
    }
}

/// The animation set that a sheet yields, or the error of its first refused tag.
pub open spec fn animation_of(sheet: AsepriteJson) -> Result<AnimationModel, AsepriteError> {
    match states_upto(sheet, sheet.meta.frame_tags@.len() as int) {
        Err(e) => Err(e),
        Ok(m) => Ok(AnimationModel { image: sheet.meta.image@, states: m }),
    }
}

/// The map of a list of states, later entries overwriting earlier ones.
pub open spec fn states_map(s: Seq<AsepriteState>) -> Map<Seq<char>, StateModel>
    decreases s.len(),
{
    if s.len() == 0 {
        Map::empty()
    } else {
        states_map(s.drop_last()).insert(s.last().name@, s.last()@)
    }
}

pub open spec fn names_unique(s: Seq<AsepriteState>) -> bool {
    forall|i: int, j: int|
        0 <= i < j < s.len() ==> #[trigger] s[i].name@ != #[trigger] s[j].name@
}

proof fn lemma_states_map_update(s: Seq<AsepriteState>, p: int, v: AsepriteState)
    requires
        names_unique(s),
        0 <= p < s.len(),
        s[p].name@ == v.name@,
    ensures
        states_map(s.update(p, v)) == states_map(s).insert(v.name@, v@),
        names_unique(s.update(p, v)),
    decreases s.len(),
{
    let t = s.update(p, v);
    assert(t.drop_last() =~= if p == s.len() - 1 {
        s.drop_last()
    } else {
        s.drop_last().update(p, v)
    });
    if p < s.len() - 1 {
        lemma_states_map_update(s.drop_last(), p, v);
        assert(s.last().name@ != v.name@);
    }
    assert(states_map(t) =~= states_map(s).insert(v.name@, v@));
    assert forall|i: int, j: int| 0 <= i < j < t.len() implies #[trigger] t[i].name@
        != #[trigger] t[j].name@ by {
        assert(s[i].name@ != s[j].name@);
    }
}

proof fn lemma_states_map_lookup(s: Seq<AsepriteState>, k: Seq<char>)
    requires
        names_unique(s),
    ensures
        states_map(s).contains_key(k) <==> exists|i: int| 0 <= i < s.len() && #[trigger] s[i].name@ == k,
        forall|i: int|
            0 <= i < s.len() && #[trigger] s[i].name@ == k ==> states_map(s)[k] == s[i]@,
    decreases s.len(),
{
    if s.len() > 0 {
        lemma_states_map_lookup(s.drop_last(), k);
        if states_map(s.drop_last()).contains_key(k) {
            let i = choose|i: int| 0 <= i < s.len() - 1 && #[trigger] s.drop_last()[i].name@ == k;
            assert(s[i].name@ == k);
        }
        if exists|i: int| 0 <= i < s.len() && #[trigger] s[i].name@ == k {
            let i = choose|i: int| 0 <= i < s.len() && #[trigger] s[i].name@ == k;
            if i < s.len() - 1 {
                assert(s.drop_last()[i].name@ == k);
            }
        }
    }
}

/// The animations of a sheet, by name, and the image they are cut from.
#[derive(Debug)]
pub struct AsepriteAnimation {
    /// The file name of the packed image.
    pub image: String,
    /// One state per distinct tag name.
    pub states: Vec<AsepriteState>,
}

impl View for AsepriteAnimation {
    type V = AnimationModel;

    open spec fn view(&self) -> AnimationModel {
        AnimationModel { image: self.image@, states: states_map(self.states@) }
    }
}

impl AsepriteAnimation {
    pub open spec fn wf(&self) -> bool {
        &&& names_unique(self.states@)
        &&& forall|i: int| 0 <= i < self.states@.len() ==> (#[trigger] self.states@[i]).wf()
    }

    /// Adds a state, replacing the one of the same name if there is one.
    fn insert_state(&mut self, st: AsepriteState)
        requires
            old(self).wf(),
            st.wf(),
        ensures
            final(self).wf(),
            final(self).image == old(self).image,
            final(self)@.states == old(self)@.states.insert(st.name@, st@),
    {
        let mut i: usize = 0;
        while i < self.states.len()
            invariant
                self.wf(),
                st.wf(),
                self == old(self),
                i <= self.states@.len(),
                forall|j: int| 0 <= j < i ==> #[trigger] self.states@[j].name@ != st.name@,
            decreases self.states@.len() - i,
        {
            if self.states[i].name == st.name {
                proof {
                    lemma_states_map_update(self.states@, i as int, st);
                }
                self.states.set(i, st);
                return;
            }
            i = i + 1;
        }
        self.states.push(st);
        proof {
            assert(self.states@.drop_last() =~= old(self).states@);
        }
    }

    /// Builds the state of every tag, in order; the first refused tag refuses
    /// the whole sheet. Tags that share a name leave the last one's state.
    pub fn new(aseprite_json: AsepriteJson) -> (r: Result<Self, AsepriteError>)
        ensures
            match r {
                Ok(a) => a.wf() && animation_of(aseprite_json) == Ok::<AnimationModel, AsepriteError>(a@),
                Err(e) => animation_of(aseprite_json) == Err::<AnimationModel, AsepriteError>(e),
            },
    {
        let mut anim = AsepriteAnimation { image: String::new(), states: Vec::new() };
        let n = aseprite_json.meta.frame_tags.len();
        let mut i: usize = 0;
        assert(states_map(anim.states@) =~= Map::empty());
        while i < n
            invariant
                n == aseprite_json.meta.frame_tags@.len(),
                i <= n,
                anim.wf(),
                states_upto(aseprite_json, i as int) == Ok::<Map<Seq<char>, StateModel>, AsepriteError>(
                    anim@.states,
                ),
            decreases n - i,
        {
            let tag: &FrameTag = &aseprite_json.meta.frame_tags[i];
            let st = match AsepriteState::new(tag, &aseprite_json) {
                Ok(st) => st,
                Err(e) => {
                    proof {
                        lemma_states_upto_err(aseprite_json, i + 1, n as int);
                    }
                    return Err(e);
                },
            };
            anim.insert_state(st);
            i = i + 1;
        }
        anim.image = aseprite_json.meta.image;
        Ok(anim)
    }

    /// The state of the clip with this name.
    pub fn get(&self, name: &str) -> (r: Option<&AsepriteState>)
        requires
            self.wf(),
        ensures
            match r {
                Some(s) => self@.states.contains_key(name@) && s@ == self@.states[name@] && s.wf(),
                None => !self@.states.contains_key(name@),
            },
    {
        let key = name.to_owned();
        let mut i: usize = 0;
        while i < self.states.len()
            invariant
                self.wf(),
                key@ == name@,
                i <= self.states@.len(),
                forall|j: int| 0 <= j < i ==> #[trigger] self.states@[j].name@ != name@,
            decreases self.states@.len() - i,
        {
            if self.states[i].name == key {
                proof {
                    lemma_states_map_lookup(self.states@, name@);
                }
                return Some(&self.states[i]);
            }
            i = i + 1;
        }
        proof {
            lemma_states_map_lookup(self.states@, name@);
        }
        None
    }

    /// The file name of the image the clips are cut from.
    pub fn image(&self) -> (r: &String)
        ensures
            r == &self.image,
    {
        &self.image
    }

    /// The states, one per distinct tag name.
    pub fn states(&self) -> (r: &Vec<AsepriteState>)
        ensures
            r == &self.states,
    {
        &self.states
    }
}

/// When a sheet loads, a name that several tags share holds the state of the
/// last of them.
pub proof fn lemma_later_tag_wins(sheet: AsepriteJson, j: int)
    requires
        animation_of(sheet) is Ok,
        0 <= j < sheet.meta.frame_tags@.len(),
        forall|l: int|
            j < l < sheet.meta.frame_tags@.len() ==> (#[trigger] sheet.meta.frame_tags@[l]).name@
                != sheet.meta.frame_tags@[j].name@,
    ensures
        state_of(sheet.meta.frame_tags@[j], sheet) is Ok,
        animation_of(sheet)->Ok_0.states.contains_key(sheet.meta.frame_tags@[j].name@),
        animation_of(sheet)->Ok_0.states[sheet.meta.frame_tags@[j].name@] == state_of(
            sheet.meta.frame_tags@[j],
            sheet,
        )->Ok_0,
{
    lemma_later_tag_wins_upto(sheet, j, sheet.meta.frame_tags@.len() as int);
}

proof fn lemma_later_tag_wins_upto(sheet: AsepriteJson, j: int, n: int)
    requires
        states_upto(sheet, n) is Ok,
        0 <= j < n <= sheet.meta.frame_tags@.len(),
        forall|l: int|
            j < l < n ==> (#[trigger] sheet.meta.frame_tags@[l]).name@
                != sheet.meta.frame_tags@[j].name@,
    ensures
        state_of(sheet.meta.frame_tags@[j], sheet) is Ok,
        states_upto(sheet, n)->Ok_0.contains_key(sheet.meta.frame_tags@[j].name@),
        states_upto(sheet, n)->Ok_0[sheet.meta.frame_tags@[j].name@] == state_of(
            sheet.meta.frame_tags@[j],
            sheet,
        )->Ok_0,
    decreases n,
{
    if n > j + 1 {
        lemma_later_tag_wins_upto(sheet, j, n - 1);
        assert(sheet.meta.frame_tags@[n - 1].name@ != sheet.meta.frame_tags@[j].name@);
    } else {
        lemma_states_upto_prefix_ok(sheet, j + 1, n);
    }
}

proof fn lemma_states_upto_err(sheet: AsepriteJson, m: int, n: int)
    requires
        0 <= m <= n,
        states_upto(sheet, m) is Err,
    ensures
        states_upto(sheet, n) == states_upto(sheet, m),
    decreases n - m,
{
    if m < n {
        lemma_states_upto_err(sheet, m + 1, n);
    }
}

proof fn lemma_states_upto_prefix_ok(sheet: AsepriteJson, m: int, n: int)
    requires
        0 <= m <= n,
        states_upto(sheet, n) is Ok,
    ensures
        states_upto(sheet, m) is Ok,
    decreases n - m,
{
    if m < n {
        lemma_states_upto_prefix_ok(sheet, m + 1, n);
    }
}

} // verus!
