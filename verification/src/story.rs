//! The storyboard a model plans: an ordered list of scene outlines.

use vstd::prelude::*;

verus! {

/// Whether a scene teaches or carries the story.
#[derive(Debug, Clone, Copy, PartialEq, Eq, Structural)]
pub enum SceneType {
    Educational,
    Narrative,
}

/// Where a scene takes place.
#[derive(Debug, Clone, Copy, PartialEq, Eq, Structural)]
pub enum Setting {
    Classroom,
    Campus,
}

pub const EDUCATIONAL: &'static str = "educational";

pub const NARRATIVE: &'static str = "narrative";

pub const CLASSROOM: &'static str = "Classroom";

pub const CAMPUS: &'static str = "Campus";

/// How a scene type is written in prompts: its name in lower case.
pub open spec fn scene_type_text(t: SceneType) -> Seq<char> {
    match t {
        SceneType::Educational => EDUCATIONAL@,
        SceneType::Narrative => NARRATIVE@,
    }
}

/// How a setting is written in prompts: its name as declared.
pub open spec fn setting_text(s: Setting) -> Seq<char> {
    match s {
        Setting::Classroom => CLASSROOM@,
        Setting::Campus => CAMPUS@,
    }
}

impl SceneType {
    /// The name used in prompts.
    pub fn display_text(&self) -> (res: String)
        ensures
            res@ == scene_type_text(*self),
    {
        match self {
            SceneType::Educational => String::from_str(EDUCATIONAL),
            SceneType::Narrative => String::from_str(NARRATIVE),
        }
    }

    /// The scene type with the given prompt name, if any.
    pub fn from_text(s: &str) -> (res: Option<SceneType>)
        ensures
            res matches Some(t) ==> scene_type_text(t) == s@,
            res is None ==> s@ != scene_type_text(SceneType::Educational) && s@ != scene_type_text(
                SceneType::Narrative,
            ),
    {
        if crate::text::same_text(s, EDUCATIONAL) {
            Some(SceneType::Educational)
        } else if crate::text::same_text(s, NARRATIVE) {
            Some(SceneType::Narrative)
        } else {
            None
        }
    }
}

impl Setting {
    /// The name used in prompts.
    pub fn display_text(&self) -> (res: String)
        ensures
            res@ == setting_text(*self),
    {
        match self {
            Setting::Classroom => String::from_str(CLASSROOM),
            Setting::Campus => String::from_str(CAMPUS),
        }
    }

    /// The setting with the given prompt name, if any.
    pub fn from_text(s: &str) -> (res: Option<Setting>)
        ensures
            res matches Some(t) ==> setting_text(t) == s@,
            res is None ==> s@ != setting_text(Setting::Classroom) && s@ != setting_text(
                Setting::Campus,
            ),
    {
        if crate::text::same_text(s, CLASSROOM) {
            Some(Setting::Classroom)
        } else if crate::text::same_text(s, CAMPUS) {
            Some(Setting::Campus)
        } else {
            None
        }
    }
}

/// The plan for one scene.
#[derive(Debug)]
pub struct SceneOutline {
    /// The Ren'Py label of the scene, also its file name.
    pub id: String,
    pub title: String,
    pub scene_type: SceneType,
    pub setting: Setting,
    pub summary: String,
    pub learning_objectives: Vec<String>,
}

/// The planned scenes, in playing order.
#[derive(Debug)]
pub struct Storyboard {
    pub scenes: Vec<SceneOutline>,
}

/// Prompts tell scene types apart: two different types are never written
/// the same way.
pub proof fn lemma_scene_type_names_distinct(a: SceneType, b: SceneType)
    ensures
        scene_type_text(a) == scene_type_text(b) ==> a == b,
{
    reveal_strlit("educational");
    reveal_strlit("narrative");
    if a != b {
        assert(scene_type_text(SceneType::Educational)[0] != scene_type_text(SceneType::Narrative)[0]);
    }
}

/// Prompts tell settings apart: two different settings are never written
/// the same way.
pub proof fn lemma_setting_names_distinct(a: Setting, b: Setting)
    ensures
        setting_text(a) == setting_text(b) ==> a == b,
{
    reveal_strlit("Classroom");
    reveal_strlit("Campus");
    if a != b {
        assert(setting_text(Setting::Classroom)[1] != setting_text(Setting::Campus)[1]);
    }
}

} // verus!
