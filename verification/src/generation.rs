//! The prompts sent to the model at each stage: planning the storyboard,
//! writing each scene, triaging lint failures and repairing a scene.

use vstd::prelude::*;

verus! {

// The fixed pieces of each prompt, in the order they appear around the
// values filled in.

pub const STORYBOARD_SYSTEM_0: &'static str = "You are an expert visual novel designer and curriculum developer.\nGenerate a structured storyboard/outline for a visual novel in JSON format.\nThe JSON must match this exact schema:\n{\n  \"scenes\": [\n    {\n      \"id\": \"scene_1_intro\",\n      \"title\": \"Introduction to Concepts\",\n      \"type\": \"educational\",\n      \"setting\": \"classroom\",\n      \"summary\": \"Ruby explains the core concept directly to the player. The player listens attentively. Ruby shows she likes the player.\",\n      \"learning_objectives\": [\"Objective 1\", \"Objective 2\"],\n    }\n  ]\n}\nDesign a story with ";

pub const STORYBOARD_SYSTEM_1: &'static str = " scenes containing a mix of educational core concepts and narrative B-plot character moments.\nAll narrative and educational summary descriptions must be from a first-person perspective ('I', 'me', 'my').\nOutput ONLY valid JSON. No markdown blocks, no commentary. Do NOT introduce characters that are not listed in the character info.\n\nCharacter Info:\n  ";

pub const STORYBOARD_SYSTEM_2: &'static str = "\n\nTemplate-specific storyboard instructions:\n";

pub const STORYBOARD_PROMPT_0: &'static str = "Educational Topic: ";

pub const STORYBOARD_PROMPT_1: &'static str = "\n      Character Info: ";

pub const STORYBOARD_PROMPT_2: &'static str = "\n      Visual assets and naming:\n      ";

pub const STORYBOARD_PROMPT_3: &'static str = "\n      Template-specific storyboard prompt instructions:\n      ";

pub const STORYBOARD_PROMPT_4: &'static str = "\nGenerate the JSON storyboard now.";

pub const TRIAGE_SYSTEM: &'static str = "You are a Ren'Py build error triager.\nGiven a raw `renpy lint` report and a list of known scene label ids, identify which scene ids the errors belong to.\nOutput ONLY valid JSON matching this schema, no markdown, no commentary:\n{ \"affected_scene_ids\": [\"scene_1_intro\"] }\nOnly include ids from the known list. If an error can't be attributed to a specific scene (e.g. a global script.rpy issue), omit it.";

pub const TRIAGE_PROMPT_0: &'static str = "Known scene ids: ";

pub const TRIAGE_PROMPT_1: &'static str = "\n\nLint report:\n";

pub const TRIAGE_PROMPT_2: &'static str = "\n\nWhich scene ids need fixing?";

pub const FIX_SYSTEM: &'static str = "You are an expert Ren'Py debugger.\nYou will be given a broken Ren'Py scene script and the full lint report for the project.\nFix ONLY the errors in this script that are attributable to it (e.g. undefined images, malformed tags, bad label/menu syntax, unclosed text tags).\nPreserve the dialogue, structure, characters, and intent exactly \u{2014} do not rewrite content that isn't broken.\nOutput ONLY the corrected raw Ren'Py script for this label, no markdown code blocks, no commentary.";

pub const FIX_PROMPT_0: &'static str = "Scene id: ";

pub const FIX_PROMPT_1: &'static str = "\n\nCurrent script:\n";

pub const FIX_PROMPT_2: &'static str = "\n\nFull project lint report (only fix parts relevant to this scene):\n";

pub const SCENE_PROMPT_0: &'static str = "Generate a Ren'Py scene script for: \"";

pub const SCENE_PROMPT_1: &'static str = "\".\nScene ID: ";

pub const SCENE_PROMPT_2: &'static str = "\nType: ";

pub const SCENE_PROMPT_3: &'static str = "\nSetting: ";

pub const SCENE_PROMPT_4: &'static str = "\nSummary: ";

pub const SCENE_PROMPT_5: &'static str = "\nLearning Objectives: ";

pub const SCENE_PROMPT_6: &'static str = "\nVisual assets and naming:\n";

pub const SCENE_PROMPT_7: &'static str = "\n---";

pub const SCENE_PROMPT_8: &'static str = "\n        ";

pub const SCENE_PREVIOUS_0: &'static str = "Previous Scene Summary (for continuity):\n";

pub const SCENE_PREVIOUS_1: &'static str = "\n\n";

pub const SCENE_INSTRUCTIONS_0: &'static str = "Output ONLY the Ren'Py code starting with `label <scene_id>:` and ending with `return`. Do not wrap it in markdown code blocks. The visual novel must be written entirely in the first-person perspective of the player ('I', 'me', 'my'). Use MC (mc) as character short name for player's spoken dialogue. MC must never appear as a sprite on screen. Use Ruby (r) as character short name. If other characters are introduced, define them with appropriate short names. Show/hide sprites appropriately according to the template visual assets. Template-specific scene instructions:\n";

pub const SCENE_INSTRUCTIONS_1: &'static str = "Example:\nlabel scene_1_intro:\nscene bg classroom\nshow ruby school happy at left\n\"I walk into the classroom, and Ruby smiles warmly at me.\"\nr \"Hello! Ready to learn? Let's keep it clear and direct today, no silly metaphors.\"\nmc \"Yes, thank you. Let's do it.\"\nreturn";

pub const SCENE_SYSTEM_0: &'static str = "You are an expert Ren'Py writer. Write clean dialogue and sprite positions. Output ONLY the raw Ren'Py script for the requested label. No markdown code blocks.\n\nTemplate-specific scene system instructions:\n";

/// Template-specific text loaded for the two generation stages.
#[derive(Debug)]
pub struct ExtraContext {
    pub narrative: Vec<String>,
    pub dialogue: Vec<String>,
    pub visuals: Vec<String>,
    pub storyboard_system: String,
    pub storyboard_prompt: String,
    pub scene_system: String,
    pub scene_prompt: String,
}

impl Default for ExtraContext {
    fn default() -> (res: Self)
        ensures
            res.narrative@.len() == 0,
            res.dialogue@.len() == 0,
            res.visuals@.len() == 0,
            res.storyboard_system@.len() == 0,
            res.storyboard_prompt@.len() == 0,
            res.scene_system@.len() == 0,
            res.scene_prompt@.len() == 0,
    {
        ExtraContext {
            narrative: Vec::new(),
            dialogue: Vec::new(),
            visuals: Vec::new(),
            storyboard_system: String::new(),
            storyboard_prompt: String::new(),
            scene_system: String::new(),
            scene_prompt: String::new(),
        }
    }
}

impl ExtraContext {
    /// The narrative context, each entry on a line of its own.
    pub fn narrative_text(&self) -> (res: String)
        ensures
            res@ == crate::text::joined_lines(crate::text::texts(self.narrative@)),
    {
        crate::text::join_context(self.narrative.as_slice())
    }

    /// The dialogue context, each entry on a line of its own.
    pub fn dialogue_text(&self) -> (res: String)
        ensures
            res@ == crate::text::joined_lines(crate::text::texts(self.dialogue@)),
    {
        crate::text::join_context(self.dialogue.as_slice())
    }

    /// The visual-asset context, each entry on a line of its own.
    pub fn visuals_text(&self) -> (res: String)
        ensures
            res@ == crate::text::joined_lines(crate::text::texts(self.visuals@)),
    {
        crate::text::join_context(self.visuals.as_slice())
    }
}

/// The system prompt for planning a storyboard of `num_scenes` scenes.
pub open spec fn storyboard_system_text(num_scenes: u8, ctx: ExtraContext) -> Seq<char> {
    STORYBOARD_SYSTEM_0@ + crate::text::decimal_text(num_scenes as nat) + STORYBOARD_SYSTEM_1@
        + crate::text::joined_lines(crate::text::texts(ctx.narrative@)) + STORYBOARD_SYSTEM_2@
        + ctx.storyboard_system@
}

/// The user prompt for planning a storyboard on `topic`.
pub open spec fn storyboard_prompt_text(topic: Seq<char>, ctx: ExtraContext) -> Seq<char> {
    STORYBOARD_PROMPT_0@ + topic + STORYBOARD_PROMPT_1@ + crate::text::joined_lines(
        crate::text::texts(ctx.narrative@),
    ) + STORYBOARD_PROMPT_2@ + crate::text::joined_lines(crate::text::texts(ctx.visuals@))
        + STORYBOARD_PROMPT_3@ + ctx.storyboard_prompt@ + STORYBOARD_PROMPT_4@
}

/// Builds the system prompt for planning a storyboard.
pub fn storyboard_system_prompt(num_scenes: u8, ctx: &ExtraContext) -> (res: String)
    ensures
        res@ == storyboard_system_text(num_scenes, *ctx),
{
    let mut s = String::from_str(STORYBOARD_SYSTEM_0);
    let n = crate::text::decimal_u8(num_scenes);
    s.append(n.as_str());
    s.append(STORYBOARD_SYSTEM_1);
    let narrative = ctx.narrative_text();
    s.append(narrative.as_str());
    s.append(STORYBOARD_SYSTEM_2);
    s.append(ctx.storyboard_system.as_str());
    s
}

/// Builds the user prompt for planning a storyboard.
pub fn storyboard_user_prompt(topic: &str, ctx: &ExtraContext) -> (res: String)
    ensures
        res@ == storyboard_prompt_text(topic@, *ctx),
{
    let mut s = String::from_str(STORYBOARD_PROMPT_0);
    s.append(topic);
    s.append(STORYBOARD_PROMPT_1);
    let narrative = ctx.narrative_text();
    s.append(narrative.as_str());
    s.append(STORYBOARD_PROMPT_2);
    let visuals = ctx.visuals_text();
    s.append(visuals.as_str());
    s.append(STORYBOARD_PROMPT_3);
    s.append(ctx.storyboard_prompt.as_str());
    s.append(STORYBOARD_PROMPT_4);
    s
}

/// The user prompt for writing `scene`, after the scene whose summary is
/// `previous`, if any.
pub open spec fn scene_prompt_text(
    scene: crate::story::SceneOutline,
    previous: Option<Seq<char>>,
    ctx: ExtraContext,
) -> Seq<char> {
    SCENE_PROMPT_0@ + scene.title@ + SCENE_PROMPT_1@ + scene.id@ + SCENE_PROMPT_2@
        + crate::story::scene_type_text(scene.scene_type) + SCENE_PROMPT_3@
        + crate::story::setting_text(scene.setting) + SCENE_PROMPT_4@ + scene.summary@
        + SCENE_PROMPT_5@ + crate::text::debug_list_text(
        crate::text::texts(scene.learning_objectives@),
    ) + SCENE_PROMPT_6@ + crate::text::joined_lines(crate::text::texts(ctx.visuals@))
        + SCENE_PROMPT_7@ + crate::text::joined_lines(crate::text::texts(ctx.dialogue@))
        + SCENE_PROMPT_8@ + match previous {
        Some(p) => SCENE_PREVIOUS_0@ + p + SCENE_PREVIOUS_1@,
        None => Seq::empty(),
    } + SCENE_INSTRUCTIONS_0@ + ctx.scene_prompt@ + SCENE_INSTRUCTIONS_1@
}

/// The system prompt for writing a scene.
pub open spec fn scene_system_text(ctx: ExtraContext) -> Seq<char> {
    SCENE_SYSTEM_0@ + ctx.scene_system@
}

/// Builds the user prompt for writing `scene`, giving the previous scene's
/// summary for continuity when there is one.
pub fn scene_user_prompt(
    scene: &crate::story::SceneOutline,
    previous_summary: &Option<String>,
    ctx: &ExtraContext,
) -> (res: String)
    ensures
        res@ == scene_prompt_text(
            *scene,
            match previous_summary {
                Some(p) => Some(p@),
                None => None,
            },
            *ctx,
        ),
{
    let mut s = String::from_str(SCENE_PROMPT_0);
    s.append(scene.title.as_str());
    s.append(SCENE_PROMPT_1);
    s.append(scene.id.as_str());
    s.append(SCENE_PROMPT_2);
    let t = scene.scene_type.display_text();
    s.append(t.as_str());
    s.append(SCENE_PROMPT_3);
    let setting = scene.setting.display_text();
    s.append(setting.as_str());
    s.append(SCENE_PROMPT_4);
    s.append(scene.summary.as_str());
    s.append(SCENE_PROMPT_5);
    let objectives = crate::text::debug_list(scene.learning_objectives.as_slice());
    s.append(objectives.as_str());
    s.append(SCENE_PROMPT_6);
    let visuals = ctx.visuals_text();
    s.append(visuals.as_str());
    s.append(SCENE_PROMPT_7);
    let dialogue = ctx.dialogue_text();
    s.append(dialogue.as_str());
    s.append(SCENE_PROMPT_8);
    let ghost head = s@;
    match previous_summary {
        Some(p) => {
            s.append(SCENE_PREVIOUS_0);
            s.append(p.as_str());
            s.append(SCENE_PREVIOUS_1);
        },
        None => {
            assert(head + Seq::<char>::empty() =~= head);
        },
    }
    s.append(SCENE_INSTRUCTIONS_0);
    s.append(ctx.scene_prompt.as_str());
    s.append(SCENE_INSTRUCTIONS_1);
    s
}

/// Builds the system prompt for writing a scene.
pub fn scene_system_prompt(ctx: &ExtraContext) -> (res: String)
    ensures
        res@ == scene_system_text(*ctx),
{
    let mut s = String::from_str(SCENE_SYSTEM_0);
    s.append(ctx.scene_system.as_str());
    s
}

/// The user prompt asking which scenes a lint report concerns.
pub open spec fn triage_prompt_text(known_scene_ids: Seq<Seq<char>>, lint_report: Seq<char>) -> Seq<char> {
    TRIAGE_PROMPT_0@ + crate::text::debug_list_text(known_scene_ids) + TRIAGE_PROMPT_1@
        + lint_report + TRIAGE_PROMPT_2@
}

/// Builds the user prompt asking which of the known scenes a lint report
/// concerns.
pub fn triage_user_prompt(lint_report: &str, known_scene_ids: &[String]) -> (res: String)
    ensures
        res@ == triage_prompt_text(crate::text::texts(known_scene_ids@), lint_report@),
{
    let mut s = String::from_str(TRIAGE_PROMPT_0);
    let ids = crate::text::debug_list(known_scene_ids);
    s.append(ids.as_str());
    s.append(TRIAGE_PROMPT_1);
    s.append(lint_report);
    s.append(TRIAGE_PROMPT_2);
    s
}

/// The user prompt asking to repair one scene script.
pub open spec fn fix_prompt_text(scene_id: Seq<char>, script: Seq<char>, lint_report: Seq<char>) -> Seq<char> {
    FIX_PROMPT_0@ + scene_id + FIX_PROMPT_1@ + script + FIX_PROMPT_2@ + lint_report
}

/// Builds the user prompt asking to repair the script of one scene.
pub fn fix_user_prompt(scene_id: &str, current_script: &str, lint_report: &str) -> (res: String)
    ensures
        res@ == fix_prompt_text(scene_id@, current_script@, lint_report@),
{
    let mut s = String::from_str(FIX_PROMPT_0);
    s.append(scene_id);
    s.append(FIX_PROMPT_1);
    s.append(current_script);
    s.append(FIX_PROMPT_2);
    s.append(lint_report);
    s
}

pub const SCENE_FILE_SUFFIX: &'static str = ".rpy";

/// The file a scene's script is written to, inside the scenes directory.
pub fn scene_file_name(scene_id: &str) -> (res: String)
    ensures
        res@ == scene_id@ + SCENE_FILE_SUFFIX@,
{
    let mut s = String::from_str(scene_id);
    s.append(SCENE_FILE_SUFFIX);
    s
}

/// The storyboard prompt names the topic first, then gives the narrative
/// context in the character-info slot, the visual context in the
/// visual-assets slot, and the template's storyboard instructions, each
/// whatever the other parts of the context hold.
pub proof fn lemma_storyboard_prompt_carries_inputs(topic: Seq<char>, ctx: ExtraContext)
    ensures
        (STORYBOARD_PROMPT_0@ + topic + STORYBOARD_PROMPT_1@).is_prefix_of(
            storyboard_prompt_text(topic, ctx),
        ),
        crate::text::has_infix(
            storyboard_prompt_text(topic, ctx),
            STORYBOARD_PROMPT_1@ + crate::text::joined_lines(crate::text::texts(ctx.narrative@))
                + STORYBOARD_PROMPT_2@,
        ),
        crate::text::has_infix(
            storyboard_prompt_text(topic, ctx),
            STORYBOARD_PROMPT_2@ + crate::text::joined_lines(crate::text::texts(ctx.visuals@))
                + STORYBOARD_PROMPT_3@,
        ),
        crate::text::has_infix(
            storyboard_prompt_text(topic, ctx),
            STORYBOARD_PROMPT_3@ + ctx.storyboard_prompt@ + STORYBOARD_PROMPT_4@,
        ),
{
    let t = storyboard_prompt_text(topic, ctx);
    let n = crate::text::joined_lines(crate::text::texts(ctx.narrative@));
    let v = crate::text::joined_lines(crate::text::texts(ctx.visuals@));
    let a = STORYBOARD_PROMPT_0@ + topic + STORYBOARD_PROMPT_1@;
    assert(t =~= a + (n + STORYBOARD_PROMPT_2@ + v + STORYBOARD_PROMPT_3@
        + ctx.storyboard_prompt@ + STORYBOARD_PROMPT_4@));
    assert(t.take(a.len() as int) =~= a);
    let x1 = STORYBOARD_PROMPT_1@ + n + STORYBOARD_PROMPT_2@;
    assert(t =~= (STORYBOARD_PROMPT_0@ + topic) + x1 + (v + STORYBOARD_PROMPT_3@
        + ctx.storyboard_prompt@ + STORYBOARD_PROMPT_4@));
    crate::text::lemma_infix_of_concat(
        STORYBOARD_PROMPT_0@ + topic,
        x1,
        v + STORYBOARD_PROMPT_3@ + ctx.storyboard_prompt@ + STORYBOARD_PROMPT_4@,
    );
    let x2 = STORYBOARD_PROMPT_2@ + v + STORYBOARD_PROMPT_3@;
    assert(t =~= (STORYBOARD_PROMPT_0@ + topic + STORYBOARD_PROMPT_1@ + n) + x2 + (
    ctx.storyboard_prompt@ + STORYBOARD_PROMPT_4@));
    crate::text::lemma_infix_of_concat(
        STORYBOARD_PROMPT_0@ + topic + STORYBOARD_PROMPT_1@ + n,
        x2,
        ctx.storyboard_prompt@ + STORYBOARD_PROMPT_4@,
    );
    let x3 = STORYBOARD_PROMPT_3@ + ctx.storyboard_prompt@ + STORYBOARD_PROMPT_4@;
    assert(t =~= (STORYBOARD_PROMPT_0@ + topic + STORYBOARD_PROMPT_1@ + n + STORYBOARD_PROMPT_2@
        + v) + x3 + Seq::<char>::empty());
    crate::text::lemma_infix_of_concat(
        STORYBOARD_PROMPT_0@ + topic + STORYBOARD_PROMPT_1@ + n + STORYBOARD_PROMPT_2@ + v,
        x3,
        Seq::<char>::empty(),
    );
}

/// The storyboard system prompt gives the scene count in its slot, then the
/// narrative context, and ends with the template's storyboard system
/// instructions.
pub proof fn lemma_storyboard_system_carries_inputs(num_scenes: u8, ctx: ExtraContext)
    ensures
        (STORYBOARD_SYSTEM_0@ + crate::text::decimal_text(num_scenes as nat)
            + STORYBOARD_SYSTEM_1@).is_prefix_of(storyboard_system_text(num_scenes, ctx)),
        crate::text::has_infix(
            storyboard_system_text(num_scenes, ctx),
            STORYBOARD_SYSTEM_1@ + crate::text::joined_lines(crate::text::texts(ctx.narrative@))
                + STORYBOARD_SYSTEM_2@,
        ),
        (STORYBOARD_SYSTEM_2@ + ctx.storyboard_system@).is_suffix_of(
            storyboard_system_text(num_scenes, ctx),
        ),
{
    let t = storyboard_system_text(num_scenes, ctx);
    let d = crate::text::decimal_text(num_scenes as nat);
    let n = crate::text::joined_lines(crate::text::texts(ctx.narrative@));
    let a = STORYBOARD_SYSTEM_0@ + d + STORYBOARD_SYSTEM_1@;
    assert(t =~= a + (n + STORYBOARD_SYSTEM_2@ + ctx.storyboard_system@));
    assert(t.take(a.len() as int) =~= a);
    let x = STORYBOARD_SYSTEM_1@ + n + STORYBOARD_SYSTEM_2@;
    assert(t =~= (STORYBOARD_SYSTEM_0@ + d) + x + ctx.storyboard_system@);
    crate::text::lemma_infix_of_concat(STORYBOARD_SYSTEM_0@ + d, x, ctx.storyboard_system@);
    let z = STORYBOARD_SYSTEM_2@ + ctx.storyboard_system@;
    let pre = STORYBOARD_SYSTEM_0@ + d + STORYBOARD_SYSTEM_1@ + n;
    assert(t =~= pre + z);
    assert(t.skip(pre.len() as int) =~= z);
}

/// The scene prompt starts by naming the scene's own title, id, type,
/// setting and summary, each in its slot, whatever the other fields hold.
#[verifier::rlimit(60)]
pub proof fn lemma_scene_prompt_carries_outline(
    scene: crate::story::SceneOutline,
    previous: Option<Seq<char>>,
    ctx: ExtraContext,
)
    ensures
        (SCENE_PROMPT_0@ + scene.title@ + SCENE_PROMPT_1@ + scene.id@ + SCENE_PROMPT_2@
            + crate::story::scene_type_text(scene.scene_type) + SCENE_PROMPT_3@
            + crate::story::setting_text(scene.setting) + SCENE_PROMPT_4@ + scene.summary@
            + SCENE_PROMPT_5@).is_prefix_of(scene_prompt_text(scene, previous, ctx)),
        crate::text::has_infix(
            scene_prompt_text(scene, previous, ctx),
            SCENE_PROMPT_3@ + crate::story::setting_text(scene.setting) + SCENE_PROMPT_4@,
        ),
        crate::text::has_infix(
            scene_prompt_text(scene, previous, ctx),
            SCENE_PROMPT_2@ + crate::story::scene_type_text(scene.scene_type) + SCENE_PROMPT_3@,
        ),
{
    let t = scene_prompt_text(scene, previous, ctx);
    let ty = crate::story::scene_type_text(scene.scene_type);
    let se = crate::story::setting_text(scene.setting);
    let a = SCENE_PROMPT_0@ + scene.title@ + SCENE_PROMPT_1@ + scene.id@;
    let head = a + SCENE_PROMPT_2@ + ty + SCENE_PROMPT_3@ + se + SCENE_PROMPT_4@ + scene.summary@
        + SCENE_PROMPT_5@;
    let rest = crate::text::debug_list_text(crate::text::texts(scene.learning_objectives@))
        + SCENE_PROMPT_6@ + crate::text::joined_lines(crate::text::texts(ctx.visuals@))
        + SCENE_PROMPT_7@ + crate::text::joined_lines(crate::text::texts(ctx.dialogue@))
        + SCENE_PROMPT_8@ + match previous {
        Some(p) => SCENE_PREVIOUS_0@ + p + SCENE_PREVIOUS_1@,
        None => Seq::empty(),
    } + SCENE_INSTRUCTIONS_0@ + ctx.scene_prompt@ + SCENE_INSTRUCTIONS_1@;
    assert(t =~= head + rest);
    assert(t.take(head.len() as int) =~= head);
    let xs = SCENE_PROMPT_3@ + se + SCENE_PROMPT_4@;
    assert(t =~= (a + SCENE_PROMPT_2@ + ty) + xs + (scene.summary@ + SCENE_PROMPT_5@ + rest));
    crate::text::lemma_infix_of_concat(
        a + SCENE_PROMPT_2@ + ty,
        xs,
        scene.summary@ + SCENE_PROMPT_5@ + rest,
    );
    let xt = SCENE_PROMPT_2@ + ty + SCENE_PROMPT_3@;
    assert(t =~= a + xt + (se + SCENE_PROMPT_4@ + scene.summary@ + SCENE_PROMPT_5@ + rest));
    crate::text::lemma_infix_of_concat(
        a,
        xt,
        se + SCENE_PROMPT_4@ + scene.summary@ + SCENE_PROMPT_5@ + rest,
    );
}

/// A scene prompt written after a scene with summary `p` carries `p` in the
/// continuity paragraph.
pub proof fn lemma_scene_prompt_carries_previous(
    scene: crate::story::SceneOutline,
    p: Seq<char>,
    ctx: ExtraContext,
)
    ensures
        crate::text::has_infix(
            scene_prompt_text(scene, Some(p), ctx),
            SCENE_PREVIOUS_0@ + p + SCENE_PREVIOUS_1@,
        ),
{
    let t = scene_prompt_text(scene, Some(p), ctx);
    let a = SCENE_PROMPT_0@ + scene.title@ + SCENE_PROMPT_1@ + scene.id@ + SCENE_PROMPT_2@
        + crate::story::scene_type_text(scene.scene_type) + SCENE_PROMPT_3@
        + crate::story::setting_text(scene.setting) + SCENE_PROMPT_4@ + scene.summary@
        + SCENE_PROMPT_5@ + crate::text::debug_list_text(
        crate::text::texts(scene.learning_objectives@),
    ) + SCENE_PROMPT_6@ + crate::text::joined_lines(crate::text::texts(ctx.visuals@))
        + SCENE_PROMPT_7@ + crate::text::joined_lines(crate::text::texts(ctx.dialogue@))
        + SCENE_PROMPT_8@;
    let x = SCENE_PREVIOUS_0@ + p + SCENE_PREVIOUS_1@;
    let b = SCENE_INSTRUCTIONS_0@ + ctx.scene_prompt@ + SCENE_INSTRUCTIONS_1@;
    assert(t =~= a + x + b);
    crate::text::lemma_infix_of_concat(a, x, b);
}

/// The triage prompt lists the known scene ids first, then gives the whole
/// lint report.
pub proof fn lemma_triage_prompt_carries_inputs(known_scene_ids: Seq<Seq<char>>, lint_report: Seq<char>)
    ensures
        (TRIAGE_PROMPT_0@ + crate::text::debug_list_text(known_scene_ids) + TRIAGE_PROMPT_1@)
            .is_prefix_of(triage_prompt_text(known_scene_ids, lint_report)),
        (TRIAGE_PROMPT_1@ + lint_report + TRIAGE_PROMPT_2@).is_suffix_of(
            triage_prompt_text(known_scene_ids, lint_report),
        ),
{
    let t = triage_prompt_text(known_scene_ids, lint_report);
    let a = TRIAGE_PROMPT_0@ + crate::text::debug_list_text(known_scene_ids) + TRIAGE_PROMPT_1@;
    assert(t =~= a + (lint_report + TRIAGE_PROMPT_2@));
    assert(t.take(a.len() as int) =~= a);
    let pre = TRIAGE_PROMPT_0@ + crate::text::debug_list_text(known_scene_ids);
    let z = TRIAGE_PROMPT_1@ + lint_report + TRIAGE_PROMPT_2@;
    assert(t =~= pre + z);
    assert(t.skip(pre.len() as int) =~= z);
}

/// The repair prompt names the scene, gives its current script, and ends
/// with the whole lint report.
pub proof fn lemma_fix_prompt_carries_inputs(scene_id: Seq<char>, script: Seq<char>, lint_report: Seq<char>)
    ensures
        (FIX_PROMPT_0@ + scene_id + FIX_PROMPT_1@).is_prefix_of(
            fix_prompt_text(scene_id, script, lint_report),
        ),
        crate::text::has_infix(
            fix_prompt_text(scene_id, script, lint_report),
            FIX_PROMPT_1@ + script + FIX_PROMPT_2@,
        ),
        (FIX_PROMPT_2@ + lint_report).is_suffix_of(fix_prompt_text(scene_id, script, lint_report)),
{
    let t = fix_prompt_text(scene_id, script, lint_report);
    let a = FIX_PROMPT_0@ + scene_id + FIX_PROMPT_1@;
    assert(t =~= a + (script + FIX_PROMPT_2@ + lint_report));
    assert(t.take(a.len() as int) =~= a);
    let x = FIX_PROMPT_1@ + script + FIX_PROMPT_2@;
    assert(t =~= (FIX_PROMPT_0@ + scene_id) + x + lint_report);
    crate::text::lemma_infix_of_concat(FIX_PROMPT_0@ + scene_id, x, lint_report);
    let pre = FIX_PROMPT_0@ + scene_id + FIX_PROMPT_1@ + script;
    let z = FIX_PROMPT_2@ + lint_report;
    assert(t =~= pre + z);
    assert(t.skip(pre.len() as int) =~= z);
}

} // verus!
