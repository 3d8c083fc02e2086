use novelize::generation::{
    fix_user_prompt, scene_file_name, scene_system_prompt, scene_user_prompt,
    storyboard_system_prompt, storyboard_user_prompt, triage_user_prompt, ExtraContext,
    FIX_SYSTEM, TRIAGE_SYSTEM,
};
use novelize::story::{SceneOutline, SceneType, Setting};

fn context() -> ExtraContext {
    ExtraContext {
        narrative: vec!["Ruby is a tutor.".to_string(), "She is kind.".to_string()],
        dialogue: vec!["Ruby speaks plainly.".to_string()],
        visuals: vec!["ruby school happy".to_string(), "bg classroom".to_string()],
        storyboard_system: "Keep it short.".to_string(),
        storyboard_prompt: "Mention loops.".to_string(),
        scene_system: "Stay in character.".to_string(),
        scene_prompt: "Use the classroom.\n".to_string(),
    }
}

fn scene() -> SceneOutline {
    SceneOutline {
        id: "scene_1_intro".to_string(),
        title: "Intro \"to\" loops".to_string(),
        scene_type: SceneType::Educational,
        setting: Setting::Classroom,
        summary: "I meet Ruby.".to_string(),
        learning_objectives: vec!["for loops".to_string(), "while \"loops\"".to_string()],
    }
}

/// The storyboard prompts built directly with `format!`.
fn expected_storyboard(topic: &str, num_scenes: u8, extra_context: &ExtraContext) -> (String, String) {
    let storyboard_system = format!(
        "You are an expert visual novel designer and curriculum developer.\nGenerate a structured storyboard/outline for a visual novel in JSON format.\nThe JSON must match this exact schema:\n{{\n  \"scenes\": [\n    {{\n      \"id\": \"scene_1_intro\",\n      \"title\": \"Introduction to Concepts\",\n      \"type\": \"educational\",\n      \"setting\": \"classroom\",\n      \"summary\": \"Ruby explains the core concept directly to the player. The player listens attentively. Ruby shows she likes the player.\",\n      \"learning_objectives\": [\"Objective 1\", \"Objective 2\"],\n    }}\n  ]\n}}\nDesign a story with {} scenes containing a mix of educational core concepts and narrative B-plot character moments.\nAll narrative and educational summary descriptions must be from a first-person perspective ('I', 'me', 'my').\nOutput ONLY valid JSON. No markdown blocks, no commentary. Do NOT introduce characters that are not listed in the character info.\n\nCharacter Info:\n  {}\n\nTemplate-specific storyboard instructions:\n{}",
        num_scenes,
    extra_context.narrative_text(),
    extra_context.storyboard_system
    );

    let storyboard_prompt = format!(
        "Educational Topic: {}\n      Character Info: {}\n      Visual assets and naming:\n      {}\n      Template-specific storyboard prompt instructions:\n      {}\nGenerate the JSON storyboard now.",
        topic,
        extra_context.narrative_text(),
        extra_context.visuals_text(),
        extra_context.storyboard_prompt
    );
    (storyboard_system, storyboard_prompt)
}

struct Shown {
    title: String,
    id: String,
    scene_type: String,
    setting: String,
    summary: String,
    learning_objectives: Vec<String>,
}

/// The scene prompts built directly with `format!`.
fn expected_scene(scene: &Shown, prev_scene_summary: Option<String>, extra_context: &ExtraContext) -> (String, String) {
    let mut scene_prompt = format!(
        "Generate a Ren'Py scene script for: \"{}\".\n\
            Scene ID: {}\n\
            Type: {}\n\
            Setting: {}\n\
            Summary: {}\n\
            Learning Objectives: {:?}\n\
            Visual assets and naming:\n\
            {}\n\
            ---\
            {}
        ",
        scene.title,
        scene.id,
        scene.scene_type,
        scene.setting,
        scene.summary,
        scene.learning_objectives,
        extra_context.visuals_text(),
        extra_context.dialogue_text()
    );

    if let Some(prev) = &prev_scene_summary {
        scene_prompt.push_str(&format!(
            "Previous Scene Summary (for continuity):\n{}\n\n",
            prev
        ));
    }

    scene_prompt.push_str(&format!(
        "Output ONLY the Ren'Py code starting with `label <scene_id>:` and ending with `return`. \
            Do not wrap it in markdown code blocks. \
            The visual novel must be written entirely in the first-person perspective of the player ('I', 'me', 'my'). \
            Use MC (mc) as character short name for player's spoken dialogue. MC must never appear as a sprite on screen. \
            Use Ruby (r) as character short name. If other characters are introduced, define them with appropriate short names. \
            Show/hide sprites appropriately according to the template visual assets. \
            Template-specific scene instructions:\n\
            {}\
            Example:\n\
            label scene_1_intro:\n\
                scene bg classroom\n\
                show ruby school happy at left\n\
                \"I walk into the classroom, and Ruby smiles warmly at me.\"\n\
                r \"Hello! Ready to learn? Let's keep it clear and direct today, no silly metaphors.\"\n\
                mc \"Yes, thank you. Let's do it.\"\n\
                return",
            extra_context.scene_prompt
    ));

    let system = format!(
                "You are an expert Ren'Py writer. Write clean dialogue and sprite positions. Output ONLY the raw Ren'Py script for the requested label. No markdown code blocks.\n\nTemplate-specific scene system instructions:\n{}",
                extra_context.scene_system
            );
    (scene_prompt, system)
}

fn shown(scene: &SceneOutline) -> Shown {
    Shown {
        title: scene.title.clone(),
        id: scene.id.clone(),
        scene_type: scene.scene_type.display_text(),
        setting: scene.setting.display_text(),
        summary: scene.summary.clone(),
        learning_objectives: scene.learning_objectives.clone(),
    }
}

#[test]
fn storyboard_prompts_match_the_generation_stage() {
    let ctx = context();
    for n in [0u8, 4, 12, 255] {
        let (system, prompt) = expected_storyboard("Rust loops", n, &ctx);
        assert_eq!(storyboard_system_prompt(n, &ctx), system);
        assert_eq!(storyboard_user_prompt("Rust loops", &ctx), prompt);
    }
    let empty = ExtraContext::default();
    let (system, prompt) = expected_storyboard("", 3, &empty);
    assert_eq!(storyboard_system_prompt(3, &empty), system);
    assert_eq!(storyboard_user_prompt("", &empty), prompt);
}

#[test]
fn scene_prompts_match_the_scene_stage() {
    let ctx = context();
    let s = scene();
    let (prompt, system) = expected_scene(&shown(&s), None, &ctx);
    assert_eq!(scene_user_prompt(&s, &None, &ctx), prompt);
    assert_eq!(scene_system_prompt(&ctx), system);
    let prev = Some("I arrived late.".to_string());
    let (prompt, _) = expected_scene(&shown(&s), prev.clone(), &ctx);
    assert_eq!(scene_user_prompt(&s, &prev, &ctx), prompt);
    assert!(prompt.contains("Previous Scene Summary (for continuity):\nI arrived late.\n\n"));
    assert!(prompt.contains("Learning Objectives: [\"for loops\", \"while \\\"loops\\\"\"]"));
    assert!(prompt.contains("Type: educational\nSetting: Classroom\n"));
}

fn expected_triage(lint_report: &str, known_scene_ids: &[String]) -> (String, String) {
    let system = "You are a Ren'Py build error triager.\nGiven a raw `renpy lint` report and a list of known scene label ids, identify which scene ids the errors belong to.\nOutput ONLY valid JSON matching this schema, no markdown, no commentary:\n{ \"affected_scene_ids\": [\"scene_1_intro\"] }\nOnly include ids from the known list. If an error can't be attributed to a specific scene (e.g. a global script.rpy issue), omit it.";

    let prompt = format!(
        "Known scene ids: {:?}\n\nLint report:\n{}\n\nWhich scene ids need fixing?",
        known_scene_ids, lint_report
    );
    (system.to_string(), prompt)
}

fn expected_fix(scene_id: &str, current_script: &str, lint_report: &str) -> (String, String) {
    let system = "You are an expert Ren'Py debugger.\nYou will be given a broken Ren'Py scene script and the full lint report for the project.\nFix ONLY the errors in this script that are attributable to it (e.g. undefined images, malformed tags, bad label/menu syntax, unclosed text tags).\nPreserve the dialogue, structure, characters, and intent exactly \u{2014} do not rewrite content that isn't broken.\nOutput ONLY the corrected raw Ren'Py script for this label, no markdown code blocks, no commentary.";

    let prompt = format!(
        "Scene id: {}\n\nCurrent script:\n{}\n\nFull project lint report (only fix parts relevant to this scene):\n{}",
        scene_id, current_script, lint_report
    );
    (system.to_string(), prompt)
}

#[test]
fn triage_and_fix_prompts_match_the_linting_stage() {
    let ids = vec!["scene_1_intro".to_string(), "scene_2".to_string()];
    let (system, prompt) = expected_triage("game/scenes/scene_2.rpy:3 error", &ids);
    assert_eq!(TRIAGE_SYSTEM, system);
    assert_eq!(triage_user_prompt("game/scenes/scene_2.rpy:3 error", &ids), prompt);
    assert!(prompt.starts_with("Known scene ids: [\"scene_1_intro\", \"scene_2\"]\n\nLint report:\n"));
    let (system, prompt) = expected_fix("scene_2", "label scene_2:\n    return", "bad tag");
    assert_eq!(FIX_SYSTEM, system);
    assert_eq!(fix_user_prompt("scene_2", "label scene_2:\n    return", "bad tag"), prompt);
    assert_eq!(scene_file_name("scene_2"), format!("{}.rpy", "scene_2"));
}

#[test]
fn scene_type_and_setting_names() {
    assert_eq!(SceneType::Educational.display_text(), "educational");
    assert_eq!(SceneType::Narrative.display_text(), "narrative");
    assert_eq!(Setting::Classroom.display_text(), "Classroom");
    assert_eq!(Setting::Campus.display_text(), "Campus");
    assert_eq!(SceneType::from_text("narrative"), Some(SceneType::Narrative));
    assert_eq!(SceneType::from_text("Narrative"), None);
    assert_eq!(Setting::from_text("Campus"), Some(Setting::Campus));
    assert_eq!(Setting::from_text("campus"), None);
}

#[test]
fn extra_context_texts() {
    let ctx = context();
    assert_eq!(ctx.narrative_text(), "\nRuby is a tutor.\nShe is kind.");
    assert_eq!(ctx.dialogue_text(), "\nRuby speaks plainly.");
    assert_eq!(ctx.visuals_text(), "\nruby school happy\nbg classroom");
    assert_eq!(ExtraContext::default().narrative_text(), "");
}
