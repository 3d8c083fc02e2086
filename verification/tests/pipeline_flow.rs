use novelize::generation::{scene_system_prompt, scene_user_prompt, ExtraContext};
use novelize::pipeline::{
    main_script, scene_ids, scene_requests, LintRepairLoop, RepairAction, RepairPhase,
};
use novelize::renpy::LintOutput;
use novelize::story::{SceneOutline, SceneType, Setting, Storyboard};

fn outline(id: &str, summary: &str) -> SceneOutline {
    SceneOutline {
        id: id.to_string(),
        title: format!("Title of {}", id),
        scene_type: SceneType::Narrative,
        setting: Setting::Campus,
        summary: summary.to_string(),
        learning_objectives: vec![],
    }
}

fn board() -> Storyboard {
    Storyboard {
        scenes: vec![
            outline("scene_1_intro", "I meet Ruby."),
            outline("scene_2_loops", "Ruby explains loops."),
            outline("scene_3_end", "We say goodbye."),
        ],
    }
}

#[test]
fn scene_requests_carry_the_previous_summary() {
    let ctx = ExtraContext::default();
    let b = board();
    let reqs = scene_requests(&b, &ctx);
    assert_eq!(reqs.len(), 3);
    assert_eq!(reqs[0].scene_id, "scene_1_intro");
    assert_eq!(reqs[1].file_name, "scene_2_loops.rpy");
    assert_eq!(reqs[0].prompt, scene_user_prompt(&b.scenes[0], &None, &ctx));
    assert_eq!(
        reqs[2].prompt,
        scene_user_prompt(&b.scenes[2], &Some("Ruby explains loops.".to_string()), &ctx)
    );
    assert!(!reqs[0].prompt.contains("Previous Scene Summary"));
    assert!(reqs[1].prompt.contains("Previous Scene Summary (for continuity):\nI meet Ruby.\n\n"));
    assert_eq!(reqs[1].system, scene_system_prompt(&ctx));
    assert!(scene_requests(&Storyboard { scenes: vec![] }, &ctx).is_empty());
}

#[test]
fn main_script_calls_every_scene_in_order() {
    let ids = scene_ids(&board());
    assert_eq!(ids, vec!["scene_1_intro", "scene_2_loops", "scene_3_end"]);
    assert_eq!(
        main_script(&ids),
        "# Main script entry point.\n# Automatically generated by Novelize modular pipeline.\n\n\
         label start:\n    # Begin visual novel\n    call scene_1_intro\n    call scene_2_loops\n    \
         call scene_3_end\n    return\n"
    );
    assert_eq!(
        main_script(&[]),
        "# Main script entry point.\n# Automatically generated by Novelize modular pipeline.\n\n\
         label start:\n    return\n"
    );
}

fn failed(out: &str, err: &str) -> LintOutput {
    LintOutput { success: false, stdout: out.as_bytes().to_vec(), stderr: err.as_bytes().to_vec() }
}

fn passed() -> LintOutput {
    LintOutput { success: true, stdout: vec![], stderr: vec![] }
}

#[test]
fn no_attempts_means_no_lint() {
    let (l, action) = LintRepairLoop::start(0);
    assert_eq!(l.phase, RepairPhase::Finished);
    assert!(matches!(action, RepairAction::Succeed));
}

#[test]
fn passing_lint_finishes() {
    let (mut l, action) = LintRepairLoop::start(3);
    assert!(matches!(action, RepairAction::RunLint));
    assert!(matches!(l.on_lint(&passed()), RepairAction::Succeed));
    assert_eq!(l.phase, RepairPhase::Finished);
}

#[test]
fn failed_lint_is_triaged_repaired_and_linted_again() {
    let (mut l, _) = LintRepairLoop::start(3);
    match l.on_lint(&failed("scene_2 broken", "warning")) {
        RepairAction::Triage { report } => assert_eq!(report, "scene_2 broken\nwarning"),
        other => panic!("unexpected {:?}", other),
    }
    match l.on_triage(vec!["scene_2".to_string()]) {
        RepairAction::Repair { scene_ids, report } => {
            assert_eq!(scene_ids, vec!["scene_2"]);
            assert_eq!(report, "scene_2 broken\nwarning");
        }
        other => panic!("unexpected {:?}", other),
    }
    assert!(matches!(l.on_repaired(), RepairAction::RunLint));
    assert_eq!(l.attempt, 2);
    assert!(matches!(l.on_lint(&passed()), RepairAction::Succeed));
}

#[test]
fn empty_triage_fails_with_the_report() {
    let (mut l, _) = LintRepairLoop::start(2);
    l.on_lint(&failed("global error", ""));
    match l.on_triage(vec![]) {
        RepairAction::Fail { message } => assert_eq!(
            message,
            "Lint failed but triage identified no fixable scene files:\nglobal error\n"
        ),
        other => panic!("unexpected {:?}", other),
    }
    assert_eq!(l.phase, RepairPhase::Finished);
}

#[test]
fn last_failed_attempt_gives_up_with_the_lint_output() {
    let (mut l, _) = LintRepairLoop::start(2);
    let mut lint_runs = 1;
    let mut action = l.on_lint(&failed("still bad", "err"));
    let mut events = 1;
    loop {
        action = match action {
            RepairAction::Triage { .. } => l.on_triage(vec!["scene_1".to_string()]),
            RepairAction::Repair { .. } => l.on_repaired(),
            RepairAction::RunLint => {
                lint_runs += 1;
                l.on_lint(&failed("still bad", "err"))
            }
            _ => break,
        };
        events += 1;
    }
    assert_eq!(lint_runs, 2);
    assert!(events <= 3 * 2);
    match action {
        RepairAction::Fail { message } => {
            assert_eq!(message, "Ren'Py lint still failing after 2 fix attempts:\nstill bad")
        }
        other => panic!("unexpected {:?}", other),
    }
}

#[test]
fn lint_output_is_decoded_lossily() {
    let (mut l, _) = LintRepairLoop::start(1);
    let out = LintOutput { success: false, stdout: vec![b'x', 0xc3], stderr: vec![] };
    match l.on_lint(&out) {
        RepairAction::Fail { message } => {
            assert_eq!(message, "Ren'Py lint still failing after 1 fix attempts:\nx\u{fffd}")
        }
        other => panic!("unexpected {:?}", other),
    }
}
