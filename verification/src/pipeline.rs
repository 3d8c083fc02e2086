//! The generation pipeline's own decisions: which scene requests to make,
//! how the main script calls the scenes, and when to lint, triage, repair,
//! succeed or give up.

use vstd::prelude::*;
use crate::generation::ExtraContext;
use crate::renpy::LintOutput;
use crate::story::Storyboard;

verus! {

/// The model used for planning the storyboard.
pub const EXPENSIVE_MODEL: &'static str = "gemini-3.5-flash-lite";

/// The model used for writing, triaging and repairing scenes.
pub const CHEAP_MODEL: &'static str = "gemini-3.5-flash-lite";

/// Everything needed to have the model write one scene and store it.
#[derive(Debug)]
pub struct SceneRequest {
    pub scene_id: String,
    pub file_name: String,
    pub prompt: String,
    pub system: String,
}

/// The summary of the scene before scene `i`, if there is one.
pub open spec fn previous_summary(scenes: Seq<crate::story::SceneOutline>, i: int) -> Option<Seq<char>> {
    if i == 0 {
        None
    } else {
        Some(scenes[i - 1].summary@)
    }
}

/// The requests for writing each planned scene, in playing order; each
/// prompt carries the previous scene's summary for continuity.
pub fn scene_requests(board: &Storyboard, ctx: &ExtraContext) -> (res: Vec<SceneRequest>)
    ensures
        res@.len() == board.scenes@.len(),
        forall|i: int|
            0 <= i < res@.len() ==> {
                &&& (#[trigger] res@[i]).scene_id@ == board.scenes@[i].id@
                &&& res@[i].file_name@ == board.scenes@[i].id@
                    + crate::generation::SCENE_FILE_SUFFIX@
                &&& res@[i].prompt@ == crate::generation::scene_prompt_text(
                    board.scenes@[i],
                    previous_summary(board.scenes@, i),
                    *ctx,
                )
                &&& res@[i].prompt@ == crate::generation::scene_prompt_text(
                    board.scenes@[i],
                    if i == 0 {
                        None
                    } else {
                        Some(board.scenes@[i - 1].summary@)
                    },
                    *ctx,
                )
                &&& res@[i].system@ == crate::generation::scene_system_text(*ctx)
            },
{
    let scenes = &board.scenes;
    let n = scenes.len();
    let mut out: Vec<SceneRequest> = Vec::new();
    let mut previous: Option<String> = None;
    for i in 0..n
        invariant
            n == scenes@.len(),
            scenes@ == board.scenes@,
            out@.len() == i,
            i == 0 ==> previous is None,
            i > 0 ==> (previous matches Some(p) && p@ == scenes@[i - 1].summary@),
            forall|k: int|
                0 <= k < i ==> {
                    &&& (#[trigger] out@[k]).scene_id@ == scenes@[k].id@
                    &&& out@[k].file_name@ == scenes@[k].id@
                        + crate::generation::SCENE_FILE_SUFFIX@
                    &&& out@[k].prompt@ == crate::generation::scene_prompt_text(
                        scenes@[k],
                        previous_summary(scenes@, k),
                        *ctx,
                    )
                    &&& out@[k].system@ == crate::generation::scene_system_text(*ctx)
                },
    {
        let scene = &scenes[i];
        let prompt = crate::generation::scene_user_prompt(scene, &previous, ctx);
        let system = crate::generation::scene_system_prompt(ctx);
        let file_name = crate::generation::scene_file_name(scene.id.as_str());
        let scene_id = scene.id.clone();
        out.push(SceneRequest { scene_id, file_name, prompt, system });
        previous = Some(scene.summary.clone());
    }
    out
}

/// Continuity: the prompt for every scene after the first carries the
/// summary of the scene just before it, whatever the two scenes' types and
/// settings; the first scene is written with no previous summary.
pub proof fn lemma_scene_requests_continuity(
    scenes: Seq<crate::story::SceneOutline>,
    i: int,
    ctx: ExtraContext,
)
    requires
        0 <= i < scenes.len(),
    ensures
        i > 0 ==> crate::text::has_infix(
            crate::generation::scene_prompt_text(scenes[i], previous_summary(scenes, i), ctx),
            crate::generation::SCENE_PREVIOUS_0@ + scenes[i - 1].summary@
                + crate::generation::SCENE_PREVIOUS_1@,
        ),
        i == 0 ==> crate::generation::scene_prompt_text(scenes[i], previous_summary(scenes, i), ctx)
            == crate::generation::scene_prompt_text(scenes[i], None, ctx),
{
    if i > 0 {
        crate::generation::lemma_scene_prompt_carries_previous(scenes[i], scenes[i - 1].summary@, ctx);
    }
}

/// The scene ids of a storyboard, in playing order.
pub fn scene_ids(board: &Storyboard) -> (res: Vec<String>)
    ensures
        res@.len() == board.scenes@.len(),
        forall|i: int| 0 <= i < res@.len() ==> (#[trigger] res@[i])@ == board.scenes@[i].id@,
{
    let n = board.scenes.len();
    let mut out: Vec<String> = Vec::new();
    for i in 0..n
        invariant
            n == board.scenes@.len(),
            out@.len() == i,
            forall|k: int| 0 <= k < i ==> (#[trigger] out@[k])@ == board.scenes@[k].id@,
    {
        out.push(board.scenes[i].id.clone());
    }
    out
}

pub const SCRIPT_HEADER: &'static str = "# Main script entry point.\n# Automatically generated by Novelize modular pipeline.\n\nlabel start:\n";

pub const FIRST_CALL: &'static str = "    # Begin visual novel\n    call ";

pub const CALL: &'static str = "    call ";

pub const LINE_END: &'static str = "\n";

pub const SCRIPT_END: &'static str = "    return\n";

/// The call lines for the given scenes, the first one introduced by a
/// comment.
pub open spec fn scene_calls(ids: Seq<Seq<char>>) -> Seq<char>
    decreases ids.len(),
{
    if ids.len() == 0 {
        Seq::empty()
    } else {
        scene_calls(ids.drop_last()) + (if ids.len() == 1 {
            FIRST_CALL@
        } else {
            CALL@
        }) + ids.last() + LINE_END@
    }
}

/// The main script: the `start` label calling every scene in order, then
/// returning.
pub open spec fn main_script_text(ids: Seq<Seq<char>>) -> Seq<char> {
    SCRIPT_HEADER@ + scene_calls(ids) + SCRIPT_END@
}

proof fn lemma_scene_calls_prefix(ids: Seq<Seq<char>>, j: int)
    requires
        0 <= j <= ids.len(),
    ensures
        scene_calls(ids.take(j)).is_prefix_of(scene_calls(ids)),
    decreases ids.len(),
{
    if j == ids.len() {
        assert(ids.take(j) =~= ids);
    } else {
        lemma_scene_calls_prefix(ids.drop_last(), j);
        assert(ids.drop_last().take(j) =~= ids.take(j));
    }
}

/// Every scene is called by the main script: the call line of scene `i`
/// (introduced by a comment for the first scene) appears in it, right after
/// the call lines of the scenes before it.
pub proof fn lemma_main_script_calls_every_scene(ids: Seq<Seq<char>>, i: int)
    requires
        0 <= i < ids.len(),
    ensures
        crate::text::has_infix(
            main_script_text(ids),
            (if i == 0 {
                FIRST_CALL@
            } else {
                CALL@
            }) + ids[i] + LINE_END@,
        ),
        (SCRIPT_HEADER@ + scene_calls(ids.take(i)) + (if i == 0 {
            FIRST_CALL@
        } else {
            CALL@
        }) + ids[i] + LINE_END@).is_prefix_of(main_script_text(ids)),
{
    let c = scene_calls(ids);
    let ti = ids.take(i + 1);
    lemma_scene_calls_prefix(ids, i + 1);
    assert(ti.drop_last() =~= ids.take(i));
    assert(ti.last() == ids[i]);
    let marker = if i == 0 {
        FIRST_CALL@
    } else {
        CALL@
    };
    let x = marker + ids[i] + LINE_END@;
    let p = scene_calls(ids.take(i));
    assert(scene_calls(ti) == p + marker + ids[i] + LINE_END@);
    let rest = c.skip(scene_calls(ti).len() as int);
    assert(c =~= scene_calls(ti) + rest);
    let t = main_script_text(ids);
    assert(t =~= (SCRIPT_HEADER@ + p) + x + (rest + SCRIPT_END@));
    crate::text::lemma_infix_of_concat(SCRIPT_HEADER@ + p, x, rest + SCRIPT_END@);
    let head = SCRIPT_HEADER@ + p + x;
    assert(t =~= head + (rest + SCRIPT_END@));
    assert(t.subrange(0, head.len() as int) =~= head);
}

/// Adding a scene adds exactly its call line before the closing `return`:
/// the script for no scenes is the header and the return; the first scene's
/// call is introduced by a comment; every later scene adds a plain call.
pub proof fn lemma_main_script_push(ids: Seq<Seq<char>>, x: Seq<char>)
    ensures
        main_script_text(Seq::empty()) == SCRIPT_HEADER@ + SCRIPT_END@,
        ids.len() == 0 ==> main_script_text(ids.push(x)) == SCRIPT_HEADER@ + FIRST_CALL@ + x
            + LINE_END@ + SCRIPT_END@,
        ids.len() > 0 ==> main_script_text(ids.push(x)) == main_script_text(ids).take(
            main_script_text(ids).len() - SCRIPT_END@.len(),
        ) + CALL@ + x + LINE_END@ + SCRIPT_END@,
{
    assert(SCRIPT_HEADER@ + Seq::<char>::empty() + SCRIPT_END@ =~= SCRIPT_HEADER@ + SCRIPT_END@);
    let e = Seq::<Seq<char>>::empty();
    assert(scene_calls(e) == Seq::<char>::empty());
    let ip = ids.push(x);
    assert(ip.drop_last() =~= ids);
    assert(ip.last() == x);
    if ids.len() == 0 {
        assert(ids =~= e);
        assert(main_script_text(ip) =~= SCRIPT_HEADER@ + FIRST_CALL@ + x + LINE_END@
            + SCRIPT_END@);
    } else {
        let t = main_script_text(ids);
        let front = SCRIPT_HEADER@ + scene_calls(ids);
        assert(t =~= front + SCRIPT_END@);
        assert(t.take(t.len() - SCRIPT_END@.len()) =~= front);
        assert(main_script_text(ip) =~= front + CALL@ + x + LINE_END@ + SCRIPT_END@);
    }
}

/// Builds the main script that plays the scenes in order.
pub fn main_script(scene_ids: &[String]) -> (res: String)
    ensures
        res@ == main_script_text(crate::text::texts(scene_ids@)),
{
    let mut s = String::from_str(SCRIPT_HEADER);
    let n = scene_ids.len();
    for i in 0..n
        invariant
            n == scene_ids@.len(),
            s@ == SCRIPT_HEADER@ + scene_calls(crate::text::texts(scene_ids@.take(i as int))),
    {
        let ghost before = s@;
        let ghost ids = crate::text::texts(scene_ids@.take(i + 1));
        assert(ids.drop_last() =~= crate::text::texts(scene_ids@.take(i as int)));
        assert(ids.last() == scene_ids@[i as int]@);
        if i == 0 {
            s.append(FIRST_CALL);
        } else {
            s.append(CALL);
        }
        s.append(scene_ids[i].as_str());
        s.append(LINE_END);
        assert(s@ =~= SCRIPT_HEADER@ + scene_calls(ids));
    }
    assert(scene_ids@.take(n as int) =~= scene_ids@);
    s.append(SCRIPT_END);
    s
}


/// Where the lint-and-repair loop stands.
#[derive(Debug, Clone, Copy, PartialEq, Eq, Structural)]
pub enum RepairPhase {
    /// Waiting for a lint run.
    AwaitingLint,
    /// Waiting for the model to say which scenes a failed lint concerns.
    AwaitingTriage,
    /// Waiting for the named scenes to be repaired.
    AwaitingRepairs,
    /// Done, successfully or not.
    Finished,
}

/// What happened since the loop's last decision.
#[derive(Debug, Clone, Copy, PartialEq, Eq, Structural)]
pub enum RepairEvent {
    LintPassed,
    LintFailed,
    TriageFoundNone,
    TriageFoundScenes,
    ScenesRepaired,
}

/// What the caller must do next.
#[derive(Debug)]
pub enum RepairAction {
    /// Run `renpy lint` on the project.
    RunLint,
    /// Ask the model which scenes the lint report concerns.
    Triage { report: String },
    /// Have the model repair each of these scenes given the report.
    Repair { scene_ids: Vec<String>, report: String },
    /// Stop: the project is done.
    Succeed,
    /// Stop: the run failed with this message.
    Fail { message: String },
}

/// The lint-and-repair loop: lint at most `max_attempts` times; after a
/// failed lint that is not the last, have the model find and repair the
/// scenes at fault, then lint again.
#[derive(Debug)]
pub struct LintRepairLoop {
    pub max_attempts: u8,
    /// The number of the current lint attempt, from 1.
    pub attempt: u8,
    pub phase: RepairPhase,
    /// The report of the last failed lint.
    pub report: String,
}

/// The invariant of the loop: while it runs, the attempt lies within
/// `1..=max_attempts`, and between a failed lint and the next lint the
/// attempt is not the last.
pub open spec fn repair_state_ok(max_attempts: u8, attempt: u8, phase: RepairPhase) -> bool {
    &&& phase != RepairPhase::Finished ==> 1 <= attempt <= max_attempts
    &&& (phase == RepairPhase::AwaitingTriage || phase == RepairPhase::AwaitingRepairs)
        ==> attempt < max_attempts
}

/// Whether an event is the one the loop waits for in `phase`.
pub open spec fn event_expected(phase: RepairPhase, event: RepairEvent) -> bool {
    match phase {
        RepairPhase::AwaitingLint => event == RepairEvent::LintPassed || event
            == RepairEvent::LintFailed,
        RepairPhase::AwaitingTriage => event == RepairEvent::TriageFoundNone || event
            == RepairEvent::TriageFoundScenes,
        RepairPhase::AwaitingRepairs => event == RepairEvent::ScenesRepaired,
        RepairPhase::Finished => false,
    }
}

/// The attempt number and phase after an expected event.
pub open spec fn next_repair_state(max_attempts: u8, attempt: u8, phase: RepairPhase, event: RepairEvent) -> (u8, RepairPhase) {
    match event {
        RepairEvent::LintPassed => (attempt, RepairPhase::Finished),
        RepairEvent::LintFailed => if attempt >= max_attempts {
            (attempt, RepairPhase::Finished)
        } else {
            (attempt, RepairPhase::AwaitingTriage)
        },
        RepairEvent::TriageFoundNone => (attempt, RepairPhase::Finished),
        RepairEvent::TriageFoundScenes => (attempt, RepairPhase::AwaitingRepairs),
        RepairEvent::ScenesRepaired => ((attempt + 1) as u8, RepairPhase::AwaitingLint),
    }
}

/// An upper bound on the events the loop still waits for.
pub open spec fn remaining_work(max_attempts: u8, attempt: u8, phase: RepairPhase) -> int {
    match phase {
        RepairPhase::Finished => 0,
        RepairPhase::AwaitingLint => 3 * (max_attempts - attempt) + 3,
        RepairPhase::AwaitingTriage => 3 * (max_attempts - attempt) + 2,
        RepairPhase::AwaitingRepairs => 3 * (max_attempts - attempt) + 1,
    }
}

pub const MSG_STILL_FAILING: &'static str = "Ren'Py lint still failing after ";

pub const MSG_FIX_ATTEMPTS: &'static str = " fix attempts:\n";

pub const MSG_NO_FIXABLE: &'static str = "Lint failed but triage identified no fixable scene files:\n";

/// The failure message once the last lint attempt has failed.
pub open spec fn exhausted_message(max_attempts: u8, stdout: Seq<u8>) -> Seq<char> {
    MSG_STILL_FAILING@ + crate::text::decimal_text(max_attempts as nat) + MSG_FIX_ATTEMPTS@
        + crate::text::utf8_lossy_text(stdout)
}

/// The report handed to triage and repair: the lint's standard output and
/// standard error, on separate lines.
pub open spec fn lint_report_text(stdout: Seq<u8>, stderr: Seq<u8>) -> Seq<char> {
    crate::text::utf8_lossy_text(stdout) + LINE_END@ + crate::text::utf8_lossy_text(stderr)
}

impl LintRepairLoop {
    /// Whether the loop's state is consistent.
    pub open spec fn wf(&self) -> bool {
        repair_state_ok(self.max_attempts, self.attempt, self.phase)
    }

    /// Tests the loop's invariant.
    pub fn is_consistent(&self) -> (res: bool)
        ensures
            res == self.wf(),
    {
        (self.phase == RepairPhase::Finished || (1 <= self.attempt && self.attempt
            <= self.max_attempts)) && ((self.phase != RepairPhase::AwaitingTriage && self.phase
            != RepairPhase::AwaitingRepairs) || self.attempt < self.max_attempts)
    }

    /// Starts the loop: with no attempts allowed it is finished at once,
    /// otherwise the first lint is due.
    pub fn start(max_attempts: u8) -> (res: (LintRepairLoop, RepairAction))
        ensures
            res.0.wf(),
            res.0.max_attempts == max_attempts,
            max_attempts == 0 ==> res.0.phase == RepairPhase::Finished && res.1 is Succeed,
            max_attempts > 0 ==> res.0.phase == RepairPhase::AwaitingLint && res.0.attempt == 1
                && res.1 is RunLint,
            remaining_work(res.0.max_attempts, res.0.attempt, res.0.phase) <= 3 * max_attempts,
    {
        if max_attempts == 0 {
            (
                LintRepairLoop {
                    max_attempts,
                    attempt: 0,
                    phase: RepairPhase::Finished,
                    report: String::new(),
                },
                RepairAction::Succeed,
            )
        } else {
            (
                LintRepairLoop {
                    max_attempts,
                    attempt: 1,
                    phase: RepairPhase::AwaitingLint,
                    report: String::new(),
                },
                RepairAction::RunLint,
            )
        }
    }

    /// Takes the outcome of a lint run: success ends the loop; a failure on
    /// the last attempt ends it with the lint's output; any other failure
    /// asks for triage with the full report.
    pub fn on_lint(&mut self, output: &LintOutput) -> (res: RepairAction)
        requires
            old(self).wf(),
            old(self).phase == RepairPhase::AwaitingLint,
        ensures
            final(self).wf(),
            final(self).max_attempts == old(self).max_attempts,
            (final(self).attempt, final(self).phase) == next_repair_state(
                old(self).max_attempts,
                old(self).attempt,
                old(self).phase,
                if output.success {
                    RepairEvent::LintPassed
                } else {
                    RepairEvent::LintFailed
                },
            ),
            output.success ==> res is Succeed,
            !output.success && old(self).attempt == old(self).max_attempts ==> (res matches RepairAction::Fail { message }
                && message@ == exhausted_message(old(self).max_attempts, output.stdout@)),
            !output.success && old(self).attempt < old(self).max_attempts ==> (res matches RepairAction::Triage { report }
                && report@ == lint_report_text(output.stdout@, output.stderr@)
                && final(self).report@ == report@),
    {
        if output.success {
            self.phase = RepairPhase::Finished;
            return RepairAction::Succeed;
        }
        let out = crate::text::decode_lossy(output.stdout.as_slice());
        if self.attempt == self.max_attempts {
            let mut message = String::from_str(MSG_STILL_FAILING);
            let n = crate::text::decimal_u8(self.max_attempts);
            message.append(n.as_str());
            message.append(MSG_FIX_ATTEMPTS);
            message.append(out.as_str());
            self.phase = RepairPhase::Finished;
            return RepairAction::Fail { message };
        }
        let err = crate::text::decode_lossy(output.stderr.as_slice());
        let mut report = out;
        report.append(LINE_END);
        report.append(err.as_str());
        self.report = report.clone();
        self.phase = RepairPhase::AwaitingTriage;
        RepairAction::Triage { report }
    }

    /// Takes the scenes triage blamed: none ends the loop with a failure
    /// naming the report; otherwise those scenes are to be repaired.
    pub fn on_triage(&mut self, affected: Vec<String>) -> (res: RepairAction)
        requires
            old(self).wf(),
            old(self).phase == RepairPhase::AwaitingTriage,
        ensures
            final(self).wf(),
            final(self).max_attempts == old(self).max_attempts,
            final(self).report == old(self).report,
            (final(self).attempt, final(self).phase) == next_repair_state(
                old(self).max_attempts,
                old(self).attempt,
                old(self).phase,
                if affected@.len() == 0 {
                    RepairEvent::TriageFoundNone
                } else {
                    RepairEvent::TriageFoundScenes
                },
            ),
            affected@.len() == 0 ==> (res matches RepairAction::Fail { message } && message@
                == MSG_NO_FIXABLE@ + old(self).report@),
            affected@.len() > 0 ==> (res matches RepairAction::Repair { scene_ids, report }
                && scene_ids@ == affected@ && report@ == old(self).report@),
    {
        if affected.len() == 0 {
            let mut message = String::from_str(MSG_NO_FIXABLE);
            message.append(self.report.as_str());
            self.phase = RepairPhase::Finished;
            return RepairAction::Fail { message };
        }
        self.phase = RepairPhase::AwaitingRepairs;
        RepairAction::Repair { scene_ids: affected, report: self.report.clone() }
    }

    /// Takes the news that the blamed scenes were repaired: the next lint
    /// attempt is due.
    pub fn on_repaired(&mut self) -> (res: RepairAction)
        requires
            old(self).wf(),
            old(self).phase == RepairPhase::AwaitingRepairs,
        ensures
            final(self).wf(),
            final(self).max_attempts == old(self).max_attempts,
            final(self).report == old(self).report,
            (final(self).attempt, final(self).phase) == next_repair_state(
                old(self).max_attempts,
                old(self).attempt,
                old(self).phase,
                RepairEvent::ScenesRepaired,
            ),
            final(self).attempt == old(self).attempt + 1,
            res is RunLint,
    {
        self.attempt = self.attempt + 1;
        self.phase = RepairPhase::AwaitingLint;
        RepairAction::RunLint
    }
}

/// The loop always ends: every expected event in a consistent state leads
/// to a consistent state with strictly less remaining work, and a loop
/// starts with at most three events per allowed attempt. So it takes at
/// most `3 * max_attempts` events, and lint runs at most `max_attempts`
/// times.
pub proof fn lemma_repair_loop_progress(
    max_attempts: u8,
    attempt: u8,
    phase: RepairPhase,
    event: RepairEvent,
)
    requires
        repair_state_ok(max_attempts, attempt, phase),
        event_expected(phase, event),
    ensures
        ({
            let (a, p) = next_repair_state(max_attempts, attempt, phase, event);
            &&& repair_state_ok(max_attempts, a, p)
            &&& 0 <= remaining_work(max_attempts, a, p) < remaining_work(max_attempts, attempt, phase)
            &&& p == RepairPhase::AwaitingLint ==> a == attempt + 1 && a <= max_attempts
        }),
{
}

} // verus!
