//! Decisions around the Ren'Py SDK: whether an SDK directory is usable, how
//! its linter is launched, and how its failures are reported.

use vstd::prelude::*;

verus! {

/// What a finished `renpy lint` run reported.
#[derive(Debug)]
pub struct LintOutput {
    /// Whether the process exited successfully.
    pub success: bool,
    pub stdout: Vec<u8>,
    pub stderr: Vec<u8>,
}

/// Failures around the Ren'Py SDK.
#[derive(Debug)]
pub enum RenPyError {
    SdkNotFound,
    /// The SDK directory at this path is unusable.
    SdkInvalid(String),
    /// Lint ran and reported problems.
    LintFailed(LintOutput),
    /// An input/output failure, with its message.
    Io(String),
    /// The lint process could not be started, with the reason.
    LintSpawnFailed(String),
}

pub const MSG_SDK_NOT_FOUND: &'static str = "Ren'Py SDK not found";

pub const MSG_SDK_PREFIX: &'static str = "Ren'Py SDK ";

pub const MSG_SDK_INVALID: &'static str = " is invalid";

pub const MSG_LINT_FAILED: &'static str = "Ren'Py lint failed:\n";

pub const MSG_SPAWN_FAILED: &'static str = "Failed to spawn process for Ren'Py lint:\n";

/// The message `io::Error` gives for a missing file or directory.
pub const MSG_NOT_FOUND: &'static str = "entity not found";

/// The human-readable message for a Ren'Py failure.
pub open spec fn renpy_error_message(e: RenPyError) -> Seq<char> {
    match e {
        RenPyError::SdkNotFound => MSG_SDK_NOT_FOUND@,
        RenPyError::SdkInvalid(p) => MSG_SDK_PREFIX@ + p@ + MSG_SDK_INVALID@,
        RenPyError::LintFailed(o) => MSG_LINT_FAILED@ + crate::text::utf8_lossy_text(o.stderr@),
        RenPyError::Io(m) => m@,
        RenPyError::LintSpawnFailed(m) => MSG_SPAWN_FAILED@ + m@,
    }
}

impl RenPyError {
    /// The human-readable message.
    pub fn describe(&self) -> (res: String)
        ensures
            res@ == renpy_error_message(*self),
    {
        match self {
            RenPyError::SdkNotFound => String::from_str(MSG_SDK_NOT_FOUND),
            RenPyError::SdkInvalid(p) => {
                let mut s = String::from_str(MSG_SDK_PREFIX);
                s.append(p.as_str());
                s.append(MSG_SDK_INVALID);
                s
            },
            RenPyError::LintFailed(o) => {
                let mut s = String::from_str(MSG_LINT_FAILED);
                let err = crate::text::decode_lossy(o.stderr.as_slice());
                s.append(err.as_str());
                s
            },
            RenPyError::Io(m) => m.clone(),
            RenPyError::LintSpawnFailed(m) => {
                let mut s = String::from_str(MSG_SPAWN_FAILED);
                s.append(m.as_str());
                s
            },
        }
    }
}

/// What the file system says of an SDK directory.
#[derive(Debug, Clone, Copy, PartialEq, Eq, Structural)]
pub struct SdkProbe {
    /// The SDK path is a directory.
    pub sdk_is_dir: bool,
    /// `renpy.py` inside it is a file.
    pub renpy_py_is_file: bool,
    /// `lib` inside it is a directory.
    pub lib_is_dir: bool,
}

/// Whether an SDK with these file-system facts is usable.
pub open spec fn sdk_usable(p: SdkProbe) -> bool {
    p.sdk_is_dir && p.renpy_py_is_file && p.lib_is_dir
}

/// Decides whether the directory at `sdk_path` is a usable Ren'Py SDK: it
/// must be a directory holding the file `renpy.py` and the directory `lib`.
pub fn is_valid_renpy_sdk(sdk_path: &str, probe: &SdkProbe) -> (r: Result<(), RenPyError>)
    ensures
        r is Ok <==> sdk_usable(*probe),
        r is Ok <==> (probe.sdk_is_dir && probe.renpy_py_is_file && probe.lib_is_dir),
        r matches Err(e) ==> (e matches RenPyError::SdkInvalid(p) && p@ == sdk_path@),
{
    if !probe.sdk_is_dir {
        return Err(RenPyError::SdkInvalid(String::from_str(sdk_path)));
    }
    if probe.renpy_py_is_file && probe.lib_is_dir {
        Ok(())
    } else {
        Err(RenPyError::SdkInvalid(String::from_str(sdk_path)))
    }
}

pub const WINDOWS: &'static str = "windows";

pub const LAUNCHER_WINDOWS: &'static str = "renpy.exe";

pub const LAUNCHER_OTHER: &'static str = "renpy.sh";

/// The launcher inside the SDK that runs lint on the given operating
/// system (as named by `std::env::consts::OS`).
pub open spec fn launcher_for(os: Seq<char>) -> Seq<char> {
    if os == WINDOWS@ {
        LAUNCHER_WINDOWS@
    } else {
        LAUNCHER_OTHER@
    }
}

/// Decides how lint is started: the name of the launcher inside the SDK
/// directory, or a not-found failure when the project does not exist.
pub fn plan_renpy_lint(os: &str, project_exists: bool) -> (r: Result<&'static str, RenPyError>)
    ensures
        r is Ok <==> project_exists,
        r matches Ok(l) ==> l@ == launcher_for(os@),
        r matches Err(e) ==> (e matches RenPyError::Io(m) && m@ == MSG_NOT_FOUND@),
{
    let launcher = if crate::text::same_text(os, WINDOWS) {
        LAUNCHER_WINDOWS
    } else {
        LAUNCHER_OTHER
    };
    if !project_exists {
        return Err(RenPyError::Io(String::from_str(MSG_NOT_FOUND)));
    }
    Ok(launcher)
}

/// An SDK is usable only when its path is a directory holding both the
/// `renpy.py` file and the `lib` directory: lacking any one of the three
/// makes it unusable, whatever the other two say.
pub proof fn lemma_sdk_needs_all_parts(p: SdkProbe)
    ensures
        sdk_usable(p) ==> p.sdk_is_dir,
        sdk_usable(p) ==> p.renpy_py_is_file,
        sdk_usable(p) ==> p.lib_is_dir,
        p.sdk_is_dir && p.renpy_py_is_file && p.lib_is_dir ==> sdk_usable(p),
{
}

} // verus!
