use novelize::renpy::{is_valid_renpy_sdk, plan_renpy_lint, LintOutput, RenPyError, SdkProbe};

#[test]
fn sdk_needs_directory_script_and_lib() {
    let all = SdkProbe { sdk_is_dir: true, renpy_py_is_file: true, lib_is_dir: true };
    assert!(is_valid_renpy_sdk("/opt/renpy", &all).is_ok());
    for probe in [
        SdkProbe { sdk_is_dir: false, ..all },
        SdkProbe { renpy_py_is_file: false, ..all },
        SdkProbe { lib_is_dir: false, ..all },
    ] {
        match is_valid_renpy_sdk("/opt/renpy", &probe) {
            Err(RenPyError::SdkInvalid(p)) => assert_eq!(p, "/opt/renpy"),
            other => panic!("unexpected {:?}", other),
        }
    }
}

#[test]
fn lint_launcher_depends_on_the_system() {
    assert_eq!(plan_renpy_lint("windows", true).unwrap(), "renpy.exe");
    assert_eq!(plan_renpy_lint("linux", true).unwrap(), "renpy.sh");
    assert_eq!(plan_renpy_lint("macos", true).unwrap(), "renpy.sh");
    match plan_renpy_lint("linux", false) {
        Err(RenPyError::Io(m)) => {
            assert_eq!(m, std::io::Error::from(std::io::ErrorKind::NotFound).to_string());
        }
        other => panic!("unexpected {:?}", other),
    }
}

#[test]
fn renpy_error_messages() {
    assert_eq!(RenPyError::SdkNotFound.describe(), "Ren'Py SDK not found");
    assert_eq!(RenPyError::SdkInvalid("/x".to_string()).describe(), "Ren'Py SDK /x is invalid");
    assert_eq!(RenPyError::Io("gone".to_string()).describe(), "gone");
    assert_eq!(
        RenPyError::LintSpawnFailed("no such file".to_string()).describe(),
        "Failed to spawn process for Ren'Py lint:\nno such file"
    );
    let o = LintOutput { success: false, stdout: vec![], stderr: vec![b'a', 0xff, b'b'] };
    assert_eq!(RenPyError::LintFailed(o).describe(), "Ren'Py lint failed:\na\u{fffd}b");
}
