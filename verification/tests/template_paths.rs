use novelize::renpy::{LintOutput, RenPyError, SdkProbe};
use novelize::template::{
    check_path_shape, is_path_relative_and_bounded, path_shape, PathComponent, PathProbe,
    PathShape, TemplateFaultKind, TemplateVn, TemplateVnMetadata, TemplateVnPaths,
};

fn kind(r: Result<(), novelize::template::TemplateError>) -> Option<TemplateFaultKind> {
    r.err().map(|e| e.kind)
}

#[test]
fn relative_paths_inside_the_template_are_accepted() {
    assert!(is_path_relative_and_bounded("game").is_ok());
    assert!(is_path_relative_and_bounded("character_info.txt").is_ok());
    assert!(is_path_relative_and_bounded("./data/info.txt").is_ok());
    assert!(is_path_relative_and_bounded("a/../b").is_ok());
    assert!(is_path_relative_and_bounded("a/b/../../c").is_ok());
    assert!(is_path_relative_and_bounded("").is_ok());
}

#[test]
fn escaping_and_absolute_paths_are_refused() {
    assert_eq!(kind(is_path_relative_and_bounded("../game")), Some(TemplateFaultKind::EscapesParent));
    assert_eq!(kind(is_path_relative_and_bounded("a/../../b")), Some(TemplateFaultKind::EscapesParent));
    assert_eq!(kind(is_path_relative_and_bounded("/etc/passwd")), Some(TemplateFaultKind::AbsolutePath));
    let e = is_path_relative_and_bounded("../x").unwrap_err();
    assert_eq!(e.path, "../x");
    assert_eq!(e.describe(), "path `../x` attempts to escape the parent directory using `..`");
    let e = is_path_relative_and_bounded("/x").unwrap_err();
    assert_eq!(e.describe(), "path `/x` must be relative, not absolute");
}

#[test]
fn platform_shapes_of_paths() {
    let s = path_shape("a/./b/../c");
    assert!(!s.is_absolute);
    assert_eq!(
        s.components,
        vec![PathComponent::Normal, PathComponent::Normal, PathComponent::ParentDir, PathComponent::Normal]
    );
    let s = path_shape("/a");
    assert!(s.is_absolute);
    assert_eq!(s.components, vec![PathComponent::RootDir, PathComponent::Normal]);
}

#[test]
fn shape_checks_report_the_first_fault() {
    let shape = PathShape {
        is_absolute: false,
        components: vec![PathComponent::Normal, PathComponent::RootDir, PathComponent::ParentDir],
    };
    let e = check_path_shape("x", &shape).unwrap_err();
    assert_eq!(e.kind, TemplateFaultKind::InvalidRoot);
    assert_eq!(e.describe(), "path `x` contains invalid root components");
    let shape = PathShape {
        is_absolute: false,
        components: vec![PathComponent::CurDir, PathComponent::ParentDir, PathComponent::Prefix],
    };
    assert_eq!(kind(check_path_shape("y", &shape)), Some(TemplateFaultKind::EscapesParent));
    let shape = PathShape { is_absolute: true, components: vec![] };
    assert_eq!(kind(check_path_shape("z", &shape)), Some(TemplateFaultKind::AbsolutePath));
    let shape = PathShape { is_absolute: false, components: vec![] };
    assert!(check_path_shape("", &shape).is_ok());
}

fn template(game: &str, context: &[&str]) -> TemplateVn {
    TemplateVn::new(
        TemplateVnMetadata {
            name: "novelize".to_string(),
            stylized_name: "Novelize".to_string(),
            version: "0.1.0".to_string(),
        },
        TemplateVnPaths {
            game: game.to_string(),
            context: context.iter().map(|c| c.to_string()).collect(),
        },
    )
}

const DIR: PathProbe = PathProbe { is_dir: true, exists: true };
const FILE: PathProbe = PathProbe { is_dir: false, exists: true };
const MISSING: PathProbe = PathProbe { is_dir: false, exists: false };

#[test]
fn well_formed_template_validates() {
    let t = template("game", &["character_info.txt", "visuals.txt"]);
    assert!(t.validate(&DIR, &[FILE, FILE]).is_ok());
    assert_eq!(t.paths.game(), "game");
    assert_eq!(t.paths.context().len(), 2);
}

#[test]
fn template_faults_in_order() {
    let t = template("game", &["character_info.txt"]);
    let e = t.validate(&FILE, &[FILE]).unwrap_err();
    assert_eq!(e.kind, TemplateFaultKind::GameNotDirectory);
    assert_eq!(
        e.describe(),
        "path `game` is a file, and not a directory when it's expected to be the game directory"
    );
    let e = t.validate(&PathProbe { is_dir: true, exists: false }, &[FILE]).unwrap_err();
    assert_eq!(e.kind, TemplateFaultKind::GameMissing);
    assert_eq!(e.describe(), "path `game` does not exist");
    let e = t.validate(&DIR, &[DIR]).unwrap_err();
    assert_eq!(e.kind, TemplateFaultKind::ContextIsDirectory);
    assert_eq!(
        e.describe(),
        "path `character_info.txt` is a directory, and not a file when it's expected to be context"
    );
    // A missing context file is reported with the game path.
    let e = t.validate(&DIR, &[MISSING]).unwrap_err();
    assert_eq!(e.kind, TemplateFaultKind::ContextMissing);
    assert_eq!(e.describe(), "path `game` does not exist");
    let t = template("../game", &["x.txt"]);
    assert_eq!(t.validate(&FILE, &[MISSING]).unwrap_err().kind, TemplateFaultKind::EscapesParent);
    let t = template("game", &["ok.txt", "/abs.txt"]);
    let e = t.validate(&DIR, &[FILE, MISSING]).unwrap_err();
    assert_eq!(e.kind, TemplateFaultKind::AbsolutePath);
    assert_eq!(e.path, "/abs.txt");
}

#[test]
fn shapes_decide_validation() {
    let t = template("game", &["a.txt"]);
    let good = PathShape { is_absolute: false, components: vec![PathComponent::Normal] };
    let bad = PathShape { is_absolute: false, components: vec![PathComponent::ParentDir] };
    assert!(t.validate_with_shapes(&good, &[PathShape { is_absolute: false, components: vec![PathComponent::Normal] }], &DIR, &[FILE]).is_ok());
    let e = t.validate_with_shapes(&good, &[bad], &DIR, &[FILE]).unwrap_err();
    assert_eq!(e.kind, TemplateFaultKind::EscapesParent);
    assert_eq!(e.path, "a.txt");
}

const SDK_OK: SdkProbe = SdkProbe { sdk_is_dir: true, renpy_py_is_file: true, lib_is_dir: true };

#[test]
fn game_validity_needs_a_usable_sdk_and_a_clean_lint() {
    let t = template("game", &[]);
    let clean = LintOutput { success: true, stdout: vec![], stderr: vec![] };
    assert!(t.is_game_valid("/sdk", &SDK_OK, Ok(clean)).is_ok());
    let dirty = LintOutput { success: false, stdout: b"out".to_vec(), stderr: b"bad image".to_vec() };
    match t.is_game_valid("/sdk", &SDK_OK, Ok(dirty)) {
        Err(RenPyError::LintFailed(o)) => {
            assert_eq!(o.stderr, b"bad image".to_vec());
            assert_eq!(RenPyError::LintFailed(o).describe(), "Ren'Py lint failed:\nbad image");
        }
        other => panic!("unexpected {:?}", other),
    }
    let no_lib = SdkProbe { lib_is_dir: false, ..SDK_OK };
    match t.is_game_valid("/sdk", &no_lib, Ok(LintOutput { success: true, stdout: vec![], stderr: vec![] })) {
        Err(RenPyError::SdkInvalid(p)) => assert_eq!(p, "/sdk"),
        other => panic!("unexpected {:?}", other),
    }
    match t.is_game_valid("/sdk", &SDK_OK, Err(RenPyError::LintSpawnFailed("denied".to_string()))) {
        Err(RenPyError::LintSpawnFailed(m)) => assert_eq!(m, "denied"),
        other => panic!("unexpected {:?}", other),
    }
}

#[test]
fn portable_paths_split_on_slashes() {
    let cases: Vec<(&str, Vec<PathComponent>)> = vec![
        ("", vec![]),
        (".", vec![PathComponent::CurDir]),
        ("..", vec![PathComponent::ParentDir]),
        ("./a/./b/", vec![PathComponent::CurDir, PathComponent::Normal, PathComponent::Normal]),
        ("a//b", vec![PathComponent::Normal, PathComponent::Normal]),
        ("a/../..", vec![PathComponent::Normal, PathComponent::ParentDir, PathComponent::ParentDir]),
        (".a/...", vec![PathComponent::Normal, PathComponent::Normal]),
    ];
    for (path, expected) in cases {
        let shape = path_shape(path);
        assert!(!shape.is_absolute, "{}", path);
        assert_eq!(shape.components, expected, "{}", path);
    }
}

#[test]
fn joined_accepted_paths_stay_accepted() {
    let ok = |p: &str| is_path_relative_and_bounded(p).is_ok();
    assert!(ok("a/b") && !ok("../c"));
    assert!(ok("a/b") && ok("c/d") && ok("a/b/c/d"));
    assert!(ok("a/b/../c"));
    assert!(!ok("a/../../x"));
    assert!(!ok("../x/y"));
    assert!(ok("./a") && ok("./b") && ok("./a/./b"));
}

#[test]
fn rooted_paths_are_refused() {
    for path in ["/", "//share/dir", "/a/../b", "/./x"] {
        assert!(is_path_relative_and_bounded(path).is_err(), "{}", path);
    }
    let shape = path_shape("//share/dir");
    assert!(shape.is_absolute || matches!(shape.components[0], PathComponent::RootDir | PathComponent::Prefix));
}

#[test]
fn game_path_is_checked_whatever_the_context_paths_hold() {
    let t = template("../game", &["C:\\notes.txt", "/abs.txt"]);
    assert_eq!(t.validate(&DIR, &[FILE, FILE]).unwrap_err().kind, TemplateFaultKind::EscapesParent);
    let t = template("/game", &["C:\\notes.txt"]);
    assert!(t.validate(&DIR, &[FILE]).is_err());
    let t = template("game", &["dir", "C:\\notes.txt"]);
    assert_eq!(t.validate(&DIR, &[DIR, FILE]).unwrap_err().kind, TemplateFaultKind::ContextIsDirectory);
}
