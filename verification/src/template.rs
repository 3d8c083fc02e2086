//! Template manifests: the relative paths a template lists, and the checks
//! that keep them inside the template directory.

use vstd::prelude::*;

verus! {

/// One component of a path, as `std::path::Path::components` yields it.
#[derive(Debug, Clone, Copy, PartialEq, Eq, Structural)]
pub enum PathComponent {
    /// A Windows drive or share prefix.
    Prefix,
    /// The root directory.
    RootDir,
    /// `.` at the start of the path.
    CurDir,
    /// `..`.
    ParentDir,
    /// An ordinary name.
    Normal,
}

/// What a template check can object to.
#[derive(Debug, Clone, Copy, PartialEq, Eq, Structural)]
pub enum TemplateFaultKind {
    /// The path is absolute.
    AbsolutePath,
    /// A `..` climbs above the template directory.
    EscapesParent,
    /// The path holds a root or prefix component.
    InvalidRoot,
    /// The game path is not a directory.
    GameNotDirectory,
    /// The game path does not exist.
    GameMissing,
    /// A context path is a directory.
    ContextIsDirectory,
    /// A context path does not exist.
    ContextMissing,
}

/// A refused template: what is wrong, and the path the message names.
#[derive(Debug)]
pub struct TemplateError {
    pub kind: TemplateFaultKind,
    pub path: String,
}

impl View for TemplateError {
    type V = (TemplateFaultKind, Seq<char>);

    open spec fn view(&self) -> (TemplateFaultKind, Seq<char>) {
        (self.kind, self.path@)
    }
}

/// The outcome of a check, with the error seen through its view.
pub open spec fn check_outcome(r: Result<(), TemplateError>) -> Result<(), (TemplateFaultKind, Seq<char>)> {
    match r {
        Ok(_) => Ok(()),
        Err(e) => Err(e@),
    }
}

/// The message for a refused template.
pub open spec fn fault_message(kind: TemplateFaultKind, path: Seq<char>) -> Seq<char> {
    let tail = match kind {
        TemplateFaultKind::AbsolutePath => MSG_ABSOLUTE@,
        TemplateFaultKind::EscapesParent => MSG_ESCAPES@,
        TemplateFaultKind::InvalidRoot => MSG_INVALID_ROOT@,
        TemplateFaultKind::GameNotDirectory => MSG_GAME_NOT_DIR@,
        TemplateFaultKind::GameMissing => MSG_MISSING@,
        TemplateFaultKind::ContextIsDirectory => MSG_CONTEXT_IS_DIR@,
        TemplateFaultKind::ContextMissing => MSG_MISSING@,
    };
    MSG_PATH@ + path + tail
}

pub const MSG_PATH: &'static str = "path `";

pub const MSG_ABSOLUTE: &'static str = "` must be relative, not absolute";

pub const MSG_ESCAPES: &'static str = "` attempts to escape the parent directory using `..`";

pub const MSG_INVALID_ROOT: &'static str = "` contains invalid root components";

pub const MSG_GAME_NOT_DIR: &'static str =
    "` is a file, and not a directory when it's expected to be the game directory";

pub const MSG_MISSING: &'static str = "` does not exist";

pub const MSG_CONTEXT_IS_DIR: &'static str =
    "` is a directory, and not a file when it's expected to be context";

impl TemplateError {
    /// The human-readable message.
    pub fn describe(&self) -> (res: String)
        ensures
            res@ == fault_message(self.kind, self.path@),
    {
        let mut s = String::from_str(MSG_PATH);
        s.append(self.path.as_str());
        let tail = match self.kind {
            TemplateFaultKind::AbsolutePath => MSG_ABSOLUTE,
            TemplateFaultKind::EscapesParent => MSG_ESCAPES,
            TemplateFaultKind::InvalidRoot => MSG_INVALID_ROOT,
            TemplateFaultKind::GameNotDirectory => MSG_GAME_NOT_DIR,
            TemplateFaultKind::GameMissing => MSG_MISSING,
            TemplateFaultKind::ContextIsDirectory => MSG_CONTEXT_IS_DIR,
            TemplateFaultKind::ContextMissing => MSG_MISSING,
        };
        s.append(tail);
        s
    }
}

/// How many levels below the template directory the components lead:
/// one down per name, one up per `..`.
pub open spec fn net_depth(c: Seq<PathComponent>) -> int
    decreases c.len(),
{
    if c.len() == 0 {
        0
    } else {
        net_depth(c.drop_last()) + match c.last() {
            PathComponent::Normal => 1int,
            PathComponent::ParentDir => -1int,
            _ => 0int,
        }
    }
}

/// The first fault met when walking the components from position `i` at
/// depth `depth`: a root or prefix component, or a `..` taken at depth 0.
pub open spec fn walk_fault(c: Seq<PathComponent>, i: int, depth: int) -> Option<TemplateFaultKind>
    decreases c.len() - i,
{
    if i < 0 || i >= c.len() {
        None
    } else {
        match c[i] {
            PathComponent::ParentDir => if depth <= 0 {
                Some(TemplateFaultKind::EscapesParent)
            } else {
                walk_fault(c, i + 1, depth - 1)
            },
            PathComponent::Normal => walk_fault(c, i + 1, depth + 1),
            PathComponent::CurDir => walk_fault(c, i + 1, depth),
            _ => Some(TemplateFaultKind::InvalidRoot),
        }
    }
}

/// What is wrong with a path of the given shape, if anything.
pub open spec fn shape_fault(is_absolute: bool, c: Seq<PathComponent>) -> Option<TemplateFaultKind> {
    if is_absolute {
        Some(TemplateFaultKind::AbsolutePath)
    } else {
        walk_fault(c, 0, 0)
    }
}

/// The outcome of checking `path`, whose shape is given.
pub open spec fn path_check(path: Seq<char>, is_absolute: bool, c: Seq<PathComponent>) -> Result<(), (TemplateFaultKind, Seq<char>)> {
    match shape_fault(is_absolute, c) {
        Some(k) => Err((k, path)),
        None => Ok(()),
    }
}

/// A path broken into what the checks read.
#[derive(Debug)]
pub struct PathShape {
    pub is_absolute: bool,
    pub components: Vec<PathComponent>,
}

/// A path text that every platform reads the same way: no `\` (a separator
/// on Windows), no `:` (which starts a Windows drive prefix), and no leading
/// `/` (a root, or with `//` a Windows share prefix). Such a path has no
/// prefix and no root, and `/` alone separates its components.
pub open spec fn is_portable_relative(t: Seq<char>) -> bool {
    &&& !t.contains('\\')
    &&& !t.contains(':')
    &&& !(t.len() > 0 && t[0] == '/')
}

/// The components one `/`-separated piece gives: none for an empty piece
/// (repeated separators are ignored); `.` only when it leads the path (it
/// is normalized away elsewhere); `..` is the parent directory; anything
/// else is a name.
pub open spec fn piece_components(piece: Seq<char>, leading: bool) -> Seq<PathComponent> {
    if piece.len() == 0 {
        Seq::empty()
    } else if piece == seq!['.'] {
        if leading {
            seq![PathComponent::CurDir]
        } else {
            Seq::empty()
        }
    } else if piece == seq!['.', '.'] {
        seq![PathComponent::ParentDir]
    } else {
        seq![PathComponent::Normal]
    }
}

/// The components of `t` from position `i` on, where the current piece
/// started at `s` (and is the path's first piece when `leading`).
pub open spec fn slash_pieces_from(t: Seq<char>, s: int, i: int, leading: bool) -> Seq<PathComponent>
    decreases t.len() - i,
{
    if i < s || i >= t.len() {
        piece_components(t.subrange(s, t.len() as int), leading)
    } else if t[i] == '/' {
        piece_components(t.subrange(s, i), leading) + slash_pieces_from(t, i + 1, i + 1, false)
    } else {
        slash_pieces_from(t, s, i + 1, leading)
    }
}

/// The components `std::path::Path::components` gives, on every platform,
/// for a path text read with `/` as its only separator.
pub open spec fn slash_components(t: Seq<char>) -> Seq<PathComponent> {
    slash_pieces_from(t, 0, 0, true)
}

/// Whether a path text starts with `/`, which every platform reads as a root
/// (or, on Windows, with `//`, as a share prefix).
pub open spec fn starts_at_root(t: Seq<char>) -> bool {
    t.len() > 0 && t[0] == '/'
}

/// What every platform guarantees of the shape of the path text `t`: a
/// portable relative text has the shape of its `/`-separated pieces, and a
/// text starting with `/` starts with a root or a prefix component.
pub open spec fn shape_fits_text(t: Seq<char>, shape: (bool, Seq<PathComponent>)) -> bool {
    &&& is_portable_relative(t) ==> shape == (false, slash_components(t))
    &&& starts_at_root(t) ==> shape.1.len() > 0 && is_root_like(shape.1[0])
}

/// Whether `std::path::Path::is_absolute` holds of `path`. In general this
/// depends on the platform the program is built for; the contract states
/// only what the documentation gives on every platform: a path with no
/// prefix and no root (see `is_portable_relative`) is not absolute.
#[verifier::external_body]
fn path_is_absolute(path: &str) -> (res: bool)
    ensures
        is_portable_relative(path@) ==> !res,
{
    std::path::Path::new(path).is_absolute()
}

/// The kinds of the components `std::path::Path::components` yields for
/// `path`. In general their parsing depends on the platform the program is
/// built for (separators, prefixes, verbatim paths); the contract states
/// only what the documentation gives on every platform for a path with no
/// prefix and no root: `/` separates components, repeated separators and a
/// `.` that does not lead the path are dropped, `..` is the parent
/// directory, and every other piece is a name. It also states that a path
/// text starting with `/` starts with a root or (on Windows, for `//`) a
/// share prefix.
#[verifier::external_body]
fn path_components(path: &str) -> (res: Vec<PathComponent>)
    ensures
        is_portable_relative(path@) ==> res@ == slash_components(path@),
        starts_at_root(path@) ==> res@.len() > 0 && (res@[0] == PathComponent::RootDir || res@[0]
            == PathComponent::Prefix),
{
    std::path::Path::new(path).components().map(
        |c| match c {
            std::path::Component::Prefix(_) => PathComponent::Prefix,
            std::path::Component::RootDir => PathComponent::RootDir,
            std::path::Component::CurDir => PathComponent::CurDir,
            std::path::Component::ParentDir => PathComponent::ParentDir,
            std::path::Component::Normal(_) => PathComponent::Normal,
        },
    ).collect()
}

/// Breaks `path` into its shape with the platform's path rules. For a path
/// every platform reads alike, the shape is relative with the components
/// of its `/`-separated pieces.
pub fn path_shape(path: &str) -> (res: PathShape)
    ensures
        is_portable_relative(path@) ==> !res.is_absolute && res.components@ == slash_components(
            path@,
        ),
        shape_fits_text(path@, shape_view(res)),
{
    PathShape { is_absolute: path_is_absolute(path), components: path_components(path) }
}

/// Checks a path of the given shape: it must be relative, hold no root or
/// prefix component, and never climb above its starting directory.
pub fn check_path_shape(path: &str, shape: &PathShape) -> (r: Result<(), TemplateError>)
    ensures
        check_outcome(r) == path_check(path@, shape.is_absolute, shape.components@),
{
    if shape.is_absolute {
        return Err(
            TemplateError { kind: TemplateFaultKind::AbsolutePath, path: String::from_str(path) },
        );
    }
    let c = &shape.components;
    let n = c.len();
    let mut depth: usize = 0;
    let mut i: usize = 0;
    while i < n
        invariant
            n == c@.len(),
            c@ == shape.components@,
            i <= n,
            depth <= i,
            !shape.is_absolute,
            walk_fault(c@, 0, 0) == walk_fault(c@, i as int, depth as int),
        decreases n - i,
    {
        match c[i] {
            PathComponent::ParentDir => {
                if depth == 0 {
                    return Err(
                        TemplateError {
                            kind: TemplateFaultKind::EscapesParent,
                            path: String::from_str(path),
                        },
                    );
                }
                depth = depth - 1;
            },
            PathComponent::Normal => {
                depth = depth + 1;
            },
            PathComponent::CurDir => {},
            _ => {
                return Err(
                    TemplateError {
                        kind: TemplateFaultKind::InvalidRoot,
                        path: String::from_str(path),
                    },
                );
            },
        }
        i = i + 1;
    }
    Ok(())
}

/// Checks that `path` is relative and stays inside its starting directory,
/// with the platform's path rules. The outcome is that of
/// `check_path_shape` for the shape the platform gives `path`; for a path
/// every platform reads alike, that is the relative shape made of its
/// `/`-separated pieces; a path starting with `/` is refused.
pub fn is_path_relative_and_bounded(path: &str) -> (r: Result<(), TemplateError>)
    ensures
        exists|shape: (bool, Seq<PathComponent>)|
            shape_fits_text(path@, shape) && check_outcome(r) == path_check(
                path@,
                shape.0,
                shape.1,
            ),
        starts_at_root(path@) ==> r is Err,
        is_portable_relative(path@) ==> check_outcome(r) == path_check(
            path@,
            false,
            slash_components(path@),
        ),
{
    let shape = path_shape(path);
    let r = check_path_shape(path, &shape);
    assert(check_outcome(r) == path_check(path@, shape.is_absolute, shape.components@));
    assert(shape_fits_text(path@, shape_view(shape)));
    r
}


/// Whether a component names a root or a drive prefix.
pub open spec fn is_root_like(p: PathComponent) -> bool {
    p == PathComponent::RootDir || p == PathComponent::Prefix
}

/// Whether components stay inside their starting directory: no root or
/// prefix component, and no prefix of them ends above the start.
pub open spec fn stays_inside(c: Seq<PathComponent>) -> bool {
    &&& forall|k: int| 0 <= k < c.len() ==> !is_root_like(#[trigger] c[k])
    &&& forall|k: int| 0 <= k <= c.len() ==> net_depth(#[trigger] c.take(k)) >= 0
}

proof fn lemma_net_depth_step(c: Seq<PathComponent>, i: int)
    requires
        0 <= i < c.len(),
    ensures
        net_depth(c.take(i + 1)) == net_depth(c.take(i)) + match c[i] {
            PathComponent::Normal => 1int,
            PathComponent::ParentDir => -1int,
            _ => 0int,
        },
{
    assert(c.take(i + 1).drop_last() =~= c.take(i));
}

proof fn lemma_walk_fault_none(c: Seq<PathComponent>, i: int)
    requires
        0 <= i <= c.len(),
        net_depth(c.take(i)) >= 0,
    ensures
        walk_fault(c, i, net_depth(c.take(i))) is None <==> ({
            &&& forall|k: int| i <= k < c.len() ==> !is_root_like(#[trigger] c[k])
            &&& forall|k: int| i <= k <= c.len() ==> net_depth(#[trigger] c.take(k)) >= 0
        }),
    decreases c.len() - i,
{
    if i < c.len() {
        lemma_net_depth_step(c, i);
        let d = net_depth(c.take(i));
        match c[i] {
            PathComponent::ParentDir => {
                if d > 0 {
                    lemma_walk_fault_none(c, i + 1);
                } else {
                    assert(net_depth(c.take(i + 1)) < 0);
                }
            },
            PathComponent::Normal => {
                lemma_walk_fault_none(c, i + 1);
            },
            PathComponent::CurDir => {
                lemma_walk_fault_none(c, i + 1);
            },
            _ => {
                assert(is_root_like(c[i]));
            },
        }
    }
}

/// A template path is accepted exactly when it is relative, holds no root
/// or prefix component, and no leading run of its components ends above the
/// template directory.
pub proof fn lemma_accepted_paths_stay_inside(is_absolute: bool, c: Seq<PathComponent>)
    ensures
        shape_fault(is_absolute, c) is None <==> (!is_absolute && stays_inside(c)),
{
    assert(c.take(0) =~= Seq::<PathComponent>::empty());
    assert(net_depth(c.take(0)) == 0);
    lemma_walk_fault_none(c, 0);
}


/// The relative paths a template lists.
#[derive(Debug)]
pub struct TemplateVnPaths {
    /// The Ren'Py game directory.
    pub game: String,
    /// Files loaded into the model's context.
    pub context: Vec<String>,
}

impl TemplateVnPaths {
    pub fn game(&self) -> (res: &str)
        ensures
            res@ == self.game@,
    {
        self.game.as_str()
    }

    pub fn context(&self) -> (res: &[String])
        ensures
            res@ == self.context@,
    {
        self.context.as_slice()
    }
}

/// The descriptive part of a template manifest.
#[derive(Debug)]
pub struct TemplateVnMetadata {
    pub name: String,
    pub stylized_name: String,
    pub version: String,
}

/// A template manifest.
#[derive(Debug)]
pub struct TemplateVn {
    pub metadata: TemplateVnMetadata,
    pub paths: TemplateVnPaths,
}

/// What the file system says of one path.
#[derive(Debug, Clone, Copy, PartialEq, Eq, Structural)]
pub struct PathProbe {
    pub is_dir: bool,
    pub exists: bool,
}

/// Whether the game path and every context path are read alike by all
/// platforms.
pub open spec fn all_portable(game: Seq<char>, contexts: Seq<Seq<char>>) -> bool {
    &&& is_portable_relative(game)
    &&& forall|k: int| 0 <= k < contexts.len() ==> is_portable_relative(#[trigger] contexts[k])
}

/// The relative shapes made of the `/`-separated pieces of each path.
pub open spec fn portable_shapes(paths: Seq<Seq<char>>) -> Seq<(bool, Seq<PathComponent>)> {
    paths.map_values(|p: Seq<char>| (false, slash_components(p)))
}

/// The shape of a path as the checks read it.
pub open spec fn shape_view(s: PathShape) -> (bool, Seq<PathComponent>) {
    (s.is_absolute, s.components@)
}

/// The outcome of checking the context paths from position `i` on.
pub open spec fn context_check(
    game: Seq<char>,
    contexts: Seq<Seq<char>>,
    shapes: Seq<(bool, Seq<PathComponent>)>,
    probes: Seq<PathProbe>,
    i: int,
) -> Result<(), (TemplateFaultKind, Seq<char>)>
    decreases contexts.len() - i,
{
    if i < 0 || i >= contexts.len() {
        Ok(())
    } else {
        match shape_fault(shapes[i].0, shapes[i].1) {
            Some(k) => Err((k, contexts[i])),
            None => if probes[i].is_dir {
                Err((TemplateFaultKind::ContextIsDirectory, contexts[i]))
            } else if !probes[i].exists {
                // The message for a missing context file names the game path.
                Err((TemplateFaultKind::ContextMissing, game))
            } else {
                context_check(game, contexts, shapes, probes, i + 1)
            },
        }
    }
}

/// The outcome of checking a template: the game path first (its shape,
/// then that it is an existing directory), then each context path in order
/// (its shape, then that it is an existing file).
pub open spec fn template_check(
    game: Seq<char>,
    contexts: Seq<Seq<char>>,
    game_shape: (bool, Seq<PathComponent>),
    context_shapes: Seq<(bool, Seq<PathComponent>)>,
    game_probe: PathProbe,
    context_probes: Seq<PathProbe>,
) -> Result<(), (TemplateFaultKind, Seq<char>)> {
    match shape_fault(game_shape.0, game_shape.1) {
        Some(k) => Err((k, game)),
        None => if !game_probe.is_dir {
            Err((TemplateFaultKind::GameNotDirectory, game))
        } else if !game_probe.exists {
            Err((TemplateFaultKind::GameMissing, game))
        } else {
            context_check(game, contexts, context_shapes, context_probes, 0)
        },
    }
}

impl TemplateVn {
    pub fn new(metadata: TemplateVnMetadata, paths: TemplateVnPaths) -> (res: Self)
        ensures
            res.metadata == metadata,
            res.paths == paths,
    {
        TemplateVn { metadata, paths }
    }

    /// Decides whether the template's game is valid: the SDK at `sdk_path`
    /// must be usable (as `sdk` says), and `lint`, the outcome of running
    /// `renpy lint` on the game directory, must be a successful run.
    pub fn is_game_valid(
        &self,
        sdk_path: &str,
        sdk: &crate::renpy::SdkProbe,
        lint: Result<crate::renpy::LintOutput, crate::renpy::RenPyError>,
    ) -> (r: Result<(), crate::renpy::RenPyError>)
        ensures
            !crate::renpy::sdk_usable(*sdk) ==> (r matches Err(crate::renpy::RenPyError::SdkInvalid(p))
                && p@ == sdk_path@),
            !(sdk.sdk_is_dir && sdk.renpy_py_is_file && sdk.lib_is_dir) ==> (r matches Err(
                crate::renpy::RenPyError::SdkInvalid(p),
            ) && p@ == sdk_path@),
            crate::renpy::sdk_usable(*sdk) ==> r == match lint {
                Ok(o) => if o.success {
                    Ok(())
                } else {
                    Err(crate::renpy::RenPyError::LintFailed(o))
                },
                Err(e) => Err(e),
            },
    {
        crate::renpy::is_valid_renpy_sdk(sdk_path, sdk)?;
        let output = lint?;
        if !output.success {
            return Err(crate::renpy::RenPyError::LintFailed(output));
        }
        Ok(())
    }

    /// Checks the template given the shapes of its paths and what the file
    /// system says of them.
    pub fn validate_with_shapes(
        &self,
        game_shape: &PathShape,
        context_shapes: &[PathShape],
        game_probe: &PathProbe,
        context_probes: &[PathProbe],
    ) -> (r: Result<(), TemplateError>)
        requires
            context_shapes@.len() == self.paths.context@.len(),
            context_probes@.len() == self.paths.context@.len(),
        ensures
            check_outcome(r) == template_check(
                self.paths.game@,
                crate::text::texts(self.paths.context@),
                shape_view(*game_shape),
                context_shapes@.map_values(|s: PathShape| shape_view(s)),
                *game_probe,
                context_probes@,
            ),
    {
        let game = self.paths.game.as_str();
        match check_path_shape(game, game_shape) {
            Err(e) => {
                return Err(e);
            },
            Ok(()) => {},
        }
        if !game_probe.is_dir {
            return Err(
                TemplateError {
                    kind: TemplateFaultKind::GameNotDirectory,
                    path: String::from_str(game),
                },
            );
        }
        if !game_probe.exists {
            return Err(
                TemplateError { kind: TemplateFaultKind::GameMissing, path: String::from_str(game) },
            );
        }
        assert(shape_fault(game_shape.is_absolute, game_shape.components@) is None);
        let ghost g = self.paths.game@;
        let ghost cs = crate::text::texts(self.paths.context@);
        let ghost shapes = context_shapes@.map_values(|s: PathShape| shape_view(s));
        let contexts = &self.paths.context;
        let n = contexts.len();
        for i in 0..n
            invariant
                n == contexts@.len(),
                contexts@ == self.paths.context@,
                g == self.paths.game@,
                game@ == g,
                cs == crate::text::texts(contexts@),
                shapes == context_shapes@.map_values(|s: PathShape| shape_view(s)),
                context_shapes@.len() == n,
                context_probes@.len() == n,
                template_check(g, cs, shape_view(*game_shape), shapes, *game_probe, context_probes@)
                    == context_check(g, cs, shapes, context_probes@, 0),
                context_check(g, cs, shapes, context_probes@, 0) == context_check(
                    g,
                    cs,
                    shapes,
                    context_probes@,
                    i as int,
                ),
        {
            let path = contexts[i].as_str();
            assert(shapes[i as int] == shape_view(context_shapes@[i as int]));
            assert(cs[i as int] == path@);
            match check_path_shape(path, &context_shapes[i]) {
                Err(e) => {
                    return Err(e);
                },
                Ok(()) => {},
            }
            if context_probes[i].is_dir {
                return Err(
                    TemplateError {
                        kind: TemplateFaultKind::ContextIsDirectory,
                        path: String::from_str(path),
                    },
                );
            }
            if !context_probes[i].exists {
                // The message for a missing context file names the game
                // path, not the context path.
                return Err(
                    TemplateError {
                        kind: TemplateFaultKind::ContextMissing,
                        path: String::from_str(game),
                    },
                );
            }
        }
        Ok(())
    }

    /// Checks the template: every listed path must be relative and stay
    /// inside the template directory (by the platform's path rules), the
    /// game path must be an existing directory and each context path an
    /// existing file. `game_probe` and `context_probes` say what the file
    /// system holds at those paths. When every listed path is one that all
    /// platforms read alike, the shapes checked are those of their
    /// `/`-separated pieces.
    pub fn validate(&self, game_probe: &PathProbe, context_probes: &[PathProbe]) -> (r: Result<
        (),
        TemplateError,
    >)
        requires
            context_probes@.len() == self.paths.context@.len(),
        ensures
            exists|gs: (bool, Seq<PathComponent>), cs: Seq<(bool, Seq<PathComponent>)>|
                {
                    &&& cs.len() == self.paths.context@.len()
                    &&& shape_fits_text(self.paths.game@, gs)
                    &&& forall|k: int|
                        0 <= k < cs.len() ==> shape_fits_text(
                            self.paths.context@[k]@,
                            #[trigger] cs[k],
                        )
                    &&& check_outcome(r) == template_check(
                        self.paths.game@,
                        crate::text::texts(self.paths.context@),
                        gs,
                        cs,
                        *game_probe,
                        context_probes@,
                    )
                },
            starts_at_root(self.paths.game@) ==> r is Err,
            all_portable(self.paths.game@, crate::text::texts(self.paths.context@))
                ==> check_outcome(r) == template_check(
                self.paths.game@,
                crate::text::texts(self.paths.context@),
                (false, slash_components(self.paths.game@)),
                portable_shapes(crate::text::texts(self.paths.context@)),
                *game_probe,
                context_probes@,
            ),
    {
        let game_shape = path_shape(self.paths.game.as_str());
        let mut shapes: Vec<PathShape> = Vec::new();
        let n = self.paths.context.len();
        for i in 0..n
            invariant
                n == self.paths.context@.len(),
                shapes@.len() == i,
                forall|k: int|
                    0 <= k < i ==> shape_fits_text(
                        self.paths.context@[k]@,
                        shape_view(#[trigger] shapes@[k]),
                    ),
        {
            shapes.push(path_shape(self.paths.context[i].as_str()));
        }
        let r = self.validate_with_shapes(&game_shape, shapes.as_slice(), game_probe, context_probes);
        let ghost cs = shapes@.map_values(|s: PathShape| shape_view(s));
        assert(cs.len() == n);
        proof {
            let ctx = crate::text::texts(self.paths.context@);
            if all_portable(self.paths.game@, ctx) {
                assert forall|k: int| 0 <= k < n implies #[trigger] cs[k] == portable_shapes(ctx)[k] by {
                    assert(ctx[k] == self.paths.context@[k]@);
                    assert(is_portable_relative(ctx[k]));
                    assert(shape_fits_text(self.paths.context@[k]@, shape_view(shapes@[k])));
                }
                assert(cs =~= portable_shapes(ctx));
            }
            assert forall|k: int| 0 <= k < cs.len() implies shape_fits_text(
                self.paths.context@[k]@,
                #[trigger] cs[k],
            ) by {
                assert(shape_fits_text(self.paths.context@[k]@, shape_view(shapes@[k])));
            }
        }
        assert(check_outcome(r) == template_check(
            self.paths.game@,
            crate::text::texts(self.paths.context@),
            shape_view(game_shape),
            cs,
            *game_probe,
            context_probes@,
        ));
        r
    }
}


proof fn lemma_context_check_ok(
    game: Seq<char>,
    contexts: Seq<Seq<char>>,
    shapes: Seq<(bool, Seq<PathComponent>)>,
    probes: Seq<PathProbe>,
    i: int,
)
    requires
        0 <= i,
        shapes.len() == contexts.len(),
        probes.len() == contexts.len(),
        context_check(game, contexts, shapes, probes, i) is Ok,
    ensures
        forall|k: int|
            i <= k < contexts.len() ==> {
                &&& shape_fault((#[trigger] shapes[k]).0, shapes[k].1) is None
                &&& !probes[k].is_dir
                &&& probes[k].exists
            },
    decreases contexts.len() - i,
{
    if i < contexts.len() {
        lemma_context_check_ok(game, contexts, shapes, probes, i + 1);
    }
}

/// A template that passes validation lists only relative paths that stay
/// inside the template directory; its game path is an existing directory
/// and each context path an existing file.
pub proof fn lemma_valid_template_stays_inside(
    game: Seq<char>,
    contexts: Seq<Seq<char>>,
    game_shape: (bool, Seq<PathComponent>),
    context_shapes: Seq<(bool, Seq<PathComponent>)>,
    game_probe: PathProbe,
    context_probes: Seq<PathProbe>,
)
    requires
        context_shapes.len() == contexts.len(),
        context_probes.len() == contexts.len(),
        template_check(game, contexts, game_shape, context_shapes, game_probe, context_probes) is Ok,
    ensures
        !game_shape.0 && stays_inside(game_shape.1),
        game_probe.is_dir && game_probe.exists,
        forall|k: int|
            0 <= k < contexts.len() ==> {
                &&& !(#[trigger] context_shapes[k]).0
                &&& stays_inside(context_shapes[k].1)
                &&& !context_probes[k].is_dir
                &&& context_probes[k].exists
            },
{
    lemma_accepted_paths_stay_inside(game_shape.0, game_shape.1);
    lemma_context_check_ok(game, contexts, context_shapes, context_probes, 0);
    assert forall|k: int| 0 <= k < contexts.len() implies {
        &&& !(#[trigger] context_shapes[k]).0
        &&& stays_inside(context_shapes[k].1)
    } by {
        lemma_accepted_paths_stay_inside(context_shapes[k].0, context_shapes[k].1);
    }
}

/// Whether a path text that every platform reads alike is accepted by the
/// template path check.
pub open spec fn portable_path_accepted(t: Seq<char>) -> bool {
    shape_fault(false, slash_components(t)) is None
}

proof fn lemma_net_depth_concat(a: Seq<PathComponent>, b: Seq<PathComponent>)
    ensures
        net_depth(a + b) == net_depth(a) + net_depth(b),
    decreases b.len(),
{
    if b.len() == 0 {
        assert(a + b =~= a);
    } else {
        lemma_net_depth_concat(a, b.drop_last());
        assert((a + b).drop_last() =~= a + b.drop_last());
        assert((a + b).last() == b.last());
    }
}

proof fn lemma_stays_inside_concat(a: Seq<PathComponent>, b: Seq<PathComponent>)
    requires
        stays_inside(a),
        stays_inside(b),
    ensures
        stays_inside(a + b),
{
    let c = a + b;
    assert forall|k: int| 0 <= k < c.len() implies !is_root_like(#[trigger] c[k]) by {
        if k < a.len() {
            assert(c[k] == a[k]);
        } else {
            assert(c[k] == b[k - a.len()]);
        }
    }
    assert forall|k: int| 0 <= k <= c.len() implies net_depth(#[trigger] c.take(k)) >= 0 by {
        if k <= a.len() {
            assert(c.take(k) =~= a.take(k));
        } else {
            assert(c.take(k) =~= a + b.take(k - a.len()));
            lemma_net_depth_concat(a, b.take(k - a.len()));
            assert(a.take(a.len() as int) =~= a);
            assert(net_depth(a.take(a.len() as int)) >= 0);
            assert(net_depth(b.take(k - a.len())) >= 0);
        }
    }
}

proof fn lemma_stays_inside_prefix(a: Seq<PathComponent>, b: Seq<PathComponent>)
    requires
        stays_inside(a + b),
    ensures
        stays_inside(a),
{
    let c = a + b;
    assert forall|k: int| 0 <= k < a.len() implies !is_root_like(#[trigger] a[k]) by {
        assert(c[k] == a[k]);
    }
    assert forall|k: int| 0 <= k <= a.len() implies net_depth(#[trigger] a.take(k)) >= 0 by {
        assert(c.take(k) =~= a.take(k));
    }
}

proof fn lemma_stays_inside_lead_cur_dir(c: Seq<PathComponent>)
    ensures
        stays_inside(seq![PathComponent::CurDir] + c) == stays_inside(c),
{
    let d = seq![PathComponent::CurDir];
    assert(d.drop_last() =~= Seq::<PathComponent>::empty());
    assert(net_depth(Seq::<PathComponent>::empty()) == 0);
    assert(d.last() == PathComponent::CurDir);
    assert(net_depth(d) == 0);
    assert(stays_inside(d)) by {
        assert(d.take(0) =~= Seq::<PathComponent>::empty());
        assert(d.take(1) =~= d);
    }
    if stays_inside(c) {
        lemma_stays_inside_concat(d, c);
    }
    if stays_inside(d + c) {
        let e = d + c;
        assert forall|k: int| 0 <= k < c.len() implies !is_root_like(#[trigger] c[k]) by {
            assert(e[k + 1] == c[k]);
        }
        assert forall|k: int| 0 <= k <= c.len() implies net_depth(#[trigger] c.take(k)) >= 0 by {
            assert(e.take(k + 1) =~= d + c.take(k));
            lemma_net_depth_concat(d, c.take(k));
            assert(net_depth(e.take(k + 1)) >= 0);
        }
    }
}

proof fn lemma_slash_shift(x: Seq<char>, t: Seq<char>, s: int, i: int, leading: bool)
    requires
        0 <= s <= i <= t.len(),
    ensures
        slash_pieces_from(x + t, x.len() + s, x.len() + i, leading) == slash_pieces_from(
            t,
            s,
            i,
            leading,
        ),
    decreases t.len() - i,
{
    let u = x + t;
    let xs = x.len() + s;
    let xi = x.len() + i;
    if i >= t.len() {
        assert(u.subrange(xs, u.len() as int) =~= t.subrange(s, t.len() as int));
    } else {
        assert(u[xi] == t[i]);
        if t[i] == '/' {
            assert(u.subrange(xs, xi) =~= t.subrange(s, i));
            lemma_slash_shift(x, t, i + 1, i + 1, false);
        } else {
            lemma_slash_shift(x, t, s, i + 1, leading);
        }
    }
}

proof fn lemma_slash_split(p: Seq<char>, q: Seq<char>, s: int, i: int, leading: bool)
    requires
        0 <= s <= i <= p.len(),
    ensures
        slash_pieces_from(p + seq!['/'] + q, s, i, leading) == slash_pieces_from(p, s, i, leading)
            + slash_pieces_from(p + seq!['/'] + q, p.len() + 1int, p.len() + 1int, false),
    decreases p.len() - i,
{
    let t = p + seq!['/'] + q;
    let tail = slash_pieces_from(t, p.len() + 1int, p.len() + 1int, false);
    if i == p.len() {
        assert(t[i] == '/');
        assert(t.subrange(s, i) =~= p.subrange(s, p.len() as int));
    } else {
        assert(t[i] == p[i]);
        if p[i] == '/' {
            assert(t.subrange(s, i) =~= p.subrange(s, i));
            lemma_slash_split(p, q, i + 1, i + 1, false);
            let a = piece_components(p.subrange(s, i), leading);
            let b = slash_pieces_from(p, i + 1, i + 1, false);
            assert(a + (b + tail) =~= (a + b) + tail);
        } else {
            lemma_slash_split(p, q, s, i + 1, leading);
        }
    }
}

proof fn lemma_slash_leading(q: Seq<char>, s: int, i: int)
    requires
        0 <= s <= i <= q.len(),
    ensures
        slash_pieces_from(q, s, i, true) == slash_pieces_from(q, s, i, false)
            || slash_pieces_from(q, s, i, true) == seq![PathComponent::CurDir] + slash_pieces_from(
            q,
            s,
            i,
            false,
        ),
    decreases q.len() - i,
{
    if i >= q.len() {
        let piece = q.subrange(s, q.len() as int);
        if piece.len() > 0 && piece == seq!['.'] {
            assert(seq![PathComponent::CurDir] + Seq::<PathComponent>::empty() =~= seq![
                PathComponent::CurDir,
            ]);
        }
    } else if q[i] == '/' {
        let piece = q.subrange(s, i);
        let rest = slash_pieces_from(q, i + 1, i + 1, false);
        if piece.len() > 0 && piece == seq!['.'] {
            assert(seq![PathComponent::CurDir] + rest =~= seq![PathComponent::CurDir] + (
            Seq::<PathComponent>::empty() + rest));
        }
    } else {
        lemma_slash_leading(q, s, i + 1);
    }
}

/// Two path texts that every platform reads alike, joined with `/`: the
/// joined path is accepted when both parts are, and the first part is
/// accepted when the joined path is.
pub proof fn lemma_joined_paths_accepted(p: Seq<char>, q: Seq<char>)
    requires
        is_portable_relative(p),
        is_portable_relative(q),
        p.len() > 0,
    ensures
        is_portable_relative(p + seq!['/'] + q),
        portable_path_accepted(p) && portable_path_accepted(q) ==> portable_path_accepted(
            p + seq!['/'] + q,
        ),
        portable_path_accepted(p + seq!['/'] + q) ==> portable_path_accepted(p),
{
    let x = p + seq!['/'];
    let t = x + q;
    assert forall|k: int| 0 <= k < t.len() implies t[k] != '\\' && t[k] != ':' by {
        if k < p.len() {
            assert(t[k] == p[k]);
        } else if k > p.len() {
            assert(t[k] == q[k - p.len() - 1]);
        }
    }
    assert(t[0] == p[0]);
    lemma_slash_split(p, q, 0, 0, true);
    lemma_slash_shift(x, q, 0, 0, false);
    assert(x.len() == p.len() + 1);
    let c = slash_pieces_from(q, 0, 0, false);
    assert(slash_components(t) == slash_components(p) + c);
    lemma_slash_leading(q, 0, 0);
    lemma_stays_inside_lead_cur_dir(c);
    assert(stays_inside(slash_components(q)) == stays_inside(c));
    lemma_accepted_paths_stay_inside(false, slash_components(p));
    lemma_accepted_paths_stay_inside(false, slash_components(q));
    lemma_accepted_paths_stay_inside(false, slash_components(t));
    if stays_inside(slash_components(p)) && stays_inside(c) {
        lemma_stays_inside_concat(slash_components(p), c);
    }
    if stays_inside(slash_components(t)) {
        lemma_stays_inside_prefix(slash_components(p), c);
    }
}

} // verus!
