//! The directories and files that the two applications keep their data in.

use vstd::prelude::*;

use crate::text::{copy_str, same_text};

verus! {

#[verifier::external_type_specification]
#[verifier::external_body]
pub struct ExPathBuf(std::path::PathBuf);

#[verifier::external_type_specification]
#[verifier::external_body]
pub struct ExPath(std::path::Path);

#[verifier::external_type_specification]
#[verifier::external_body]
#[verifier::reject_recursive_types(T)]
pub struct ExMutex<T: ?Sized>(std::sync::Mutex<T>);

/// Where the provider switcher keeps its database, backups, logs and the
/// marker of an unfinished switch.
#[derive(Debug)]
pub struct SwitcherPaths {
    pub data_root: std::path::PathBuf,
    pub database_path: std::path::PathBuf,
    pub backups_root: std::path::PathBuf,
    pub logs_root: std::path::PathBuf,
    pub log_path: std::path::PathBuf,
    pub transaction_path: std::path::PathBuf,
}

/// Where the profile switcher keeps its profiles, templates, backups and
/// logs.
#[derive(Debug)]
pub struct AppPaths {
    pub data_root: std::path::PathBuf,
    pub profiles_root: std::path::PathBuf,
    pub database_path: std::path::PathBuf,
    pub templates_root: std::path::PathBuf,
    pub openai_template_path: std::path::PathBuf,
    pub apikey_template_path: std::path::PathBuf,
    pub backups_root: std::path::PathBuf,
    pub logs_root: std::path::PathBuf,
    pub structured_log_path: std::path::PathBuf,
}

/// The profile switcher's state: its paths and the locks that serialise
/// database access and switches.
#[derive(Debug)]
pub struct AppState {
    pub paths: AppPaths,
    pub database_lock: std::sync::Mutex<()>,
    pub switch_lock: std::sync::Mutex<()>,
}

/// `std::sync::Mutex::new(())`.
#[verifier::external_body]
fn new_lock() -> (out: std::sync::Mutex<()>)
{
    std::sync::Mutex::new(())
}

impl AppState {
    /// The state for the given paths, with both locks free.
    pub fn with_paths(paths: AppPaths) -> (out: Self)
        ensures
            out.paths == paths,
    {
        AppState { paths, database_lock: new_lock(), switch_lock: new_lock() }
    }
}

/// `/` and, on Windows, `\\` separate the parts of a path.
pub open spec fn is_separator(c: char) -> bool {
    c == '/' || c == '\\'
}

/// A `..` part of `p` starts at `i`: it stands between separators or the
/// ends of the text; with `slash_only`, only `/` counts as a separator.
pub open spec fn dot_dot_at(p: Seq<char>, i: int, slash_only: bool) -> bool {
    &&& 0 <= i && i + 2 <= p.len()
    &&& p[i] == '.' && p[i + 1] == '.'
    &&& (i == 0 || p[i - 1] == '/' || (!slash_only && p[i - 1] == '\\'))
    &&& (i + 2 == p.len() || p[i + 2] == '/' || (!slash_only && p[i + 2] == '\\'))
}

/// A text that no platform reads as an absolute path or as one with a
/// prefix (a drive, a UNC share), and that has no `..` part under either
/// platform's separators.
pub open spec fn plain_relative(p: Seq<char>) -> bool {
    &&& !p.contains(':')
    &&& (p.len() > 0 ==> !is_separator(p[0]))
    &&& forall|i: int| !dot_dot_at(p, i, false)
}

/// A text without a prefix that every platform reads as holding a `..`
/// part between `/` separators.
pub open spec fn climbs(p: Seq<char>) -> bool {
    &&& !p.contains(':')
    &&& (p.len() > 0 ==> !is_separator(p[0]))
    &&& exists|i: int| dot_dot_at(p, i, true)
}

/// `Path::is_absolute` on the running platform. Its documentation makes a
/// path absolute on Unix when it starts at the root `/`, and on Windows
/// when it has a prefix (which starts with `\\` or holds `:`) and starts at
/// the root; so a plain relative text is absolute on neither. Nothing more
/// is stated: the rest depends on the platform.
#[verifier::external_body]
pub(crate) fn path_is_absolute(path: &str) -> (out: bool)
    ensures
        plain_relative(path@) ==> !out,
{
    std::path::Path::new(path).is_absolute()
}

/// A text that every platform reads as one plain name: not empty, not `.`
/// or `..`, with no separator and no `:`.
pub open spec fn plain_name(p: Seq<char>) -> bool {
    &&& p.len() > 0
    &&& p != "."@ && p != ".."@
    &&& !p.contains('/') && !p.contains('\\') && !p.contains(':')
}

/// A text that no platform reads as one plain name: empty, `.`, `..`, or
/// holding a `/` (a separator everywhere).
pub open spec fn never_a_name(p: Seq<char>) -> bool {
    p.len() == 0 || p == "."@ || p == ".."@ || p.contains('/')
}

/// The kind of one part of a path, as `std::path::Component` tells them
/// apart.
#[derive(Debug, Clone, Copy, PartialEq, Eq, Structural)]
pub enum PathPart {
    /// A Windows prefix: a drive or a share.
    Prefix,
    /// The root separator.
    RootDir,
    /// A `.` part.
    CurDir,
    /// A `..` part.
    ParentDir,
    /// A plain name.
    Normal,
}

/// The parts of a path, each with its text.
pub open spec fn parts_view(parts: Seq<(PathPart, String)>) -> Seq<(PathPart, Seq<char>)> {
    parts.map_values(|p: (PathPart, String)| (p.0, p.1@))
}

/// A single `Normal` part whose text is `text` itself.
pub open spec fn one_normal_part(parts: Seq<(PathPart, Seq<char>)>, text: Seq<char>) -> bool {
    parts.len() == 1 && parts[0].0 == PathPart::Normal && parts[0].1 == text
}

/// Some part is `..`.
pub open spec fn has_parent_part(parts: Seq<(PathPart, Seq<char>)>) -> bool {
    exists|i: int| 0 <= i < parts.len() && #[trigger] parts[i].0 == PathPart::ParentDir
}

/// `Path::new(text).components()`, each component as its kind and its text
/// (`to_string_lossy`). Which parts a text has depends on the platform; the
/// documentation fixes these on every platform: both platforms split at
/// `/` (Windows also at `\\` when there is no verbatim prefix), a `..` part
/// is `ParentDir`, an empty text has no component, `.` is `CurDir` alone,
/// and a plain name is one `Normal` component holding it. So a plain
/// relative text has no `ParentDir`, a text that climbs between `/`
/// separators has one, a plain name is one `Normal` part equal to the text,
/// and a text that is empty, `.`, `..` or holds a `/` is not (a `Normal`
/// part holds no separator, and a verbatim prefix is a part of its own).
#[verifier::external_body]
fn path_components(text: &str) -> (out: Vec<(PathPart, String)>)
    ensures
        plain_relative(text@) ==> !has_parent_part(parts_view(out@)),
        climbs(text@) ==> has_parent_part(parts_view(out@)),
        plain_name(text@) ==> one_normal_part(parts_view(out@), text@),
        never_a_name(text@) ==> !one_normal_part(parts_view(out@), text@),
{
    let mut out = Vec::new();
    for component in std::path::Path::new(text).components() {
        let kind = match component {
            std::path::Component::Prefix(_) => PathPart::Prefix,
            std::path::Component::RootDir => PathPart::RootDir,
            std::path::Component::CurDir => PathPart::CurDir,
            std::path::Component::ParentDir => PathPart::ParentDir,
            std::path::Component::Normal(_) => PathPart::Normal,
        };
        out.push((kind, component.as_os_str().to_string_lossy().to_string()));
    }
    out
}

/// Whether the parts are one `Normal` part equal to the text.
pub fn is_one_normal_part(parts: &Vec<(PathPart, String)>, text: &str) -> (out: bool)
    ensures
        out == one_normal_part(parts_view(parts@), text@),
{
    if parts.len() != 1 {
        return false;
    }
    let kind = parts[0].0;
    let same = same_text(parts[0].1.as_str(), text);
    assert(parts_view(parts@)[0] == (parts@[0].0, parts@[0].1@));
    kind == PathPart::Normal && same
}

/// Whether some part is `..`.
pub fn holds_parent_part(parts: &Vec<(PathPart, String)>) -> (out: bool)
    ensures
        out == has_parent_part(parts_view(parts@)),
{
    let mut i: usize = 0;
    while i < parts.len()
        invariant
            i <= parts.len(),
            forall|k: int| 0 <= k < i ==> parts_view(parts@)[k].0 != PathPart::ParentDir,
        decreases parts.len() - i,
    {
        assert(parts_view(parts@)[i as int].0 == parts@[i as int].0);
        if parts[i].0 == PathPart::ParentDir {
            return true;
        }
        i = i + 1;
    }
    false
}

/// Whether the text, read as a path on the running platform, is a single
/// `Normal` component that reads back as the text itself: always for a
/// plain name, never for an empty text, `.`, `..` or a text with a `/`.
pub(crate) fn single_normal_component(text: &str) -> (out: bool)
    ensures
        plain_name(text@) ==> out,
        never_a_name(text@) ==> !out,
{
    let parts = path_components(text);
    is_one_normal_part(&parts, text)
}

/// Whether the text, read as a path on the running platform, holds a `..`
/// part: never for a plain relative text, always for one that climbs
/// between `/` separators.
fn has_parent_component(text: &str) -> (out: bool)
    ensures
        plain_relative(text@) ==> !out,
        climbs(text@) ==> out,
{
    let parts = path_components(text);
    holds_parent_part(&parts)
}

/// `Path::to_string_lossy` as an owned string. Nothing is stated of the
/// result: how a path is held, and so what is lossy, depends on the
/// platform.
#[verifier::external_body]
pub fn path_to_string(path: &std::path::Path) -> (out: String) {
    path.to_string_lossy().to_string()
}

pub const BACKUP_PATH_INVALID: &'static str = "backup_path_invalid";

pub const BACKUP_PATH_INVALID_MSG: &'static str = "备份清单包含不安全路径。";

/// A relative path from a backup manifest, checked before it is joined to
/// a root: kept as it is when it is neither absolute nor climbs with `..`,
/// otherwise refused. Which texts are absolute or hold `..` follows the
/// platform's path rules: a plain relative text is always kept, and one
/// that climbs between `/` separators is always refused.
pub fn checked_relative(relative: &str) -> (out: crate::switcher::ApiResult<String>)
    ensures
        out matches Ok(kept) ==> kept@ == relative@,
        out matches Err(e) ==> e@ == crate::switcher::error_spec(
            BACKUP_PATH_INVALID@,
            BACKUP_PATH_INVALID_MSG@,
        ),
        plain_relative(relative@) ==> out is Ok,
        climbs(relative@) ==> out is Err,
{
    if path_is_absolute(relative) || has_parent_component(relative) {
        return Err(crate::switcher::ApiError::new(BACKUP_PATH_INVALID, BACKUP_PATH_INVALID_MSG));
    }
    Ok(copy_str(relative))
}

} // verus!
