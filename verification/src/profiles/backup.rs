//! The profile switcher's backups: timestamped directories per target,
//! listed newest first.

use vstd::prelude::*;

use crate::order::{lemma_lex_asymmetric, lemma_lex_total, lemma_lex_transitive, lex_less, lex_lt};
use crate::paths::{AppPaths, never_a_name, plain_name, single_normal_component};
use crate::profiles::{AppError, AppResult, is_validation_error};
use crate::profiles::models::BackupItem;
use crate::text::{chars_of, copy_str, push_str, trim, trim_str};

verus! {

/// Creates, lists and restores the backups of the targets.
pub struct BackupService<'a> {
    pub paths: &'a AppPaths,
}

impl<'a> BackupService<'a> {
    pub fn new(paths: &'a AppPaths) -> (out: Self)
        ensures
            out.paths == paths,
    {
        BackupService { paths }
    }
}

pub const BACKUP_DIRECTORY_INVALID: &'static str = "invalid_backup_directory";

pub const BACKUP_DIRECTORY_INVALID_MSG: &'static str = "备份目录标识无效。";

/// A backup directory named in a request must be one plain path component;
/// the trimmed name is kept. A plain name is always accepted; an empty name,
/// `.`, `..` and a name with a `/` are always refused; other names follow
/// the platform's path rules.
pub fn validate_backup_directory_name(value: &str) -> (out: AppResult<String>)
    ensures
        out matches Ok(name) ==> name@ == trim(value@),
        out matches Err(e) ==> is_validation_error(
            e,
            
            BACKUP_DIRECTORY_INVALID@,
            BACKUP_DIRECTORY_INVALID_MSG@,
        ),
        plain_name(trim(value@)) ==> out is Ok,
        never_a_name(trim(value@)) ==> out is Err,
{
    let trimmed = trim_str(value);
    if single_normal_component(trimmed.as_str()) {
        Ok(trimmed)
    } else {
        Err(AppError::validation(BACKUP_DIRECTORY_INVALID, BACKUP_DIRECTORY_INVALID_MSG))
    }
}

/// How a backup directory is named: the local time with milliseconds,
/// `YYYYMMDD-HHMMSS-mmm`.
pub const BACKUP_NAME_FORMAT: &'static str = "%Y%m%d-%H%M%S-%3f";

/// How a backup is labelled: `YYYY-MM-DD HH:MM:SS`.
pub const BACKUP_LABEL_FORMAT: &'static str = "%Y-%m-%d %H:%M:%S";

/// An ASCII digit.
pub open spec fn ascii_digit(c: char) -> bool {
    '0' <= c && c <= '9'
}

/// A name in the exact shape of `BACKUP_NAME_FORMAT`: eight digits, a
/// hyphen, six digits, a hyphen and three digits.
pub open spec fn stamp_shaped(name: Seq<char>) -> bool {
    &&& name.len() == 19
    &&& name[8] == '-' && name[15] == '-'
    &&& forall|i: int| 0 <= i < 19 && i != 8 && i != 15 ==> ascii_digit(#[trigger] name[i])
}

/// The label of a stamp-shaped name: its own date and time fields in the
/// order and with the separators of `BACKUP_LABEL_FORMAT`.
pub open spec fn stamp_label(name: Seq<char>) -> Seq<char> {
    name.subrange(0, 4) + "-"@ + name.subrange(4, 6) + "-"@ + name.subrange(6, 8) + " "@
        + name.subrange(9, 11) + ":"@ + name.subrange(11, 13) + ":"@ + name.subrange(13, 15)
}

/// `chrono::NaiveDateTime::parse_from_str(name, parse_format)`, then
/// `Local.from_local_datetime(..).single()`, then `format(label_format)`,
/// for the library's two formats only (a format chrono cannot read would
/// panic when written out). `None` when the name does not parse or the
/// local time does not exist once (a clock change); which times those are
/// depends on the machine's time zone. A label keeps the parsed fields,
/// which do not depend on the time zone: chrono reads a stamp-shaped name
/// field by field (4, 2, 2, 2, 2 and 2 digits, then 3 for the
/// milliseconds) and writes the year with four digits and the rest with
/// two, so such a name's label is its own fields rearranged; any label has
/// at least nineteen characters.
#[verifier::external_body]
fn local_time_label(name: &str, parse_format: &str, label_format: &str) -> (out: Option<String>)
    requires
        parse_format@ == BACKUP_NAME_FORMAT@,
        label_format@ == BACKUP_LABEL_FORMAT@,
    ensures
        out matches Some(label) ==> label@.len() >= 19,
        out matches Some(label) ==> (stamp_shaped(name@) ==> label@ == stamp_label(name@)),
{
    let parsed = chrono::NaiveDateTime::parse_from_str(name, parse_format).ok()?;
    let local = chrono::TimeZone::from_local_datetime(&chrono::Local, &parsed).single()?;
    Some(local.format(label_format).to_string())
}

/// The label a backup is listed under: the local time read from its
/// directory name where there is one, else the name itself.
pub fn label_or_name(local: Option<String>, name: &str) -> (out: String)
    ensures
        out@ == (match local {
            Some(label) => label@,
            None => name@,
        }),
{
    match local {
        Some(label) => label,
        None => copy_str(name),
    }
}

/// Shows a backup directory's timestamp name (`YYYYMMDD-HHMMSS-mmm`) as
/// local time, `YYYY-MM-DD HH:MM:SS`; a name that is no such time is shown
/// as it is. A stamp-shaped name is shown either as it is or as its own
/// fields rearranged; which, depends on whether the local time exists.
pub fn format_backup_label(name: &str) -> (out: String)
    ensures
        out@ == name@ || out@.len() >= 19,
        stamp_shaped(name@) ==> (out@ == name@ || out@ == stamp_label(name@)),
{
    label_or_name(local_time_label(name, BACKUP_NAME_FORMAT, BACKUP_LABEL_FORMAT), name)
}

/// What restoring one file of a snapshot does.
#[derive(Debug, Clone, Copy, PartialEq, Eq, Structural)]
pub enum FileRestore {
    /// The snapshot holds the file: copy it back.
    CopyFromBackup,
    /// The snapshot does not hold it but the target does: remove it.
    RemoveCurrent,
    /// Neither holds it.
    Nothing,
}

/// A file is copied back when the snapshot holds it, removed when only the
/// target holds it, and otherwise left; the restore changed the target
/// unless nothing was done.
pub fn restore_file_action(backup_exists: bool, target_exists: bool) -> (out: (FileRestore, bool))
    ensures
        out.0 == (if backup_exists {
            FileRestore::CopyFromBackup
        } else if target_exists {
            FileRestore::RemoveCurrent
        } else {
            FileRestore::Nothing
        }),
        out.1 == (backup_exists || target_exists),
{
    if backup_exists {
        (FileRestore::CopyFromBackup, true)
    } else if target_exists {
        (FileRestore::RemoveCurrent, true)
    } else {
        (FileRestore::Nothing, false)
    }
}

/// The key and label of the WSL backups kept under directory `label`.
pub fn wsl_backup_labels(label: &str) -> (out: (String, String))
    ensures
        out.0@ == "wsl:"@ + label@,
        out.1@ == "WSL ("@ + label@ + ")"@,
{
    let mut key = copy_str("wsl:");
    push_str(&mut key, label);
    let mut display = copy_str("WSL (");
    push_str(&mut display, label);
    push_str(&mut display, ")");
    (key, display)
}

/// Index of the first item at or after `i` whose directory name is smaller
/// than `name`.
pub open spec fn first_smaller(s: Seq<BackupItem>, name: Seq<char>, i: int) -> int
    decreases s.len() - i,
{
    if i < 0 || i >= s.len() {
        s.len() as int
    } else if lex_lt(s[i].directory_name@, name) {
        i
    } else {
        first_smaller(s, name, i + 1)
    }
}

proof fn lemma_first_smaller(s: Seq<BackupItem>, name: Seq<char>, i: int)
    requires
        0 <= i <= s.len(),
    ensures
        i <= first_smaller(s, name, i) <= s.len(),
        forall|k: int|
            i <= k < first_smaller(s, name, i) ==> !lex_lt((#[trigger] s[k]).directory_name@, name),
        first_smaller(s, name, i) < s.len() ==> lex_lt(
            s[first_smaller(s, name, i)].directory_name@,
            name,
        ),
    decreases s.len() - i,
{
    if i < s.len() && !lex_lt(s[i].directory_name@, name) {
        lemma_first_smaller(s, name, i + 1);
    }
}

/// Stable sort by directory name, largest (newest) first.
pub open spec fn names_descending(s: Seq<BackupItem>) -> Seq<BackupItem>
    decreases s.len(),
{
    if s.len() == 0 {
        Seq::empty()
    } else {
        let sorted = names_descending(s.drop_last());
        sorted.insert(first_smaller(sorted, s.last().directory_name@, 0), s.last())
    }
}

proof fn lemma_names_descending_len(s: Seq<BackupItem>)
    ensures
        names_descending(s).len() == s.len(),
    decreases s.len(),
{
    if s.len() > 0 {
        lemma_names_descending_len(s.drop_last());
        lemma_first_smaller(names_descending(s.drop_last()), s.last().directory_name@, 0);
    }
}

fn name_less(a: &String, b: &String) -> (out: bool)
    ensures
        out == lex_lt(a@, b@),
{
    let x = chars_of(a.as_str());
    let y = chars_of(b.as_str());
    lex_less(&x, &y)
}

/// The backups sorted by directory name, newest first; items with the same
/// name keep their order.
pub fn sort_backup_items(items: Vec<BackupItem>) -> (out: Vec<BackupItem>)
    ensures
        out@ == names_descending(items@),
{
    let mut sorted: Vec<BackupItem> = Vec::new();
    let mut rest = items;
    let ghost all = rest@;
    let mut reversed: Vec<BackupItem> = Vec::new();
    while rest.len() > 0
        invariant
            rest@ + reversed@.reverse() == all,
        decreases rest.len(),
    {
        let ghost before = rest@;
        let x = rest.pop().unwrap();
        reversed.push(x);
        assert(before =~= rest@.push(x));
        assert(rest@ + reversed@.reverse() =~= all);
    }
    assert(reversed@.reverse() =~= all);
    let n = reversed.len();
    while reversed.len() > 0
        invariant
            reversed@.len() <= n,
            n == all.len(),
            reversed@.reverse() == all.skip(n - reversed@.len()),
            sorted@ == names_descending(all.take(n - reversed@.len())),
        decreases reversed.len(),
    {
        let ghost before = reversed@;
        let x = reversed.pop().unwrap();
        let ghost k = n - before.len();
        assert(before =~= reversed@.push(x));
        assert(before.reverse()[0] == x);
        assert(all.skip(k)[0] == all[k]);
        assert(all[k] == x);
        assert(all.take(k + 1).drop_last() =~= all.take(k));
        assert(reversed@.reverse() =~= before.reverse().drop_first());
        assert(all.skip(k + 1) =~= all.skip(k).drop_first());
        let mut p: usize = 0;
        while p < sorted.len()
            invariant
                p <= sorted.len(),
                first_smaller(sorted@, x.directory_name@, 0) == first_smaller(
                    sorted@,
                    x.directory_name@,
                    p as int,
                ),
            ensures
                p <= sorted.len(),
                first_smaller(sorted@, x.directory_name@, 0) == p,
            decreases sorted.len() - p,
        {
            if name_less(&sorted[p].directory_name, &x.directory_name) {
                break;
            }
            p = p + 1;
        }
        sorted.insert(p, x);
    }
    assert(all.take(n as int) =~= all);
    sorted
}

/// No directory name is followed by a larger one.
pub open spec fn sorted_by_name_descending(s: Seq<BackupItem>) -> bool {
    forall|i: int, j: int|
        0 <= i < j < s.len() ==> !lex_lt(s[i].directory_name@, s[j].directory_name@)
}

/// The backup list is ordered newest first and holds exactly the backups
/// found.
pub proof fn lemma_names_descending(s: Seq<BackupItem>)
    ensures
        sorted_by_name_descending(names_descending(s)),
        names_descending(s).to_multiset() == s.to_multiset(),
    decreases s.len(),
{
    broadcast use vstd::seq_lib::to_multiset_insert, vstd::seq_lib::to_multiset_build;

    if s.len() == 0 {
        assert(names_descending(s) =~= s);
    } else {
        let prev = names_descending(s.drop_last());
        let x = s.last();
        lemma_names_descending(s.drop_last());
        lemma_names_descending_len(s.drop_last());
        lemma_first_smaller(prev, x.directory_name@, 0);
        let p = first_smaller(prev, x.directory_name@, 0);
        let t = prev.insert(p, x);
        assert forall|i: int, j: int| 0 <= i < j < t.len() implies !lex_lt(
            t[i].directory_name@,
            t[j].directory_name@,
        ) by {
            if j < p {
                assert(t[i] == prev[i] && t[j] == prev[j]);
            } else if j == p {
                assert(t[i] == prev[i]);
            } else if i == p {
                assert(t[j] == prev[j - 1]);
                if lex_lt(x.directory_name@, prev[j - 1].directory_name@) {
                    lemma_lex_transitive(
                        prev[p].directory_name@,
                        x.directory_name@,
                        prev[j - 1].directory_name@,
                    );
                    if p < j - 1 {
                        assert(!lex_lt(prev[p].directory_name@, prev[j - 1].directory_name@));
                    } else {
                        lemma_lex_asymmetric(prev[p].directory_name@, x.directory_name@);
                    }
                }
            } else if i < p {
                assert(t[i] == prev[i] && t[j] == prev[j - 1]);
            } else {
                assert(t[i] == prev[i - 1] && t[j] == prev[j - 1]);
            }
        }
        assert(s =~= s.drop_last().push(x));
    }
}

/// Index of the first largest name, the directory that a newest-first
/// listing shows at the top; `None` when there are none.
pub fn latest_directory_index(names: &Vec<String>) -> (out: Option<usize>)
    ensures
        out is None <==> names@.len() == 0,
        out matches Some(k) ==> k < names@.len() && (forall|j: int|
            0 <= j < names@.len() ==> !lex_lt(names@[k as int]@, #[trigger] names@[j]@)) && (forall|j: int|
            0 <= j < k ==> lex_lt(#[trigger] names@[j]@, names@[k as int]@)),
{
    if names.len() == 0 {
        return None;
    }
    let mut best: usize = 0;
    let mut i: usize = 1;
    proof {
        crate::order::lemma_lex_irreflexive(names@[0]@);
    }
    while i < names.len()
        invariant
            names@.len() > 0,
            best < i <= names@.len(),
            forall|j: int| 0 <= j < i ==> !lex_lt(names@[best as int]@, #[trigger] names@[j]@),
            forall|j: int| 0 <= j < best ==> lex_lt(#[trigger] names@[j]@, names@[best as int]@),
        decreases names.len() - i,
    {
        if name_less(&names[best], &names[i]) {
            proof {
                assert forall|j: int| 0 <= j < i + 1 implies !lex_lt(
                    names@[i as int]@,
                    #[trigger] names@[j]@,
                ) by {
                    if j < i as int {
                        lemma_lex_total(names@[j]@, names@[best as int]@);
                        if lex_lt(names@[i as int]@, names@[j]@) {
                            if lex_lt(names@[best as int]@, names@[j]@) {
                            } else if names@[j]@ == names@[best as int]@ {
                                lemma_lex_asymmetric(names@[best as int]@, names@[i as int]@);
                            } else {
                                lemma_lex_transitive(
                                    names@[i as int]@,
                                    names@[j]@,
                                    names@[best as int]@,
                                );
                                lemma_lex_asymmetric(names@[best as int]@, names@[i as int]@);
                            }
                        }
                    } else {
                        crate::order::lemma_lex_irreflexive(names@[i as int]@);
                    }
                }
                assert forall|j: int| 0 <= j < i implies lex_lt(
                    #[trigger] names@[j]@,
                    names@[i as int]@,
                ) by {
                    lemma_lex_total(names@[j]@, names@[best as int]@);
                    if lex_lt(names@[j]@, names@[best as int]@) {
                        lemma_lex_transitive(
                            names@[j]@,
                            names@[best as int]@,
                            names@[i as int]@,
                        );
                    }
                }
            }
            best = i;
        }
        i = i + 1;
    }
    Some(best)
}

} // verus!
