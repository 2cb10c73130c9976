//! Backups of Codex's files: listing order, retention, identifiers and the
//! exact restore of a manifest.

use vstd::prelude::*;

use crate::digest::sha256_hex;
use crate::paths::path_to_string;
use crate::fresh::{
    COMPACT_STAMP_FORMAT, lower_hex_char, random_uuid_simple, stamp_char, utc_now_formatted,
    utc_now_nanos,
};
use crate::switcher::models::{
    BackupFileRecord, BackupManifest, BackupSummary, StoredProviderProfile,
};
use crate::switcher::service::{
    SHARED_CATALOG_RELATIVE_PATH, catalog_path_spec, catalog_relative_path,
};
use crate::switcher::{ApiError, ApiResult, error_spec};
use crate::text::{
    contains, contains_str, copy_str, occurs_at, lemma_pushed_unique_distinct, opt_str_text, opt_text,
    push_str, push_unique, pushed_unique, replace_char, replace_char_str, strings_view,
};

verus! {

/// What restoring one manifest record does to the file in CODEX_HOME.
#[derive(Debug, Clone, Copy, PartialEq, Eq)]
pub enum RestoreAction {
    /// The file existed before the switch: its backed-up bytes are written
    /// back.
    WriteBackup,
    /// The file did not exist before the switch but exists now: it is
    /// removed.
    RemoveCreated,
    /// The file neither existed then nor exists now.
    Leave,
}

pub const BACKUP_CONFLICT: &'static str = "backup_conflict";

pub const CONFLICT_PREFIX: &'static str = "文件 ";

pub const CONFLICT_SUFFIX: &'static str = " 在备份后被其他程序修改，需要确认强制恢复。";

/// The action for a record, given whether the file exists now.
pub open spec fn restore_action_spec(existed_before: bool, exists_now: bool) -> RestoreAction {
    if existed_before {
        RestoreAction::WriteBackup
    } else if exists_now {
        RestoreAction::RemoveCreated
    } else {
        RestoreAction::Leave
    }
}

/// What `restore_step` gives for a record: unless the restore is forced,
/// the file must still have the digest recorded when the switch finished
/// (`current_digest`, absent when the file does not exist); otherwise the
/// restore stops with a conflict naming the file.
pub open spec fn restore_step_spec(
    record: BackupFileRecord,
    exists_now: bool,
    current_digest: Option<String>,
    force: bool,
    out: ApiResult<RestoreAction>,
) -> bool {
    match out {
        Ok(a) => (force || opt_text(current_digest) == opt_text(record.sha256_after))
            && a == restore_action_spec(record.existed_before, exists_now),
        Err(e) => !force && opt_text(current_digest) != opt_text(record.sha256_after)
            && e@ == error_spec(
            BACKUP_CONFLICT@,
            CONFLICT_PREFIX@ + record.relative_path@ + CONFLICT_SUFFIX@,
        ),
    }
}

/// Decides how one record is restored (see `restore_step_spec`).
pub fn restore_step(
    record: &BackupFileRecord,
    exists_now: bool,
    current_digest: Option<String>,
    force: bool,
) -> (out: ApiResult<RestoreAction>)
    ensures
        restore_step_spec(*record, exists_now, current_digest, force, out),
{
    if !force {
        let same = match (&current_digest, &record.sha256_after) {
            (Some(a), Some(b)) => *a == *b,
            (None, None) => true,
            _ => false,
        };
        if !same {
            let mut message = copy_str(CONFLICT_PREFIX);
            push_str(&mut message, record.relative_path.as_str());
            push_str(&mut message, CONFLICT_SUFFIX);
            return Err(ApiError::new(BACKUP_CONFLICT, message.as_str()));
        }
    }
    if record.existed_before {
        Ok(RestoreAction::WriteBackup)
    } else if exists_now {
        Ok(RestoreAction::RemoveCreated)
    } else {
        Ok(RestoreAction::Leave)
    }
}

/// A file in CODEX_HOME after a restore action, as the restore carries it
/// out: the backed-up bytes written back, the file removed, or the file left
/// as it is now (`None` is an absent file).
pub open spec fn file_after_restore(
    action: RestoreAction,
    backed_up: Seq<u8>,
    now: Option<Seq<u8>>,
) -> Option<Seq<u8>> {
    match action {
        RestoreAction::WriteBackup => Some(backed_up),
        RestoreAction::RemoveCreated => None,
        RestoreAction::Leave => now,
    }
}

/// A forced restore of a record never stops, and leaves the file exactly as
/// it was when the backup was taken: holding the bytes it held then, or
/// absent if it was absent, whatever happened to it since.
pub proof fn lemma_forced_restore_is_exact(
    record: BackupFileRecord,
    before: Option<Seq<u8>>,
    backed_up: Seq<u8>,
    now: Option<Seq<u8>>,
    current_digest: Option<String>,
    out: ApiResult<RestoreAction>,
)
    requires
        record.existed_before == before is Some,
        before matches Some(b) ==> backed_up == b,
        restore_step_spec(record, now is Some, current_digest, true, out),
    ensures
        out matches Ok(a) && file_after_restore(a, backed_up, now) == before,
{
}

/// Without force, a record whose file still has the digest recorded after
/// the switch is restored exactly as it was before the switch; a file that
/// another program changed since stops the restore with a conflict, and
/// nothing is done to it.
pub proof fn lemma_unforced_restore(
    record: BackupFileRecord,
    before: Option<Seq<u8>>,
    backed_up: Seq<u8>,
    now: Option<Seq<u8>>,
    current_digest: Option<String>,
    out: ApiResult<RestoreAction>,
)
    requires
        record.existed_before == before is Some,
        before matches Some(b) ==> backed_up == b,
        restore_step_spec(record, now is Some, current_digest, false, out),
    ensures
        opt_text(current_digest) == opt_text(record.sha256_after) ==> (out matches Ok(a)
            && file_after_restore(a, backed_up, now) == before),
        opt_text(current_digest) != opt_text(record.sha256_after) ==> (out matches Err(e)
            && e@.code == BACKUP_CONFLICT@),
{
}

/// The files under CODEX_HOME: each relative path that exists, with its
/// bytes.
pub type FileTree = Map<Seq<char>, Seq<u8>>;

/// The digest that a manifest records for a path: that of its bytes, or
/// none when the file does not exist.
pub open spec fn digest_in(tree: FileTree, path: Seq<char>) -> Option<Seq<char>> {
    if tree.dom().contains(path) {
        Some(sha256_hex(tree[path]))
    } else {
        None
    }
}

/// The tree with the file at `path` as given: present with those bytes, or
/// absent.
pub open spec fn with_file(tree: FileTree, path: Seq<char>, file: Option<Seq<u8>>) -> FileTree {
    match file {
        Some(bytes) => tree.insert(path, bytes),
        None => tree.remove(path),
    }
}

/// The file at `path`, or `None` when it does not exist.
pub open spec fn file_at(tree: FileTree, path: Seq<char>) -> Option<Seq<u8>> {
    if tree.dom().contains(path) {
        Some(tree[path])
    } else {
        None
    }
}

/// Restoring a manifest's records in order, as the restore does with the
/// decisions of `restore_step`: each record's file gets what its action
/// gives (the backed-up copy from `saved`); an unforced restore stops at
/// the first file whose digest is not the one recorded after the switch.
/// The result is the tree and whether the restore stopped on a conflict.
pub open spec fn restore_run(
    records: Seq<BackupFileRecord>,
    saved: FileTree,
    tree: FileTree,
    force: bool,
) -> (FileTree, bool)
    decreases records.len(),
{
    if records.len() == 0 {
        (tree, false)
    } else {
        let r = records[0];
        let p = r.relative_path@;
        if !force && digest_in(tree, p) != opt_text(r.sha256_after) {
            (tree, true)
        } else {
            let action = restore_action_spec(r.existed_before, tree.dom().contains(p));
            let next = with_file(tree, p, file_after_restore(action, saved[p], file_at(tree, p)));
            restore_run(records.drop_first(), saved, next, force)
        }
    }
}

/// Each record names its own file.
pub open spec fn distinct_paths(records: Seq<BackupFileRecord>) -> bool {
    forall|i: int, j: int|
        0 <= i < j < records.len() ==> records[i].relative_path@ != records[j].relative_path@
}

/// The records and the saved copies were taken from `before`: a record
/// says whether its file existed, and the copy of an existing file holds
/// its bytes.
pub open spec fn taken_from(records: Seq<BackupFileRecord>, saved: FileTree, before: FileTree) -> bool {
    forall|i: int|
        0 <= i < records.len() ==> {
            let p = #[trigger] records[i].relative_path@;
            &&& records[i].existed_before == before.dom().contains(p)
            &&& before.dom().contains(p) ==> saved[p] == before[p]
        }
}

/// Every record holds the digest of its file in `tree`, as finalising the
/// manifest after the switch records it.
pub open spec fn finalized_in(records: Seq<BackupFileRecord>, tree: FileTree) -> bool {
    forall|i: int|
        0 <= i < records.len() ==> opt_text(#[trigger] records[i].sha256_after) == digest_in(
            tree,
            records[i].relative_path@,
        )
}

/// Some record's file in `tree` no longer has the recorded digest.
pub open spec fn changed_since(records: Seq<BackupFileRecord>, tree: FileTree) -> bool {
    exists|i: int|
        0 <= i < records.len() && opt_text(#[trigger] records[i].sha256_after) != digest_in(
            tree,
            records[i].relative_path@,
        )
}

/// Two trees agree on one path.
pub open spec fn same_file(a: FileTree, b: FileTree, p: Seq<char>) -> bool {
    file_at(a, p) == file_at(b, p)
}

proof fn lemma_distinct_rest(records: Seq<BackupFileRecord>)
    requires
        records.len() > 0,
        distinct_paths(records),
    ensures
        distinct_paths(records.drop_first()),
        forall|i: int|
            0 <= i < records.drop_first().len() ==> #[trigger] records.drop_first()[i].relative_path@
                != records[0].relative_path@,
{
    assert forall|i: int| 0 <= i < records.drop_first().len() implies #[trigger] records.drop_first()[i].relative_path@
        != records[0].relative_path@ by {
        assert(records.drop_first()[i] == records[i + 1]);
    }
    assert forall|i: int, j: int| 0 <= i < j < records.drop_first().len() implies records.drop_first()[i].relative_path@
        != records.drop_first()[j].relative_path@ by {
        assert(records.drop_first()[i] == records[i + 1]);
        assert(records.drop_first()[j] == records[j + 1]);
    }
}

/// A restore touches only the files its records name.
proof fn lemma_restore_run_frame(
    records: Seq<BackupFileRecord>,
    saved: FileTree,
    tree: FileTree,
    force: bool,
    p: Seq<char>,
)
    requires
        forall|i: int| 0 <= i < records.len() ==> #[trigger] records[i].relative_path@ != p,
    ensures
        same_file(restore_run(records, saved, tree, force).0, tree, p),
    decreases records.len(),
{
    if records.len() > 0 {
        let r = records[0];
        let q = r.relative_path@;
        assert(records[0].relative_path@ != p);
        if !(!force && digest_in(tree, q) != opt_text(r.sha256_after)) {
            let action = restore_action_spec(r.existed_before, tree.dom().contains(q));
            let next = with_file(tree, q, file_after_restore(action, saved[q], file_at(tree, q)));
            assert forall|i: int| 0 <= i < records.drop_first().len() implies #[trigger] records.drop_first()[i].relative_path@
                != p by {
                assert(records.drop_first()[i] == records[i + 1]);
            }
            lemma_restore_run_frame(records.drop_first(), saved, next, force, p);
            assert(same_file(next, tree, p));
        }
    }
}

/// A forced restore of a whole manifest never stops, and leaves every file
/// it records exactly as it was when the backup was taken (holding the
/// bytes it held then, or absent if it was absent), whatever happened to
/// the files since; files it does not record are left alone.
pub proof fn lemma_forced_manifest_restore_is_exact(
    records: Seq<BackupFileRecord>,
    saved: FileTree,
    before: FileTree,
    tree: FileTree,
)
    requires
        distinct_paths(records),
        taken_from(records, saved, before),
    ensures
        !restore_run(records, saved, tree, true).1,
        forall|i: int|
            0 <= i < records.len() ==> same_file(
                restore_run(records, saved, tree, true).0,
                before,
                #[trigger] records[i].relative_path@,
            ),
        forall|p: Seq<char>|
            (forall|i: int| 0 <= i < records.len() ==> #[trigger] records[i].relative_path@ != p)
                ==> same_file(#[trigger] restore_run(records, saved, tree, true).0, tree, p),
    decreases records.len(),
{
    assert forall|p: Seq<char>|
        (forall|i: int| 0 <= i < records.len() ==> #[trigger] records[i].relative_path@ != p)
        implies same_file(#[trigger] restore_run(records, saved, tree, true).0, tree, p) by {
        lemma_restore_run_frame(records, saved, tree, true, p);
    }
    if records.len() > 0 {
        let r = records[0];
        let q = r.relative_path@;
        let action = restore_action_spec(r.existed_before, tree.dom().contains(q));
        let next = with_file(tree, q, file_after_restore(action, saved[q], file_at(tree, q)));
        let rest = records.drop_first();
        lemma_distinct_rest(records);
        assert(taken_from(rest, saved, before)) by {
            assert forall|i: int| 0 <= i < rest.len() implies {
                let p = #[trigger] rest[i].relative_path@;
                &&& rest[i].existed_before == before.dom().contains(p)
                &&& before.dom().contains(p) ==> saved[p] == before[p]
            } by {
                assert(rest[i] == records[i + 1]);
            }
        }
        assert(records[0].relative_path@ == q);
        assert(same_file(next, before, q));
        lemma_forced_manifest_restore_is_exact(rest, saved, before, next);
        lemma_restore_run_frame(rest, saved, next, true, q);
        assert forall|i: int| 0 <= i < records.len() implies same_file(
            restore_run(records, saved, tree, true).0,
            before,
            #[trigger] records[i].relative_path@,
        ) by {
            if i > 0 {
                assert(rest[i - 1] == records[i]);
            }
        }
    }
}

/// Without force, a manifest whose files all still have the digests
/// recorded after the switch is restored just as a forced restore would
/// restore it.
pub proof fn lemma_unchanged_manifest_restores(
    records: Seq<BackupFileRecord>,
    saved: FileTree,
    tree: FileTree,
)
    requires
        distinct_paths(records),
        finalized_in(records, tree),
    ensures
        restore_run(records, saved, tree, false) == restore_run(records, saved, tree, true),
    decreases records.len(),
{
    if records.len() > 0 {
        let r = records[0];
        let q = r.relative_path@;
        assert(opt_text(records[0].sha256_after) == digest_in(tree, records[0].relative_path@));
        let action = restore_action_spec(r.existed_before, tree.dom().contains(q));
        let next = with_file(tree, q, file_after_restore(action, saved[q], file_at(tree, q)));
        let rest = records.drop_first();
        lemma_distinct_rest(records);
        assert forall|i: int| 0 <= i < rest.len() implies opt_text(#[trigger] rest[i].sha256_after)
            == digest_in(next, rest[i].relative_path@) by {
            assert(rest[i] == records[i + 1]);
            assert(opt_text(records[i + 1].sha256_after) == digest_in(
                tree,
                records[i + 1].relative_path@,
            ));
            assert(rest[i].relative_path@ != q);
            assert(same_file(next, tree, rest[i].relative_path@));
        }
        lemma_unchanged_manifest_restores(rest, saved, next);
    }
}

/// Without force, a manifest with a file that no longer has the digest
/// recorded after the switch is not restored to the end: the restore stops
/// on a conflict.
pub proof fn lemma_changed_manifest_conflicts(
    records: Seq<BackupFileRecord>,
    saved: FileTree,
    tree: FileTree,
)
    requires
        distinct_paths(records),
        changed_since(records, tree),
    ensures
        restore_run(records, saved, tree, false).1,
    decreases records.len(),
{
    let k = choose|i: int|
        0 <= i < records.len() && opt_text(#[trigger] records[i].sha256_after) != digest_in(
            tree,
            records[i].relative_path@,
        );
    let r = records[0];
    let q = r.relative_path@;
    if digest_in(tree, q) == opt_text(r.sha256_after) {
        assert(k != 0);
        let action = restore_action_spec(r.existed_before, tree.dom().contains(q));
        let next = with_file(tree, q, file_after_restore(action, saved[q], file_at(tree, q)));
        let rest = records.drop_first();
        lemma_distinct_rest(records);
        assert(rest[k - 1] == records[k]);
        assert(rest[k - 1].relative_path@ != q);
        assert(same_file(next, tree, rest[k - 1].relative_path@));
        assert(opt_text(rest[k - 1].sha256_after) != digest_in(next, rest[k - 1].relative_path@));
        lemma_changed_manifest_conflicts(rest, saved, next);
    }
}

/// What was seen of each record's file before restoring: whether it exists,
/// and its digest when the restore is not forced.
pub open spec fn observed_view(observed: Seq<(bool, Option<String>)>) -> Seq<(bool, Option<Seq<char>>)> {
    observed.map_values(|o: (bool, Option<String>)| (o.0, opt_text(o.1)))
}

/// The plan of a manifest's restore: for records in order, the action that
/// `restore_step` decides, up to the first conflict; `stopped` when there
/// was one, which is then the record right after the planned ones.
pub open spec fn restore_plan_spec(
    records: Seq<BackupFileRecord>,
    observed: Seq<(bool, Option<Seq<char>>)>,
    force: bool,
    actions: Seq<RestoreAction>,
    stopped: bool,
) -> bool {
    &&& actions.len() <= records.len()
    &&& forall|i: int|
        0 <= i < actions.len() ==> (force || observed[i].1 == opt_text(records[i].sha256_after))
            && #[trigger] actions[i] == restore_action_spec(records[i].existed_before, observed[i].0)
    &&& stopped <==> actions.len() < records.len()
    &&& stopped ==> !force && observed[actions.len() as int].1 != opt_text(
        records[actions.len() as int].sha256_after,
    )
}

/// Plans the restore of a manifest's records from what was seen of their
/// files: the actions in order up to the first conflict, and that
/// conflict's error. Each step is `restore_step`'s decision.
pub fn restore_plan(
    records: &Vec<BackupFileRecord>,
    observed: &Vec<(bool, Option<String>)>,
    force: bool,
) -> (out: (Vec<RestoreAction>, Option<ApiError>))
    requires
        observed.len() == records.len(),
    ensures
        restore_plan_spec(records@, observed_view(observed@), force, out.0@, out.1 is Some),
        out.1 matches Some(e) ==> e@ == error_spec(
            BACKUP_CONFLICT@,
            CONFLICT_PREFIX@ + records@[out.0@.len() as int].relative_path@ + CONFLICT_SUFFIX@,
        ),
{
    let mut actions: Vec<RestoreAction> = Vec::new();
    let mut i: usize = 0;
    while i < records.len()
        invariant
            i <= records.len(),
            observed.len() == records.len(),
            actions@.len() == i,
            forall|k: int|
                0 <= k < i ==> (force || observed_view(observed@)[k].1 == opt_text(
                    records@[k].sha256_after,
                )) && #[trigger] actions@[k] == restore_action_spec(
                    records@[k].existed_before,
                    observed_view(observed@)[k].0,
                ),
        decreases records.len() - i,
    {
        let seen = observed[i].0;
        let digest = match &observed[i].1 {
            Some(d) => Some(copy_str(d.as_str())),
            None => None,
        };
        assert(observed_view(observed@)[i as int] == (observed@[i as int].0, opt_text(observed@[i as int].1)));
        match restore_step(&records[i], seen, digest, force) {
            Ok(action) => {
                actions.push(action);
            },
            Err(e) => {
                return (actions, Some(e));
            },
        }
        i = i + 1;
    }
    (actions, None)
}

/// The tree after the planned actions are carried out in order.
pub open spec fn apply_actions(
    records: Seq<BackupFileRecord>,
    actions: Seq<RestoreAction>,
    saved: FileTree,
    tree: FileTree,
) -> FileTree
    decreases actions.len(),
{
    if actions.len() == 0 || records.len() == 0 {
        tree
    } else {
        let p = records[0].relative_path@;
        let next = with_file(tree, p, file_after_restore(actions[0], saved[p], file_at(tree, p)));
        apply_actions(records.drop_first(), actions.drop_first(), saved, next)
    }
}

/// What was seen agrees with the files of `tree`: whether each exists and,
/// unless the restore is forced, its digest.
pub open spec fn seen_in(
    records: Seq<BackupFileRecord>,
    observed: Seq<(bool, Option<Seq<char>>)>,
    tree: FileTree,
    force: bool,
) -> bool {
    &&& observed.len() == records.len()
    &&& forall|i: int|
        0 <= i < records.len() ==> {
            &&& #[trigger] observed[i].0 == tree.dom().contains(records[i].relative_path@)
            &&& !force ==> observed[i].1 == digest_in(tree, records[i].relative_path@)
        }
}

/// Carrying out a plan made from what was seen of a tree gives the restore
/// of the manifest on that tree: the same files, and it stops on a conflict
/// exactly when that restore does.
pub proof fn lemma_plan_is_the_restore(
    records: Seq<BackupFileRecord>,
    observed: Seq<(bool, Option<Seq<char>>)>,
    saved: FileTree,
    tree: FileTree,
    force: bool,
    actions: Seq<RestoreAction>,
    stopped: bool,
)
    requires
        distinct_paths(records),
        seen_in(records, observed, tree, force),
        restore_plan_spec(records, observed, force, actions, stopped),
    ensures
        apply_actions(records, actions, saved, tree) == restore_run(records, saved, tree, force).0,
        stopped == restore_run(records, saved, tree, force).1,
    decreases records.len(),
{
    if records.len() > 0 {
        let r = records[0];
        let q = r.relative_path@;
        assert(observed[0].0 == tree.dom().contains(records[0].relative_path@));
        if actions.len() == 0 {
            assert(stopped);
        } else {
            assert(actions[0] == restore_action_spec(records[0].existed_before, observed[0].0));
            let next = with_file(tree, q, file_after_restore(actions[0], saved[q], file_at(tree, q)));
            let rest = records.drop_first();
            lemma_distinct_rest(records);
            let obs = observed.drop_first();
            let acts = actions.drop_first();
            assert forall|i: int| 0 <= i < rest.len() implies {
                &&& #[trigger] obs[i].0 == next.dom().contains(rest[i].relative_path@)
                &&& !force ==> obs[i].1 == digest_in(next, rest[i].relative_path@)
            } by {
                assert(rest[i] == records[i + 1]);
                assert(obs[i] == observed[i + 1]);
                assert(observed[i + 1].0 == tree.dom().contains(records[i + 1].relative_path@));
                assert(rest[i].relative_path@ != q);
                assert(same_file(next, tree, rest[i].relative_path@));
            }
            assert forall|i: int| 0 <= i < acts.len() implies (force || obs[i].1 == opt_text(
                rest[i].sha256_after,
            )) && #[trigger] acts[i] == restore_action_spec(rest[i].existed_before, obs[i].0) by {
                assert(acts[i] == actions[i + 1]);
                assert(rest[i] == records[i + 1]);
                assert(obs[i] == observed[i + 1]);
            }
            if stopped {
                assert(obs[acts.len() as int] == observed[actions.len() as int]);
                assert(rest[acts.len() as int] == records[actions.len() as int]);
            }
            lemma_plan_is_the_restore(rest, obs, saved, next, force, acts, stopped);
        }
    }
}

/// The paths of `s` in order, each kept where it first occurs.
pub open spec fn first_occurrences(s: Seq<Seq<char>>) -> Seq<Seq<char>>
    decreases s.len(),
{
    if s.len() == 0 {
        Seq::empty()
    } else {
        pushed_unique(first_occurrences(s.drop_last()), s.last())
    }
}

/// Keeping first occurrences lists every path once and no other path.
pub proof fn lemma_first_occurrences(s: Seq<Seq<char>>)
    ensures
        first_occurrences(s).no_duplicates(),
        forall|x: Seq<char>| first_occurrences(s).contains(x) <==> s.contains(x),
    decreases s.len(),
{
    if s.len() > 0 {
        let init = s.drop_last();
        lemma_first_occurrences(init);
        lemma_pushed_unique_distinct(first_occurrences(init), s.last());
        let f = first_occurrences(init);
        let l = s.last();
        assert(s =~= init.push(l));
        assert forall|x: Seq<char>| first_occurrences(s).contains(x) <==> s.contains(x) by {
            assert(s.contains(x) <==> (init.contains(x) || x == l)) by {
                if s.contains(x) {
                    let k = choose|k: int| 0 <= k < s.len() && s[k] == x;
                    if k < init.len() {
                        assert(init[k] == x);
                    }
                }
                if init.contains(x) {
                    let k = choose|k: int| 0 <= k < init.len() && init[k] == x;
                    assert(s[k] == x);
                }
                if x == l {
                    assert(s[s.len() - 1] == x);
                }
            }
            if !f.contains(l) {
                assert(f.push(l).contains(x) <==> (f.contains(x) || x == l)) by {
                    if f.push(l).contains(x) {
                        let k = choose|k: int| 0 <= k < f.push(l).len() && f.push(l)[k] == x;
                        if k < f.len() {
                            assert(f[k] == x);
                        }
                    }
                    if f.contains(x) {
                        let k = choose|k: int| 0 <= k < f.len() && f[k] == x;
                        assert(f.push(l)[k] == x);
                    }
                    if x == l {
                        assert(f.push(l)[f.len() as int] == x);
                    }
                }
            }
        }
    }
}

/// The files a backup records, from the paths that it targets: each path
/// once, in the order of first occurrence.
pub fn unique_paths(paths: &Vec<String>) -> (out: Vec<String>)
    ensures
        strings_view(out@) == first_occurrences(strings_view(paths@)),
        strings_view(out@).no_duplicates(),
        forall|x: Seq<char>| strings_view(out@).contains(x) <==> strings_view(paths@).contains(x),
{
    let mut out: Vec<String> = Vec::new();
    let mut i: usize = 0;
    while i < paths.len()
        invariant
            i <= paths.len(),
            strings_view(out@) == first_occurrences(strings_view(paths@).take(i as int)),
        decreases paths.len() - i,
    {
        assert(strings_view(paths@).take(i + 1).drop_last() =~= strings_view(paths@).take(i as int));
        assert(strings_view(paths@).take(i + 1).last() == paths@[i as int]@);
        push_unique(&mut out, copy_str(paths[i].as_str()));
        i = i + 1;
    }
    assert(strings_view(paths@).take(paths.len() as int) =~= strings_view(paths@));
    proof {
        lemma_first_occurrences(strings_view(paths@));
    }
    out
}

pub const BACKUP_ID_INVALID: &'static str = "backup_id_invalid";

pub const BACKUP_ID_INVALID_MSG: &'static str = "备份 ID 无效。";

/// A backup ID names one directory directly under the backup root.
pub open spec fn backup_id_ok(id: Seq<char>) -> bool {
    !contains(id, "/"@) && !contains(id, "\\"@) && !contains(id, ".."@)
}

pub fn check_backup_id(backup_id: &str) -> (out: ApiResult<()>)
    ensures
        out is Ok <==> backup_id_ok(backup_id@),
        out matches Err(e) ==> e@ == error_spec(BACKUP_ID_INVALID@, BACKUP_ID_INVALID_MSG@),
{
    if contains_str(backup_id, "/") || contains_str(backup_id, "\\") || contains_str(backup_id, "..") {
        return Err(ApiError::new(BACKUP_ID_INVALID, BACKUP_ID_INVALID_MSG));
    }
    Ok(())
}

/// The summary of a manifest in the backup list.
pub fn summarize(manifest: BackupManifest) -> (out: BackupSummary)
    ensures
        out.id == manifest.id,
        out.created_at_utc == manifest.created_at_utc,
        out.kind == manifest.kind,
        out.profile_name == manifest.profile_name,
        out.status == manifest.status,
        out.file_count == manifest.files@.len(),
{
    let file_count = manifest.files.len();
    BackupSummary {
        id: manifest.id,
        created_at_utc: manifest.created_at_utc,
        kind: manifest.kind,
        profile_name: manifest.profile_name,
        status: manifest.status,
        file_count,
    }
}

/// Index of the first summary at or after `i` that is older than `t`.
pub open spec fn first_older(s: Seq<BackupSummary>, t: i64, i: int) -> int
    decreases s.len() - i,
{
    if i < 0 || i >= s.len() {
        s.len() as int
    } else if s[i].created_at_utc < t {
        i
    } else {
        first_older(s, t, i + 1)
    }
}

pub proof fn lemma_first_older(s: Seq<BackupSummary>, t: i64, i: int)
    requires
        0 <= i <= s.len(),
    ensures
        i <= first_older(s, t, i) <= s.len(),
        forall|k: int| i <= k < first_older(s, t, i) ==> (#[trigger] s[k]).created_at_utc >= t,
        first_older(s, t, i) < s.len() ==> s[first_older(s, t, i)].created_at_utc < t,
    decreases s.len() - i,
{
    if i < s.len() && s[i].created_at_utc >= t {
        lemma_first_older(s, t, i + 1);
    }
}

/// Stable sort, newest first (the order of `sort_by` on the reversed
/// creation time).
pub open spec fn newest_first(s: Seq<BackupSummary>) -> Seq<BackupSummary>
    decreases s.len(),
{
    if s.len() == 0 {
        Seq::empty()
    } else {
        let sorted = newest_first(s.drop_last());
        sorted.insert(first_older(sorted, s.last().created_at_utc, 0), s.last())
    }
}

pub proof fn lemma_newest_first_len(s: Seq<BackupSummary>)
    ensures
        newest_first(s).len() == s.len(),
    decreases s.len(),
{
    if s.len() > 0 {
        lemma_newest_first_len(s.drop_last());
        lemma_first_older(newest_first(s.drop_last()), s.last().created_at_utc, 0);
    }
}

/// The backups newest first; backups of the same time keep their order.
pub fn sort_newest_first(backups: Vec<BackupSummary>) -> (out: Vec<BackupSummary>)
    ensures
        out@ == newest_first(backups@),
{
    let mut sorted: Vec<BackupSummary> = Vec::new();
    let mut rest = backups;
    let ghost all = rest@;
    let mut reversed: Vec<BackupSummary> = Vec::new();
    while rest.len() > 0
        invariant
            rest@ + reversed@.reverse() == all,
        decreases rest.len(),
    {
        let ghost before = rest@;
        let x = rest.pop().unwrap();
        reversed.push(x);
        assert(before =~= rest@.push(x));
        assert(rest@ + reversed@.reverse() =~= all);
    }
    assert(reversed@.reverse() =~= all);
    let n = reversed.len();
    while reversed.len() > 0
        invariant
            reversed@.len() <= n,
            n == all.len(),
            reversed@.reverse() == all.skip(n - reversed@.len()),
            sorted@ == newest_first(all.take(n - reversed@.len())),
        decreases reversed.len(),
    {
        let ghost before = reversed@;
        let x = reversed.pop().unwrap();
        let ghost k = n - before.len();
        assert(before =~= reversed@.push(x));
        assert(before.reverse()[0] == x);
        assert(all.skip(k)[0] == all[k]);
        assert(all[k] == x);
        assert(all.take(k + 1).drop_last() =~= all.take(k));
        assert(reversed@.reverse() =~= before.reverse().drop_first());
        assert(all.skip(k + 1) =~= all.skip(k).drop_first());
        let mut p: usize = 0;
        while p < sorted.len()
            invariant
                p <= sorted.len(),
                first_older(sorted@, x.created_at_utc, 0) == first_older(
                    sorted@,
                    x.created_at_utc,
                    p as int,
                ),
            ensures
                p <= sorted.len(),
                first_older(sorted@, x.created_at_utc, 0) == p,
            decreases sorted.len() - p,
        {
            if sorted[p].created_at_utc < x.created_at_utc {
                break;
            }
            p = p + 1;
        }
        sorted.insert(p, x);
    }
    assert(all.take(n as int) =~= all);
    sorted
}

/// The newest `max(keep, 1)` backups stay; the IDs of the others are
/// returned.
pub fn backups_to_prune(backups: &Vec<BackupSummary>, keep: usize) -> (out: Vec<String>)
    ensures
        ({
            let k = if keep < 1 {
                1
            } else {
                keep as int
            };
            &&& out@.len() == if backups@.len() > k {
                backups@.len() - k
            } else {
                0
            }
            &&& forall|i: int| 0 <= i < out@.len() ==> (#[trigger] out@[i])@ == backups@[k + i].id@
        }),
{
    let k: usize = if keep < 1 {
        1
    } else {
        keep
    };
    let mut out: Vec<String> = Vec::new();
    let mut i: usize = k;
    while i < backups.len()
        invariant
            i == k || (k < i <= backups.len()),
            k >= 1,
            k as int == if keep < 1 {
                1
            } else {
                keep as int
            },
            out@.len() == if i > k {
                i - k
            } else {
                0
            },
            forall|j: int| 0 <= j < out@.len() ==> (#[trigger] out@[j])@ == backups@[k + j].id@,
        decreases backups.len() - i,
    {
        out.push(copy_str(backups[i].id.as_str()));
        i = i + 1;
    }
    out
}


/// No backup is followed by a newer one.
pub open spec fn sorted_newest_first(s: Seq<BackupSummary>) -> bool {
    forall|i: int, j: int| 0 <= i < j < s.len() ==> s[j].created_at_utc <= s[i].created_at_utc
}

/// The backup list is ordered newest first and holds exactly the listed
/// backups.
pub proof fn lemma_newest_first(s: Seq<BackupSummary>)
    ensures
        sorted_newest_first(newest_first(s)),
        newest_first(s).to_multiset() == s.to_multiset(),
    decreases s.len(),
{
    broadcast use vstd::seq_lib::to_multiset_insert, vstd::seq_lib::to_multiset_build;

    if s.len() == 0 {
        assert(newest_first(s) =~= s);
    } else {
        let prev = newest_first(s.drop_last());
        let x = s.last();
        lemma_newest_first(s.drop_last());
        lemma_newest_first_len(s.drop_last());
        lemma_first_older(prev, x.created_at_utc, 0);
        let p = first_older(prev, x.created_at_utc, 0);
        let t = prev.insert(p, x);
        assert forall|i: int, j: int| 0 <= i < j < t.len() implies t[j].created_at_utc
            <= t[i].created_at_utc by {
            if j < p {
                assert(t[i] == prev[i] && t[j] == prev[j]);
            } else if j == p {
                assert(t[i] == prev[i]);
            } else if i == p {
                assert(t[j] == prev[j - 1]);
            } else if i < p {
                assert(t[i] == prev[i] && t[j] == prev[j - 1]);
            } else {
                assert(t[i] == prev[i - 1] && t[j] == prev[j - 1]);
            }
        }
        assert(s =~= s.drop_last().push(x));
    }
}

/// The files under CODEX_HOME that every backup covers, besides the
/// session files: the configuration, the authentication, the shared catalog,
/// Codex's state database with its journal files, and the catalogs of the
/// provider switched to and of the one active before, each listed once.
pub open spec fn backup_targets_spec(
    provider: Option<Seq<char>>,
    previous: Option<Seq<char>>,
) -> Seq<Seq<char>> {
    let fixed = seq![
        "config.toml"@,
        "auth.json"@,
        SHARED_CATALOG_RELATIVE_PATH@,
        "state_5.sqlite"@,
        "state_5.sqlite-wal"@,
        "state_5.sqlite-shm"@,
    ];
    let with_provider = match provider {
        Some(p) => pushed_unique(fixed, catalog_path_spec(p)),
        None => fixed,
    };
    match previous {
        Some(q) => pushed_unique(with_provider, catalog_path_spec(q)),
        None => with_provider,
    }
}

/// The fixed backup targets are distinct texts.
proof fn lemma_fixed_targets_distinct()
    ensures
        seq![
            "config.toml"@,
            "auth.json"@,
            SHARED_CATALOG_RELATIVE_PATH@,
            "state_5.sqlite"@,
            "state_5.sqlite-wal"@,
            "state_5.sqlite-shm"@,
        ].no_duplicates(),
{
    reveal_strlit("config.toml");
    reveal_strlit("auth.json");
    reveal_strlit("model-catalogs/codex-api-switcher.json");
    reveal_strlit("state_5.sqlite");
    reveal_strlit("state_5.sqlite-wal");
    reveal_strlit("state_5.sqlite-shm");
    assert("state_5.sqlite-wal"@[15] != "state_5.sqlite-shm"@[15]);
    let s = seq![
        "config.toml"@,
        "auth.json"@,
        SHARED_CATALOG_RELATIVE_PATH@,
        "state_5.sqlite"@,
        "state_5.sqlite-wal"@,
        "state_5.sqlite-shm"@,
    ];
    assert forall|a: int, b: int| 0 <= a < s.len() && 0 <= b < s.len() && a != b implies s[a]
        != s[b] by {
        if s[a] == s[b] {
            assert(s[a].len() == s[b].len());
            if (a == 4 && b == 5) || (a == 5 && b == 4) {
                assert(s[a][15] == s[b][15]);
            }
        }
    }
}

pub fn backup_targets(provider: Option<&str>, previous: Option<&str>) -> (out: Vec<String>)
    ensures
        strings_view(out@) == backup_targets_spec(opt_str_text(provider), opt_str_text(previous)),
        strings_view(out@).no_duplicates(),
{
    let mut out: Vec<String> = Vec::new();
    out.push(copy_str("config.toml"));
    out.push(copy_str("auth.json"));
    out.push(copy_str(SHARED_CATALOG_RELATIVE_PATH));
    out.push(copy_str("state_5.sqlite"));
    out.push(copy_str("state_5.sqlite-wal"));
    out.push(copy_str("state_5.sqlite-shm"));
    let ghost fixed = seq![
        "config.toml"@,
        "auth.json"@,
        SHARED_CATALOG_RELATIVE_PATH@,
        "state_5.sqlite"@,
        "state_5.sqlite-wal"@,
        "state_5.sqlite-shm"@,
    ];
    proof {
        assert(strings_view(out@) =~= fixed);
        lemma_fixed_targets_distinct();
    }
    if let Some(p) = provider {
        proof {
            lemma_pushed_unique_distinct(strings_view(out@), catalog_path_spec(p@));
        }
        push_unique(&mut out, catalog_relative_path(p));
    }
    if let Some(q) = previous {
        proof {
            lemma_pushed_unique_distinct(strings_view(out@), catalog_path_spec(q@));
        }
        push_unique(&mut out, catalog_relative_path(q));
    }
    out
}

/// A backup's ID: the time stamp, a hyphen and the first eight characters
/// of a random token.
pub fn backup_id(stamp: &str, token: &str) -> (out: String)
    requires
        token@.len() >= 8,
    ensures
        out@ == stamp@ + "-"@ + token@.take(8),
{
    let mut out = copy_str(stamp);
    out.push('-');
    proof {
        reveal_strlit("-");
        assert(token@.take(0) =~= Seq::<char>::empty());
        assert(out@ =~= stamp@ + "-"@ + token@.take(0));
    }
    let chars: Vec<char> = crate::text::chars_of(token);
    let mut i: usize = 0;
    while i < 8
        invariant
            i <= 8,
            chars@ == token@,
            token@.len() >= 8,
            out@ == stamp@ + "-"@ + token@.take(i as int),
        decreases 8 - i,
    {
        out.push(chars[i]);
        i = i + 1;
        assert(token@.take(i as int) =~= token@.take(i - 1).push(token@[i - 1]));
    }
    out
}

/// A string of time-stamp characters and hexadecimal digits names no other
/// directory than one under the backup root.
proof fn lemma_stamp_and_hex_id_ok(id: Seq<char>)
    requires
        forall|i: int| 0 <= i < id.len() ==> stamp_char(#[trigger] id[i]) || lower_hex_char(id[i]),
    ensures
        backup_id_ok(id),
{
    reveal_strlit("/");
    reveal_strlit("\\");
    reveal_strlit("..");
    assert forall|i: int| !occurs_at(id, "/"@, i) && !occurs_at(id, "\\"@, i) && !occurs_at(
        id,
        ".."@,
        i,
    ) by {
        if 0 <= i < id.len() {
            assert(stamp_char(id[i]) || lower_hex_char(id[i]));
        }
        if occurs_at(id, "/"@, i) {
            assert(id.subrange(i, i + 1)[0] == id[i]);
        }
        if occurs_at(id, "\\"@, i) {
            assert(id.subrange(i, i + 1)[0] == id[i]);
        }
        if occurs_at(id, ".."@, i) {
            assert(id.subrange(i, i + 2)[0] == id[i]);
        }
    }
}

/// A new backup's ID, from the time of the call and a random token; the
/// library's ID check accepts every ID it makes.
pub fn new_backup_id() -> (out: String)
    ensures
        exists|stamp: Seq<char>, token: Seq<char>|
            token.len() == 32 && #[trigger] (stamp + "-"@ + token.take(8)) == out@,
        backup_id_ok(out@),
{
    let stamp = utc_now_formatted(COMPACT_STAMP_FORMAT);
    let token = random_uuid_simple();
    let out = backup_id(stamp.as_str(), token.as_str());
    assert(token@.len() == 32 && (stamp@ + "-"@ + token@.take(8)) == out@);
    proof {
        reveal_strlit("-");
        let n = stamp@.len() as int;
        assert forall|i: int| 0 <= i < out@.len() implies stamp_char(#[trigger] out@[i])
            || lower_hex_char(out@[i]) by {
            if i < n {
                assert(out@[i] == stamp@[i]);
            } else if i == n {
                assert(out@[i] == '-');
            } else {
                assert(out@[i] == token@[i - n - 1]);
            }
        }
        lemma_stamp_and_hex_id_ok(out@);
    }
    out
}

/// How a file under CODEX_HOME is listed in a manifest: its relative path
/// with forward slashes, whether it existed and, if so, its digest; the
/// digest after the switch is filled in later.
pub fn backup_record(relative: &str, existed: bool, digest: Option<String>) -> (out: BackupFileRecord)
    ensures
        out.relative_path@ == replace_char(relative@, '\\', '/'),
        out.existed_before == existed,
        out.sha256_before == (if existed { digest } else { None::<String> }),
        out.sha256_after is None,
{
    BackupFileRecord {
        relative_path: replace_char_str(relative, '\\', '/'),
        existed_before: existed,
        sha256_before: if existed { digest } else { None },
        sha256_after: None,
    }
}

pub const IN_PROGRESS_STATUS: &'static str = "inProgress";

/// The status of a backup whose transaction committed.
pub const COMPLETE_STATUS: &'static str = "complete";

/// The manifest of a backup that has just been taken: in progress, for the
/// given profile, created at the time of the call, with CODEX_HOME as text.
pub fn in_progress_manifest(
    id: String,
    kind: &str,
    profile: Option<&StoredProviderProfile>,
    codex_home: &std::path::Path,
    files: Vec<BackupFileRecord>,
) -> (out: BackupManifest)
    ensures
        out.id == id,
        out.kind@ == kind@,
        opt_text(out.profile_id) == (match profile {
            Some(p) => Some(p.id@),
            None => None,
        }),
        opt_text(out.profile_name) == (match profile {
            Some(p) => Some(p.name@),
            None => None,
        }),
        out.status@ == IN_PROGRESS_STATUS@,
        out.files == files,
{
    BackupManifest {
        id,
        created_at_utc: utc_now_nanos(),
        kind: copy_str(kind),
        profile_id: match profile {
            Some(p) => Some(copy_str(p.id.as_str())),
            None => None,
        },
        profile_name: match profile {
            Some(p) => Some(copy_str(p.name.as_str())),
            None => None,
        },
        codex_home: path_to_string(codex_home),
        status: copy_str(IN_PROGRESS_STATUS),
        files,
    }
}

} // verus!
