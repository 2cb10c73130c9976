//! The profile database: normalisation on load, and the edits that the
//! commands make to it.

use vstd::prelude::*;

use crate::fresh::{hyphenated_uuid, lower_hex_char, random_uuid, utc_now_nanos};
use crate::path_utils::{as_opt_str, normalize_optional_value, normalized_optional};
use crate::paths::AppPaths;
use crate::profiles::models::{
    CURRENT_MIGRATION_VERSION, CodexProfile, CodexProfileSpec, DEFAULT_APIKEY_PROVIDER_NAME,
    ProfileDatabase, codex_profiles_view, copy_opt_text,
};
use crate::profiles::{AppError, AppResult, dto_spec, validation_spec};
use crate::text::{copy_str, lemma_trim_idempotent, opt_text, push_str, same_text, trim, trim_str};

verus! {

/// The simple form (32 lowercase hexadecimal digits) of the UUID that
/// `uuid::Uuid::parse_str` reads in the text, or `None` when it reads none.
pub uninterp spec fn uuid_simple_of(text: Seq<char>) -> Option<Seq<char>>;

/// `uuid::Uuid::parse_str(text)` written in its simple form. The contract
/// claims that the result is the named function of the text, and that a
/// simple form is 32 lowercase hexadecimal digits (`encode_lower`).
#[verifier::external_body]
fn parse_uuid_simple(text: &str) -> (out: Option<String>)
    ensures
        opt_text(out) == uuid_simple_of(text@),
        out matches Some(s) ==> s@.len() == 32 && forall|i: int|
            0 <= i < 32 ==> lower_hex_char(#[trigger] s@[i]),
{
    uuid::Uuid::parse_str(text).ok().map(|id| id.simple().to_string())
}

/// A new profile's ID: a random UUID in the hyphenated form.
pub fn new_profile_id() -> (out: String)
    ensures
        hyphenated_uuid(out@),
{
    random_uuid()
}

/// The name of a profile's directory under the profiles root: its ID in the
/// simple UUID form; an ID that is no UUID is used as it is.
pub fn profile_directory_name(profile_id: &str) -> (out: String)
    ensures
        out@ == (match uuid_simple_of(profile_id@) {
            Some(simple) => simple,
            None => profile_id@,
        }),
{
    match parse_uuid_simple(profile_id) {
        Some(simple) => simple,
        None => copy_str(profile_id),
    }
}

pub const PROFILE_NOT_FOUND: &'static str = "profile_not_found";

pub const NOT_FOUND_EDIT_MSG: &'static str = "未找到要编辑的组合。";

pub const NOT_FOUND_UPDATE_MSG: &'static str = "未找到要更新的组合。";

pub const NOT_FOUND_DISABLE_MSG: &'static str = "未找到要禁用的组合。";

pub const NOT_FOUND_DUPLICATE_MSG: &'static str = "未找到要复制的组合。";

pub const PROFILE_NAME_MISSING: &'static str = "profile_name_missing";

pub const PROFILE_NAME_MISSING_MSG: &'static str = "请输入名称。";

pub const MANUAL_DISABLE_REASON: &'static str = "手动标记为禁用。";

pub const COPY_SUFFIX: &'static str = " 副本";

/// Loads, saves and edits the profile database and the profiles' files.
pub struct ProfileStore<'a> {
    pub paths: &'a AppPaths,
}

/// The parts of the database that normalisation looks at.
pub struct NormalizedFields {
    pub replace_windows_target: bool,
    pub replace_wsl_target: bool,
    pub api_key_provider_name: Seq<char>,
    pub migration_version: u32,
    pub profiles: Seq<CodexProfileSpec>,
}

pub open spec fn fields_of(db: ProfileDatabase) -> NormalizedFields {
    NormalizedFields {
        replace_windows_target: db.replace_windows_target,
        replace_wsl_target: db.replace_wsl_target,
        api_key_provider_name: db.api_key_provider_name@,
        migration_version: db.migration_version,
        profiles: codex_profiles_view(db.profiles@),
    }
}

/// A profile's disable reason trimmed (a blank one dropped); a profile that
/// is not disabled keeps neither a reason nor a time.
pub open spec fn normalized_profile(p: CodexProfileSpec) -> CodexProfileSpec {
    let reason = normalized_optional(p.auto_disabled_reason);
    if !p.auto_disabled && (reason is Some || p.auto_disabled_at_utc is Some) {
        CodexProfileSpec { auto_disabled_reason: None, auto_disabled_at_utc: None, ..p }
    } else {
        CodexProfileSpec { auto_disabled_reason: reason, ..p }
    }
}

/// The API-key provider name trimmed, or `apikey` when it is blank.
pub open spec fn provider_name_spec(name: Seq<char>) -> Seq<char> {
    match normalized_optional(Some(name)) {
        Some(n) => n,
        None => DEFAULT_APIKEY_PROVIDER_NAME@,
    }
}

/// The normal form of the database: at least one target (Windows when none
/// is chosen), a provider name, the current migration version, and
/// normalised profiles.
pub open spec fn normalize_fields(f: NormalizedFields) -> NormalizedFields {
    NormalizedFields {
        replace_windows_target: f.replace_windows_target || !f.replace_wsl_target,
        replace_wsl_target: f.replace_wsl_target,
        api_key_provider_name: provider_name_spec(f.api_key_provider_name),
        migration_version: CURRENT_MIGRATION_VERSION,
        profiles: f.profiles.map_values(|p: CodexProfileSpec| normalized_profile(p)),
    }
}

/// Whether normalising changes anything.
pub open spec fn needs_normalizing(f: NormalizedFields) -> bool {
    normalize_fields(f) != f
}

/// The fields that normalisation leaves alone are equal.
pub open spec fn same_other_fields(a: ProfileDatabase, b: ProfileDatabase) -> bool {
    &&& a.last_selected_profile_id == b.last_selected_profile_id
    &&& a.wsl_distro_name == b.wsl_distro_name
    &&& a.wsl_user_name == b.wsl_user_name
    &&& a.cached_default_wsl_distro_name == b.cached_default_wsl_distro_name
    &&& a.cached_default_wsl_user_name == b.cached_default_wsl_user_name
    &&& a.cached_default_wsl_home_directory == b.cached_default_wsl_home_directory
    &&& a.cached_default_wsl_detected_at_utc == b.cached_default_wsl_detected_at_utc
    &&& a.cached_default_wsl_error_message == b.cached_default_wsl_error_message
    &&& a.cached_default_wsl_error_at_utc == b.cached_default_wsl_error_at_utc
    &&& a.session_migration_days == b.session_migration_days
    &&& a.ui_preferences == b.ui_preferences
    &&& a.last_switch_summary == b.last_switch_summary
}

pub fn validate_profile_name(name: &str) -> (out: AppResult<()>)
    ensures
        out is Ok <==> trim(name@).len() > 0,
        out matches Err(e) ==> dto_spec(e) == validation_spec(
            PROFILE_NAME_MISSING@,
            PROFILE_NAME_MISSING_MSG@,
        ),
{
    let t = trim_str(name);
    if t.as_str().is_empty() {
        return Err(AppError::validation(PROFILE_NAME_MISSING, PROFILE_NAME_MISSING_MSG));
    }
    Ok(())
}

fn opt_text_eq(a: &Option<String>, b: &Option<String>) -> (out: bool)
    ensures
        out == (opt_text(*a) == opt_text(*b)),
{
    match (a, b) {
        (Some(x), Some(y)) => {
            let x2 = copy_str(x.as_str());
            let y2 = copy_str(y.as_str());
            x2 == y2
        },
        (None, None) => true,
        _ => false,
    }
}


/// A copy of a profile.
pub fn copy_profile(p: &CodexProfile) -> (out: CodexProfile)
    ensures
        out@ == p@,
{
    CodexProfile {
        id: copy_str(p.id.as_str()),
        name: copy_str(p.name.as_str()),
        base_url: copy_str(p.base_url.as_str()),
        test_model: copy_opt_text(&p.test_model),
        auto_disabled: p.auto_disabled,
        auto_disabled_reason: copy_opt_text(&p.auto_disabled_reason),
        auto_disabled_at_utc: p.auto_disabled_at_utc,
        provider_category: p.provider_category,
        auth_mode: p.auth_mode,
        stored_auth_json_path: copy_opt_text(&p.stored_auth_json_path),
        protected_api_key_base64: copy_opt_text(&p.protected_api_key_base64),
        stored_config_toml_path: copy_opt_text(&p.stored_config_toml_path),
        created_at_utc: p.created_at_utc,
        updated_at_utc: p.updated_at_utc,
    }
}

/// The normalised form of one profile, and whether it differs.
fn normalize_profile(p: &CodexProfile) -> (out: (CodexProfile, bool))
    ensures
        out.0@ == normalized_profile(p@),
        out.1 == (normalized_profile(p@) != p@),
{
    let mut q = copy_profile(p);
    let reason = normalize_optional_value(as_opt_str(&p.auto_disabled_reason));
    let reason_changed = !opt_text_eq(&reason, &p.auto_disabled_reason);
    let clear = !p.auto_disabled && (reason.is_some() || p.auto_disabled_at_utc.is_some());
    if clear {
        q.auto_disabled_reason = None;
        q.auto_disabled_at_utc = None;
    } else {
        q.auto_disabled_reason = reason;
    }
    proof {
        if clear {
            if normalized_optional(p@.auto_disabled_reason) is Some {
                assert(p@.auto_disabled_reason is Some);
                assert(q@.auto_disabled_reason != p@.auto_disabled_reason);
            } else {
                assert(q@.auto_disabled_at_utc != p@.auto_disabled_at_utc);
            }
        } else if reason_changed {
            assert(q@.auto_disabled_reason != p@.auto_disabled_reason);
        } else {
            assert(q@ == p@);
        }
    }
    (q, reason_changed || clear)
}

/// Whether two profile views differ somewhere below `i`.
pub open spec fn differs_below(a: Seq<CodexProfileSpec>, b: Seq<CodexProfileSpec>, i: int) -> bool {
    exists|k: int| 0 <= k < i && a[k] != b[k]
}

impl<'a> ProfileStore<'a> {
    pub fn new(paths: &'a AppPaths) -> (out: Self)
        ensures
            out.paths == paths,
    {
        ProfileStore { paths }
    }

    /// Brings a loaded database to its normal form and says whether anything
    /// changed (so that it must be saved).
    pub fn normalize_database(&self, database: &mut ProfileDatabase) -> (changed: bool)
        ensures
            fields_of(*final(database)) == normalize_fields(fields_of(*old(database))),
            changed == needs_normalizing(fields_of(*old(database))),
            same_other_fields(*final(database), *old(database)),
    {
        let ghost before = *database;
        let mut changed = false;
        if !database.replace_windows_target && !database.replace_wsl_target {
            database.replace_windows_target = true;
            changed = true;
        }
        let normalized_name = match normalize_optional_value(Some(database.api_key_provider_name.as_str())) {
            Some(n) => n,
            None => copy_str(DEFAULT_APIKEY_PROVIDER_NAME),
        };
        if !same_text(database.api_key_provider_name.as_str(), normalized_name.as_str()) {
            database.api_key_provider_name = normalized_name;
            changed = true;
        }
        if database.migration_version != CURRENT_MIGRATION_VERSION {
            database.migration_version = CURRENT_MIGRATION_VERSION;
            changed = true;
        }
        let ghost head_changed = changed;
        let ghost old_view = codex_profiles_view(before.profiles@);
        let ghost new_view = old_view.map_values(|p: CodexProfileSpec| normalized_profile(p));
        let mut profiles_changed = false;
        let mut i: usize = 0;
        while i < database.profiles.len()
            invariant
                i <= database.profiles.len(),
                database.profiles@.len() == before.profiles@.len(),
                old_view == codex_profiles_view(before.profiles@),
                new_view == old_view.map_values(|p: CodexProfileSpec| normalized_profile(p)),
                forall|k: int| 0 <= k < i ==> #[trigger] database.profiles@[k]@ == new_view[k],
                forall|k: int|
                    i <= k < database.profiles@.len() ==> #[trigger] database.profiles@[k]@
                        == old_view[k],
                profiles_changed == differs_below(old_view, new_view, i as int),
                database.replace_windows_target == (before.replace_windows_target
                    || !before.replace_wsl_target),
                database.replace_wsl_target == before.replace_wsl_target,
                database.api_key_provider_name@ == provider_name_spec(before.api_key_provider_name@),
                database.migration_version == CURRENT_MIGRATION_VERSION,
                same_other_fields(*database, before),
            decreases database.profiles.len() - i,
        {
            let (q, differs) = normalize_profile(&database.profiles[i]);
            proof {
                assert(old_view[i as int] == before.profiles@[i as int]@);
                if differs {
                    assert(old_view[i as int] != new_view[i as int]);
                }
                if differs_below(old_view, new_view, i as int + 1) && !differs {
                    let k = choose|k: int| 0 <= k < i + 1 && old_view[k] != new_view[k];
                    assert(k < i);
                }
            }
            database.profiles.set(i, q);
            profiles_changed = profiles_changed || differs;
            i = i + 1;
        }
        proof {
            assert(codex_profiles_view(database.profiles@) =~= new_view);
            let f = fields_of(before);
            if profiles_changed {
                let k = choose|k: int| 0 <= k < old_view.len() && old_view[k] != new_view[k];
                assert(normalize_fields(f).profiles[k] != f.profiles[k]);
            } else {
                assert(new_view =~= old_view);
            }
            if !(head_changed || profiles_changed) {
                assert(normalize_fields(f) == f);
            }
        }
        changed || profiles_changed
    }
}

/// Normalising a database that is already normal changes nothing.
pub proof fn lemma_normalize_idempotent(f: NormalizedFields)
    ensures
        !needs_normalizing(normalize_fields(f)),
{
    let g = normalize_fields(f);
    let name = f.api_key_provider_name;
    lemma_trim_idempotent(name);
    reveal_strlit("apikey");
    assert(trim(DEFAULT_APIKEY_PROVIDER_NAME@) =~= DEFAULT_APIKEY_PROVIDER_NAME@) by {
        let d = DEFAULT_APIKEY_PROVIDER_NAME@;
        crate::text::lemma_lead_ws_bounds(d, 0);
        crate::text::lemma_trail_ws_bounds(d, d.len() as int);
        assert(crate::text::lead_ws(d, 0) == 0);
        assert(crate::text::trail_ws(d, d.len() as int) == d.len());
        assert(d.subrange(0, d.len() as int) =~= d);
    }
    assert forall|k: int| 0 <= k < g.profiles.len() implies #[trigger] normalized_profile(
        g.profiles[k],
    ) == g.profiles[k] by {
        let p = f.profiles[k];
        match p.auto_disabled_reason {
            Some(r) => lemma_trim_idempotent(r),
            None => {},
        }
    }
    assert(normalize_fields(g).profiles =~= g.profiles);
}

/// Index of the first profile at or after `i` whose ID is `id`, or -1.
pub open spec fn profile_index_from(ps: Seq<CodexProfileSpec>, id: Seq<char>, i: int) -> int
    decreases ps.len() - i,
{
    if i < 0 || i >= ps.len() {
        -1
    } else if ps[i].id == id {
        i
    } else {
        profile_index_from(ps, id, i + 1)
    }
}

pub open spec fn profile_index(ps: Seq<CodexProfileSpec>, id: Seq<char>) -> int {
    profile_index_from(ps, id, 0)
}

pub proof fn lemma_profile_index(ps: Seq<CodexProfileSpec>, id: Seq<char>, i: int)
    requires
        0 <= i <= ps.len(),
    ensures
        profile_index_from(ps, id, i) == -1 || (i <= profile_index_from(ps, id, i) < ps.len()
            && ps[profile_index_from(ps, id, i)].id == id),
        profile_index_from(ps, id, i) == -1 ==> forall|k: int|
            i <= k < ps.len() ==> (#[trigger] ps[k]).id != id,
    decreases ps.len() - i,
{
    if i < ps.len() && ps[i].id != id {
        lemma_profile_index(ps, id, i + 1);
    }
}

/// Profiles with the same IDs in the same places are searched alike.
pub proof fn lemma_profile_index_same_ids(
    a: Seq<CodexProfileSpec>,
    b: Seq<CodexProfileSpec>,
    id: Seq<char>,
    i: int,
)
    requires
        a.len() == b.len(),
        forall|k: int| 0 <= k < a.len() ==> (#[trigger] a[k]).id == b[k].id,
    ensures
        profile_index_from(a, id, i) == profile_index_from(b, id, i),
    decreases a.len() - i,
{
    if 0 <= i < a.len() && a[i].id != id {
        lemma_profile_index_same_ids(a, b, id, i + 1);
    }
}

/// Finds the first profile with the given ID.
pub fn find_codex_profile(profiles: &Vec<CodexProfile>, id: &str) -> (out: Option<usize>)
    ensures
        match out {
            Some(k) => k < profiles.len() && k as int == profile_index(
                codex_profiles_view(profiles@),
                id@,
            ),
            None => profile_index(codex_profiles_view(profiles@), id@) == -1,
        },
{
    let ghost ps = codex_profiles_view(profiles@);
    let mut j: usize = 0;
    while j < profiles.len()
        invariant
            j <= profiles.len(),
            ps == codex_profiles_view(profiles@),
            profile_index(ps, id@) == profile_index_from(ps, id@, j as int),
        decreases profiles.len() - j,
    {
        assert(ps[j as int] == profiles@[j as int]@);
        if same_text(profiles[j].id.as_str(), id) {
            return Some(j);
        }
        j = j + 1;
    }
    None
}

/// A profile after it is disabled or enabled by hand at `now`.
pub open spec fn toggled_profile(p: CodexProfileSpec, disabled: bool, now: i64) -> CodexProfileSpec {
    CodexProfileSpec {
        auto_disabled: disabled,
        updated_at_utc: now,
        auto_disabled_reason: if disabled {
            Some(MANUAL_DISABLE_REASON@)
        } else {
            None
        },
        auto_disabled_at_utc: if disabled {
            Some(now)
        } else {
            None
        },
        ..p
    }
}

/// The database apart from its profiles is equal.
pub open spec fn same_but_profiles(a: ProfileDatabase, b: ProfileDatabase) -> bool {
    &&& same_other_fields(a, b)
    &&& a.replace_windows_target == b.replace_windows_target
    &&& a.replace_wsl_target == b.replace_wsl_target
    &&& a.api_key_provider_name == b.api_key_provider_name
    &&& a.migration_version == b.migration_version
}

/// What disabling (or enabling) the profile `profile_id` by hand at `now`
/// does: an unknown ID is an error and changes nothing; a known one is
/// toggled in place.
pub open spec fn toggled_in(
    before: ProfileDatabase,
    after: ProfileDatabase,
    profile_id: Seq<char>,
    disabled: bool,
    now: i64,
    out: AppResult<()>,
) -> bool {
    let ps = codex_profiles_view(before.profiles@);
    let i = profile_index(ps, profile_id);
    &&& out is Ok <==> i >= 0
    &&& out matches Err(e) ==> dto_spec(e) == validation_spec(
        PROFILE_NOT_FOUND@,
        NOT_FOUND_UPDATE_MSG@,
    ) && after == before
    &&& out is Ok ==> codex_profiles_view(after.profiles@) == ps.update(
        i,
        toggled_profile(ps[i], disabled, now),
    )
    &&& same_but_profiles(after, before)
}

/// Disables or enables a profile by hand: a disabled profile records the
/// manual reason and the time; an enabled one keeps neither.
pub fn set_auto_disabled(database: &mut ProfileDatabase, profile_id: &str, disabled: bool, now: i64) -> (out:
    AppResult<()>)
    ensures
        toggled_in(*old(database), *final(database), profile_id@, disabled, now, out),
{
    let ghost ps = codex_profiles_view(database.profiles@);
    match find_codex_profile(&database.profiles, profile_id) {
        None => Err(AppError::validation(PROFILE_NOT_FOUND, NOT_FOUND_UPDATE_MSG)),
        Some(i) => {
            let mut p = copy_profile(&database.profiles[i]);
            p.auto_disabled = disabled;
            p.updated_at_utc = now;
            if disabled {
                p.auto_disabled_reason = Some(copy_str(MANUAL_DISABLE_REASON));
                p.auto_disabled_at_utc = Some(now);
            } else {
                p.auto_disabled_reason = None;
                p.auto_disabled_at_utc = None;
            }
            proof {
                assert(ps[i as int] == database.profiles@[i as int]@);
            }
            database.profiles.set(i, p);
            proof {
                assert(codex_profiles_view(database.profiles@) =~= ps.update(
                    i as int,
                    toggled_profile(ps[i as int], disabled, now),
                ));
            }
            Ok(())
        },
    }
}

/// A profile disabled after a failed test at `now`, with the trimmed reason.
pub open spec fn marked_profile(p: CodexProfileSpec, reason: Seq<char>, now: i64) -> CodexProfileSpec {
    CodexProfileSpec {
        auto_disabled: true,
        auto_disabled_reason: Some(trim(reason)),
        auto_disabled_at_utc: Some(now),
        updated_at_utc: now,
        ..p
    }
}

/// A profile is marked again unless it is already disabled with this very
/// reason.
pub open spec fn needs_mark(p: CodexProfileSpec, reason: Seq<char>) -> bool {
    !p.auto_disabled || p.auto_disabled_reason != Some(reason)
}

pub open spec fn failures_view(fs: Seq<(String, String)>) -> Seq<(Seq<char>, Seq<char>)> {
    fs.map_values(|f: (String, String)| (f.0@, f.1@))
}

/// The profiles after marking each failure in turn, and whether any profile
/// changed; `None` when a failure names an unknown profile.
pub open spec fn mark_all(
    ps: Seq<CodexProfileSpec>,
    fs: Seq<(Seq<char>, Seq<char>)>,
    now: i64,
) -> Option<(Seq<CodexProfileSpec>, bool)>
    decreases fs.len(),
{
    if fs.len() == 0 {
        Some((ps, false))
    } else {
        match mark_all(ps, fs.drop_last(), now) {
            None => None,
            Some((qs, changed)) => {
                let id = fs.last().0;
                let reason = fs.last().1;
                let i = profile_index(qs, id);
                if i < 0 {
                    None
                } else if needs_mark(qs[i], reason) {
                    Some((qs.update(i, marked_profile(qs[i], reason, now)), true))
                } else {
                    Some((qs, changed))
                }
            },
        }
    }
}

/// What marking the failed `failures` at `now` does: an error when one
/// names an unknown profile, else the marked profiles and whether any
/// changed.
pub open spec fn marked_in(
    before: ProfileDatabase,
    after: ProfileDatabase,
    failures: Seq<(Seq<char>, Seq<char>)>,
    now: i64,
    out: AppResult<bool>,
) -> bool {
    &&& match mark_all(codex_profiles_view(before.profiles@), failures, now) {
        None => out matches Err(e) && dto_spec(e) == validation_spec(
            PROFILE_NOT_FOUND@,
            NOT_FOUND_DISABLE_MSG@,
        ),
        Some((qs, changed)) => out == Ok::<bool, AppError>(changed) && codex_profiles_view(
            after.profiles@,
        ) == qs,
    }
    &&& same_but_profiles(after, before)
}

/// Disables the profiles whose connection test failed, with the failure as
/// the reason; says whether any profile changed.
pub fn mark_auto_disabled(
    database: &mut ProfileDatabase,
    failures: &Vec<(String, String)>,
    now: i64,
) -> (out: AppResult<bool>)
    ensures
        marked_in(*old(database), *final(database), failures_view(failures@), now, out),
{
    let ghost ps = codex_profiles_view(database.profiles@);
    let ghost fs = failures_view(failures@);
    let mut changed = false;
    let mut j: usize = 0;
    while j < failures.len()
        invariant
            j <= failures.len(),
            fs == failures_view(failures@),
            ps == codex_profiles_view(old(database).profiles@),
            mark_all(ps, fs.take(j as int), now) == Some(
                (codex_profiles_view(database.profiles@), changed),
            ),
            same_but_profiles(*database, *old(database)),
        decreases failures.len() - j,
    {
        proof {
            assert(fs.take(j as int + 1).drop_last() =~= fs.take(j as int));
            assert(fs.take(j as int + 1).last() == (failures@[j as int].0@, failures@[j as int].1@));
        }
        let ghost qs = codex_profiles_view(database.profiles@);
        let id = failures[j].0.as_str();
        let reason = failures[j].1.as_str();
        match find_codex_profile(&database.profiles, id) {
            None => {
                proof {
                    let pre = fs.take(j as int + 1);
                    assert(pre.drop_last() =~= fs.take(j as int));
                    assert(pre.last().0 == id@);
                    assert(profile_index(qs, id@) == -1);
                    assert(mark_all(ps, pre, now) is None);
                    lemma_mark_all_none_prefix(ps, fs, j as int + 1, now);
                }
                return Err(AppError::validation(PROFILE_NOT_FOUND, NOT_FOUND_DISABLE_MSG));
            },
            Some(i) => {
                proof {
                    assert(qs[i as int] == database.profiles@[i as int]@);
                }
                let already = database.profiles[i].auto_disabled && match &database.profiles[i].auto_disabled_reason {
                    Some(r) => same_text(r.as_str(), reason),
                    None => false,
                };
                if !already {
                    let mut p = copy_profile(&database.profiles[i]);
                    p.auto_disabled = true;
                    p.auto_disabled_reason = Some(trim_str(reason));
                    p.auto_disabled_at_utc = Some(now);
                    p.updated_at_utc = now;
                    database.profiles.set(i, p);
                    changed = true;
                    proof {
                        assert(codex_profiles_view(database.profiles@) =~= qs.update(
                            i as int,
                            marked_profile(qs[i as int], reason@, now),
                        ));
                    }
                }
            },
        }
        j = j + 1;
    }
    proof {
        assert(fs.take(failures.len() as int) =~= fs);
    }
    Ok(changed)
}

/// `set_auto_disabled` at the time of the call.
pub fn set_auto_disabled_now(database: &mut ProfileDatabase, profile_id: &str, disabled: bool) -> (out:
    AppResult<()>)
    ensures
        exists|now: i64|
            #[trigger] toggled_in(*old(database), *final(database), profile_id@, disabled, now, out),
{
    let now = utc_now_nanos();
    set_auto_disabled(database, profile_id, disabled, now)
}

/// `mark_auto_disabled` at the time of the call.
pub fn mark_auto_disabled_now(database: &mut ProfileDatabase, failures: &Vec<(String, String)>) -> (out:
    AppResult<bool>)
    ensures
        exists|now: i64|
            #[trigger] marked_in(*old(database), *final(database), failures_view(failures@), now, out),
{
    let now = utc_now_nanos();
    mark_auto_disabled(database, failures, now)
}

/// The profiles of a successful marking.
pub open spec fn marked_of(r: Option<(Seq<CodexProfileSpec>, bool)>) -> Seq<CodexProfileSpec> {
    match r {
        Some(pair) => pair.0,
        None => Seq::empty(),
    }
}

/// Marking keeps every profile's ID in its place.
proof fn lemma_mark_all_ids(ps: Seq<CodexProfileSpec>, fs: Seq<(Seq<char>, Seq<char>)>, now: i64)
    requires
        mark_all(ps, fs, now) is Some,
    ensures
        marked_of(mark_all(ps, fs, now)).len() == ps.len(),
        forall|k: int|
            0 <= k < ps.len() ==> (#[trigger] marked_of(mark_all(ps, fs, now))[k]).id == ps[k].id,
    decreases fs.len(),
{
    if fs.len() > 0 {
        lemma_mark_all_ids(ps, fs.drop_last(), now);
        let qs0 = marked_of(mark_all(ps, fs.drop_last(), now));
        lemma_profile_index(qs0, fs.last().0, 0);
    }
}

/// Once a prefix of the failures names an unknown profile, so does the
/// whole list.
proof fn lemma_mark_all_none_prefix(
    ps: Seq<CodexProfileSpec>,
    fs: Seq<(Seq<char>, Seq<char>)>,
    n: int,
    now: i64,
)
    requires
        0 <= n <= fs.len(),
        mark_all(ps, fs.take(n), now) is None,
    ensures
        mark_all(ps, fs, now) is None,
    decreases fs.len(),
{
    if fs.len() == n {
        assert(fs.take(n) =~= fs);
    } else {
        assert(fs.drop_last().take(n) =~= fs.take(n));
        lemma_mark_all_none_prefix(ps, fs.drop_last(), n, now);
    }
}

/// After a successful marking, every profile that a failure names is
/// disabled.
pub proof fn lemma_marked_profiles_disabled(
    ps: Seq<CodexProfileSpec>,
    fs: Seq<(Seq<char>, Seq<char>)>,
    now: i64,
    j: int,
)
    requires
        mark_all(ps, fs, now) is Some,
        0 <= j < fs.len(),
    ensures
        ({
            let qs = marked_of(mark_all(ps, fs, now));
            let i = profile_index(qs, fs[j].0);
            0 <= i < qs.len() && qs[i].auto_disabled
        }),
    decreases fs.len(),
{
    let rest = fs.drop_last();
    let (qs0, c0) = mark_all(ps, rest, now)->0;
    let id = fs.last().0;
    let i0 = profile_index(qs0, id);
    let qs = marked_of(mark_all(ps, fs, now));
    lemma_profile_index(qs0, id, 0);
    if j == fs.len() - 1 {
        if needs_mark(qs0[i0], fs.last().1) {
            lemma_profile_index_same_ids(qs, qs0, id, 0);
        }
    } else {
        lemma_marked_profiles_disabled(ps, rest, now, j);
        assert(rest[j] == fs[j]);
        let idj = fs[j].0;
        let ij = profile_index(qs0, idj);
        if needs_mark(qs0[i0], fs.last().1) {
            assert forall|k: int| 0 <= k < qs.len() implies (#[trigger] qs[k]).id == qs0[k].id by {}
            lemma_profile_index_same_ids(qs, qs0, idj, 0);
        }
    }
}

/// The profiles without those whose ID is `id`.
pub open spec fn without_profile(ps: Seq<CodexProfileSpec>, id: Seq<char>) -> Seq<CodexProfileSpec>
    decreases ps.len(),
{
    if ps.len() == 0 {
        Seq::empty()
    } else {
        let rest = without_profile(ps.drop_last(), id);
        if ps.last().id == id {
            rest
        } else {
            rest.push(ps.last())
        }
    }
}

/// Removes every profile with the given ID and forgets it as the last
/// selected one; says whether a profile was removed.
pub fn remove_profile(database: &mut ProfileDatabase, profile_id: &str) -> (out: bool)
    ensures
        codex_profiles_view(final(database).profiles@) == without_profile(
            codex_profiles_view(old(database).profiles@),
            profile_id@,
        ),
        out == (final(database).profiles@.len() != old(database).profiles@.len()),
        final(database).last_selected_profile_id == (if opt_text(
            old(database).last_selected_profile_id,
        ) == Some(profile_id@) {
            None
        } else {
            old(database).last_selected_profile_id
        }),
        final(database).replace_windows_target == old(database).replace_windows_target,
        final(database).replace_wsl_target == old(database).replace_wsl_target,
        final(database).api_key_provider_name == old(database).api_key_provider_name,
        final(database).migration_version == old(database).migration_version,
        final(database).last_switch_summary == old(database).last_switch_summary,
{
    let ghost ps = codex_profiles_view(database.profiles@);
    let mut kept: Vec<CodexProfile> = Vec::new();
    let mut i: usize = 0;
    while i < database.profiles.len()
        invariant
            i <= database.profiles.len(),
            ps == codex_profiles_view(database.profiles@),
            codex_profiles_view(kept@) == without_profile(ps.take(i as int), profile_id@),
        decreases database.profiles.len() - i,
    {
        proof {
            assert(ps.take(i as int + 1).drop_last() =~= ps.take(i as int));
            assert(ps[i as int] == database.profiles@[i as int]@);
        }
        if !same_text(database.profiles[i].id.as_str(), profile_id) {
            kept.push(copy_profile(&database.profiles[i]));
            proof {
                assert(codex_profiles_view(kept@) =~= without_profile(
                    ps.take(i as int),
                    profile_id@,
                ).push(ps[i as int]));
            }
        }
        i = i + 1;
    }
    proof {
        assert(ps.take(database.profiles.len() as int) =~= ps);
    }
    let removed = kept.len() != database.profiles.len();
    database.profiles = kept;
    let clear = match &database.last_selected_profile_id {
        Some(id) => same_text(id.as_str(), profile_id),
        None => false,
    };
    if clear {
        database.last_selected_profile_id = None;
    }
    removed
}

/// The copy of a profile: named `<name> 副本`, with a new ID, the copied
/// files' paths, not disabled, and created now.
pub open spec fn duplicate_spec(
    source: CodexProfileSpec,
    new_id: Seq<char>,
    auth_path: Option<Seq<char>>,
    config_path: Option<Seq<char>>,
    now: i64,
) -> CodexProfileSpec {
    CodexProfileSpec {
        id: new_id,
        name: source.name + COPY_SUFFIX@,
        base_url: source.base_url,
        test_model: source.test_model,
        auto_disabled: false,
        auto_disabled_reason: None,
        auto_disabled_at_utc: None,
        provider_category: source.provider_category,
        auth_mode: source.auth_mode,
        stored_auth_json_path: auth_path,
        protected_api_key_base64: source.protected_api_key_base64,
        stored_config_toml_path: config_path,
        created_at_utc: now,
        updated_at_utc: now,
    }
}

/// The copy of `source` under a new ID, with the paths of its copied files.
pub fn duplicated_profile(
    source: &CodexProfile,
    new_id: &str,
    auth_path: Option<String>,
    config_path: Option<String>,
    now: i64,
) -> (out: CodexProfile)
    ensures
        out@ == duplicate_spec(source@, new_id@, opt_text(auth_path), opt_text(config_path), now),
{
    let mut name = copy_str(source.name.as_str());
    push_str(&mut name, COPY_SUFFIX);
    CodexProfile {
        id: copy_str(new_id),
        name,
        base_url: copy_str(source.base_url.as_str()),
        test_model: copy_opt_text(&source.test_model),
        auto_disabled: false,
        auto_disabled_reason: None,
        auto_disabled_at_utc: None,
        provider_category: source.provider_category,
        auth_mode: source.auth_mode,
        stored_auth_json_path: auth_path,
        protected_api_key_base64: copy_opt_text(&source.protected_api_key_base64),
        stored_config_toml_path: config_path,
        created_at_utc: now,
        updated_at_utc: now,
    }
}

/// `duplicated_profile` at the time of the call.
pub fn duplicated_profile_now(
    source: &CodexProfile,
    new_id: &str,
    auth_path: Option<String>,
    config_path: Option<String>,
) -> (out: CodexProfile)
    ensures
        out@ == duplicate_spec(
            source@,
            new_id@,
            opt_text(auth_path),
            opt_text(config_path),
            out.created_at_utc,
        ),
{
    duplicated_profile(source, new_id, auth_path, config_path, utc_now_nanos())
}

/// The profile to duplicate, or `profile_not_found`.
pub fn duplicate_source(database: &ProfileDatabase, profile_id: &str) -> (out: AppResult<CodexProfile>)
    ensures
        ({
            let ps = codex_profiles_view(database.profiles@);
            let i = profile_index(ps, profile_id@);
            &&& out is Ok <==> i >= 0
            &&& out matches Ok(p) ==> p@ == ps[i]
            &&& out matches Err(e) ==> dto_spec(e) == validation_spec(
                PROFILE_NOT_FOUND@,
                NOT_FOUND_DUPLICATE_MSG@,
            )
        }),
{
    match find_codex_profile(&database.profiles, profile_id) {
        Some(i) => {
            proof {
                assert(codex_profiles_view(database.profiles@)[i as int] == database.profiles@[i as int]@);
            }
            Ok(copy_profile(&database.profiles[i]))
        },
        None => Err(AppError::validation(PROFILE_NOT_FOUND, NOT_FOUND_DUPLICATE_MSG)),
    }
}

} // verus!
