//! Edits of Codex's `config.toml`: pointing it at a provider, taking the
//! official snapshot, and merging the official configuration back.

use vstd::prelude::*;

use crate::switcher::credential::flag_index;
use crate::switcher::models::{ProfileSpec, StoredProviderProfile, SwitcherDatabase, profiles_view};
use crate::switcher::service::{catalog_path_spec, catalog_relative_path, ensure_default_model};
use crate::switcher::{ApiError, ApiResult, ErrorSpec, detailed_spec, error_spec};
use crate::text::{copy_str, opt_str_text, trim, trim_str};
use crate::toml_doc::{
    TomlView, document_contains, document_copy_entry, document_holds_table, document_remove,
    document_set_table, document_set_text, document_table_insert, document_table_is_empty,
    document_table_remove, document_text, document_view, holds_table, inner_table, new_document,
    new_table, parse_document, render_document, table_set_bool, table_set_integer, table_set_table,
    table_set_text, table_set_text_array, table_view, text_array, toml_parse, toml_render,
};

verus! {

pub const MODEL_PROVIDER_KEY: &'static str = "model_provider";

pub const MODEL_KEY: &'static str = "model";

pub const MODEL_CATALOG_KEY: &'static str = "model_catalog_json";

pub const PROVIDERS_KEY: &'static str = "model_providers";

pub const OFFICIAL_PROVIDER_ID: &'static str = "openai";

pub const WIRE_API: &'static str = "responses";

pub const TOKEN_FLAG: &'static str = "--codex-provider-token";

pub const HELPER_TIMEOUT_MS: i64 = 5000;

pub const HELPER_REFRESH_MS: i64 = 0;

pub const CONFIG_INVALID: &'static str = "config_toml_invalid";

pub const CONFIG_INVALID_SNAPSHOT_MSG: &'static str = "现有 config.toml 不是有效 TOML，无法保存官方快照。";

pub const CONFIG_INVALID_APPLY_MSG: &'static str = "现有 config.toml 不是有效 TOML，未进行修改。";

pub const CONFIG_INVALID_MERGE_MSG: &'static str = "现有 config.toml 不是有效 TOML。";

pub const OFFICIAL_CONFIG_INVALID: &'static str = "official_config_invalid";

pub const OFFICIAL_CONFIG_INVALID_MSG: &'static str = "保存的官方配置快照不是有效 TOML。";

pub const PROVIDERS_NOT_TABLE: &'static str = "model_providers_not_table";

pub const PROVIDERS_NOT_TABLE_MSG: &'static str = "config.toml 中的 model_providers 不是表结构。";

pub type TomlEntries = Map<Seq<char>, TomlView>;

/// What a configuration text stands for: a blank text is an empty document,
/// anything else is parsed.
pub open spec fn config_entries(text: Seq<char>) -> Result<TomlEntries, Seq<char>> {
    if trim(text).len() == 0 {
        Ok(Map::empty())
    } else {
        toml_parse(text)
    }
}

/// The entries with the table of provider `id` taken out of
/// `model_providers`; a providers table left empty is removed. Nothing
/// changes when `model_providers` is not a standard table.
pub open spec fn without_provider(view: TomlEntries, id: Seq<char>) -> TomlEntries {
    if holds_table(view, PROVIDERS_KEY@) {
        let rest = inner_table(view, PROVIDERS_KEY@).remove(id);
        if rest == Map::<Seq<char>, TomlView>::empty() {
            view.remove(PROVIDERS_KEY@)
        } else {
            view.insert(PROVIDERS_KEY@, TomlView::Table(rest))
        }
    } else {
        view
    }
}

/// The entries with the tables of all the given providers taken out, in
/// order.
pub open spec fn without_providers(view: TomlEntries, ids: Seq<Seq<char>>) -> TomlEntries
    decreases ids.len(),
{
    if ids.len() == 0 {
        view
    } else {
        without_provider(without_providers(view, ids.drop_last()), ids.last())
    }
}

/// The official form of a configuration: `model_provider` is `openai`, no
/// model catalog is named, and no managed provider has a table.
pub open spec fn official_entries(view: TomlEntries, ids: Seq<Seq<char>>) -> TomlEntries {
    without_providers(
        view.insert(MODEL_PROVIDER_KEY@, TomlView::Text(OFFICIAL_PROVIDER_ID@)).remove(
            MODEL_CATALOG_KEY@,
        ),
        ids,
    )
}

/// The provider ids of a list of profiles.
pub open spec fn provider_ids(profiles: Seq<ProfileSpec>) -> Seq<Seq<char>> {
    profiles.map_values(|p: ProfileSpec| p.provider_id)
}

/// The entry under `key` of `baseline` put into `current`, or `key` removed
/// from `current` when `baseline` has none.
pub open spec fn restored(current: TomlEntries, baseline: TomlEntries, key: Seq<char>) -> TomlEntries {
    if baseline.contains_key(key) {
        current.insert(key, baseline[key])
    } else {
        current.remove(key)
    }
}

/// The credential helper's settings: the command, its arguments naming the
/// profile, a five second timeout and no refresh.
pub open spec fn helper_entries(command: Seq<char>, profile_id: Seq<char>) -> TomlEntries {
    Map::empty().insert("command"@, TomlView::Text(command)).insert(
        "args"@,
        TomlView::Array(seq![TomlView::Text(TOKEN_FLAG@), TomlView::Text(profile_id)]),
    ).insert("timeout_ms"@, TomlView::Integer(HELPER_TIMEOUT_MS as int)).insert(
        "refresh_interval_ms"@,
        TomlView::Integer(HELPER_REFRESH_MS as int),
    )
}

/// The table of a provider: its name and base URL, the Responses wire API,
/// no WebSockets, and authentication through the credential helper.
pub open spec fn provider_entries(p: ProfileSpec, command: Seq<char>) -> TomlEntries {
    Map::empty().insert("name"@, TomlView::Text(p.name)).insert(
        "base_url"@,
        TomlView::Text(p.base_url),
    ).insert("wire_api"@, TomlView::Text(WIRE_API@)).insert(
        "supports_websockets"@,
        TomlView::Boolean(false),
    ).insert("auth"@, TomlView::Table(helper_entries(command, p.id)))
}

/// The root entries once the previous provider's table is gone and the
/// provider, model and catalog keys name the new provider.
pub open spec fn selected_entries(
    view: TomlEntries,
    previous: Option<Seq<char>>,
    p: ProfileSpec,
) -> TomlEntries {
    let base = match previous {
        Some(id) => without_provider(view, id),
        None => view,
    };
    base.insert(MODEL_PROVIDER_KEY@, TomlView::Text(p.provider_id)).insert(
        MODEL_KEY@,
        TomlView::Text(p.default_model),
    ).insert(MODEL_CATALOG_KEY@, TomlView::Text(catalog_path_spec(p.provider_id)))
}

/// The entries once `model_providers` exists: an empty standard table is
/// added when the key is missing.
pub open spec fn with_providers_key(view: TomlEntries) -> TomlEntries {
    if view.contains_key(PROVIDERS_KEY@) {
        view
    } else {
        view.insert(PROVIDERS_KEY@, TomlView::Table(Map::empty()))
    }
}

/// What pointing a configuration at provider `p` gives: the selected root
/// entries with `p`'s table in `model_providers`, or an error when
/// `model_providers` is there but is not a standard table.
pub open spec fn provider_config(
    view: TomlEntries,
    previous: Option<Seq<char>>,
    p: ProfileSpec,
    command: Seq<char>,
) -> Result<TomlEntries, ErrorSpec> {
    let v = with_providers_key(selected_entries(view, previous, p));
    if !holds_table(v, PROVIDERS_KEY@) {
        Err(error_spec(PROVIDERS_NOT_TABLE@, PROVIDERS_NOT_TABLE_MSG@))
    } else {
        Ok(
            v.insert(
                PROVIDERS_KEY@,
                TomlView::Table(
                    inner_table(v, PROVIDERS_KEY@).insert(
                        p.provider_id,
                        TomlView::Table(provider_entries(p, command)),
                    ),
                ),
            ),
        )
    }
}

/// The official configuration merged into the current one: `model` comes
/// from the baseline, `model_provider` is `openai`, no catalog is named and
/// the active provider's table is gone.
pub open spec fn merged_official(
    current: TomlEntries,
    baseline: TomlEntries,
    active: Option<Seq<char>>,
) -> TomlEntries {
    let v = restored(current, baseline, MODEL_KEY@).insert(
        MODEL_PROVIDER_KEY@,
        TomlView::Text(OFFICIAL_PROVIDER_ID@),
    ).remove(MODEL_CATALOG_KEY@);
    match active {
        Some(id) => without_provider(v, id),
        None => v,
    }
}

/// The provider that a configuration text names in `model_provider`, if it
/// parses and names one as a string.
pub open spec fn configured_provider_spec(text: Seq<char>) -> Option<Seq<char>> {
    match toml_parse(text) {
        Ok(v) => if v.contains_key(MODEL_PROVIDER_KEY@) && v[MODEL_PROVIDER_KEY@] is Text {
            Some(v[MODEL_PROVIDER_KEY@]->Text_0)
        } else {
            None
        },
        Err(_) => None,
    }
}

/// Removes the table of provider `provider_id` from `model_providers`, and
/// `model_providers` itself once it is empty.
pub fn remove_provider_table(doc: &mut toml_edit::DocumentMut, provider_id: &str)
    ensures
        document_view(*final(doc)) == without_provider(document_view(*old(doc)), provider_id@),
{
    if document_holds_table(doc, PROVIDERS_KEY) {
        document_table_remove(doc, PROVIDERS_KEY, provider_id);
        if document_table_is_empty(doc, PROVIDERS_KEY) {
            document_remove(doc, PROVIDERS_KEY);
        }
    }
}

/// Puts the entry of `baseline` under `key` into `current`, or removes `key`
/// from `current` when the baseline has no such entry.
pub fn restore_toml_item(
    current: &mut toml_edit::DocumentMut,
    baseline: &toml_edit::DocumentMut,
    key: &str,
)
    ensures
        document_view(*final(current)) == restored(
            document_view(*old(current)),
            document_view(*baseline),
            key@,
        ),
{
    if document_contains(baseline, key) {
        document_copy_entry(current, baseline, key);
    } else {
        document_remove(current, key);
    }
}

/// Parses a configuration text; a blank text gives an empty document. A
/// parse error becomes the error `code` with `message` and the parser's text.
pub fn parse_config_text(text: &str, code: &str, message: &str) -> (out: ApiResult<
    toml_edit::DocumentMut,
>)
    ensures
        out is Ok <==> config_entries(text@) is Ok,
        out matches Ok(doc) ==> config_entries(text@) == Ok::<TomlEntries, Seq<char>>(
            document_view(doc),
        ),
        out matches Err(e) ==> e@ == detailed_spec(code@, message@, config_entries(text@)->Err_0),
{
    let trimmed = trim_str(text);
    if trimmed.as_str().is_empty() {
        return Ok(new_document());
    }
    match parse_document(text) {
        Ok(doc) => Ok(doc),
        Err(detail) => Err(ApiError::detailed(code, message, detail.as_str())),
    }
}

/// Removes the tables of the given providers, in order.
fn remove_provider_tables(doc: &mut toml_edit::DocumentMut, profiles: &Vec<StoredProviderProfile>)
    ensures
        document_view(*final(doc)) == without_providers(
            document_view(*old(doc)),
            provider_ids(profiles_view(profiles@)),
        ),
{
    let ghost start = document_view(*doc);
    let ghost ids = provider_ids(profiles_view(profiles@));
    let mut i: usize = 0;
    while i < profiles.len()
        invariant
            i <= profiles.len(),
            ids == provider_ids(profiles_view(profiles@)),
            ids.len() == profiles.len(),
            document_view(*doc) == without_providers(start, ids.take(i as int)),
        decreases profiles.len() - i,
    {
        proof {
            assert(ids.take(i as int + 1).drop_last() =~= ids.take(i as int));
            assert(profiles_view(profiles@)[i as int].provider_id == profiles@[i as int]@.provider_id);
        }
        remove_provider_table(doc, profiles[i].provider_id.as_str());
        i = i + 1;
    }
    proof {
        assert(ids.take(profiles.len() as int) =~= ids);
    }
}

/// Brings a document to its official form: `model_provider` is `openai`, no
/// model catalog, and none of the managed providers' tables.
pub fn canonicalize_official_document(
    doc: &mut toml_edit::DocumentMut,
    database: &SwitcherDatabase,
)
    ensures
        document_view(*final(doc)) == official_entries(
            document_view(*old(doc)),
            provider_ids(profiles_view(database.profiles@)),
        ),
{
    document_set_text(doc, MODEL_PROVIDER_KEY, OFFICIAL_PROVIDER_ID);
    document_remove(doc, MODEL_CATALOG_KEY);
    remove_provider_tables(doc, &database.profiles);
}

/// The official snapshot of a configuration text: the text of its official
/// form, or `config_toml_invalid` when the text is not valid TOML.
pub fn canonical_official_config_snapshot(database: &SwitcherDatabase, config_text: &str) -> (out:
    ApiResult<String>)
    ensures
        out is Ok <==> config_entries(config_text@) is Ok,
        out matches Err(e) ==> e@ == detailed_spec(
            CONFIG_INVALID@,
            CONFIG_INVALID_SNAPSHOT_MSG@,
            config_entries(config_text@)->Err_0,
        ),
        out matches Ok(s) ==> exists|doc: toml_edit::DocumentMut|
            document_view(doc) == official_entries(
                config_entries(config_text@)->Ok_0,
                provider_ids(profiles_view(database.profiles@)),
            ) && s@ == toml_render(doc),
{
    let mut doc = parse_config_text(config_text, CONFIG_INVALID, CONFIG_INVALID_SNAPSHOT_MSG)?;
    canonicalize_official_document(&mut doc, database);
    Ok(render_document(&doc))
}

/// The table of a provider, as `provider_entries` describes it.
fn provider_table(profile: &StoredProviderProfile, helper_command: &str) -> (out: toml_edit::Table)
    ensures
        table_view(out) == provider_entries(profile@, helper_command@),
{
    let mut auth = new_table();
    table_set_text(&mut auth, "command", helper_command);
    let mut args: Vec<String> = Vec::new();
    args.push(copy_str(TOKEN_FLAG));
    args.push(copy_str(profile.id.as_str()));
    proof {
        assert(text_array(args@) =~= seq![TomlView::Text(TOKEN_FLAG@), TomlView::Text(profile@.id)]);
    }
    table_set_text_array(&mut auth, "args", &args);
    table_set_integer(&mut auth, "timeout_ms", HELPER_TIMEOUT_MS);
    table_set_integer(&mut auth, "refresh_interval_ms", HELPER_REFRESH_MS);
    let mut table = new_table();
    table_set_text(&mut table, "name", profile.name.as_str());
    table_set_text(&mut table, "base_url", profile.base_url.as_str());
    table_set_text(&mut table, "wire_api", WIRE_API);
    table_set_bool(&mut table, "supports_websockets", false);
    table_set_table(&mut table, "auth", auth);
    table
}

/// Points a configuration document at `profile`: the previous provider's
/// table goes, `model_provider`, `model` and `model_catalog_json` name the
/// new provider, and its table in `model_providers` is written anew.
pub fn apply_provider_document(
    doc: &mut toml_edit::DocumentMut,
    previous_provider: Option<&str>,
    profile: &StoredProviderProfile,
    helper_command: &str,
) -> (out: ApiResult<()>)
    ensures
        out is Ok <==> provider_config(
            document_view(*old(doc)),
            opt_str_text(previous_provider),
            profile@,
            helper_command@,
        ) is Ok,
        out is Ok ==> provider_config(
            document_view(*old(doc)),
            opt_str_text(previous_provider),
            profile@,
            helper_command@,
        ) == Ok::<TomlEntries, ErrorSpec>(document_view(*final(doc))),
        out matches Err(e) ==> e@ == error_spec(PROVIDERS_NOT_TABLE@, PROVIDERS_NOT_TABLE_MSG@),
{
    if let Some(previous) = previous_provider {
        remove_provider_table(doc, previous);
    }
    document_set_text(doc, MODEL_PROVIDER_KEY, profile.provider_id.as_str());
    document_set_text(doc, MODEL_KEY, profile.default_model.as_str());
    let catalog = catalog_relative_path(profile.provider_id.as_str());
    document_set_text(doc, MODEL_CATALOG_KEY, catalog.as_str());
    if !document_contains(doc, PROVIDERS_KEY) {
        document_set_table(doc, PROVIDERS_KEY, new_table());
    }
    if !document_holds_table(doc, PROVIDERS_KEY) {
        return Err(ApiError::new(PROVIDERS_NOT_TABLE, PROVIDERS_NOT_TABLE_MSG));
    }
    let table = provider_table(profile, helper_command);
    document_table_insert(doc, PROVIDERS_KEY, profile.provider_id.as_str(), table);
    Ok(())
}

/// What switching the configuration text to `profile` gives: the root
/// entries of the new text, or the error. A profile without a default model
/// and a text that is not valid TOML are refused first.
pub open spec fn provider_config_text(
    text: Seq<char>,
    previous: Option<Seq<char>>,
    p: ProfileSpec,
    command: Seq<char>,
) -> Result<TomlEntries, ErrorSpec> {
    if trim(p.default_model).len() == 0 {
        Err(
            error_spec(
                crate::switcher::service::DEFAULT_MODEL_MISSING@,
                crate::switcher::service::DEFAULT_MODEL_MISSING_MSG@,
            ),
        )
    } else {
        match config_entries(text) {
            Err(m) => Err(detailed_spec(CONFIG_INVALID@, CONFIG_INVALID_APPLY_MSG@, m)),
            Ok(v) => provider_config(v, previous, p, command),
        }
    }
}

/// The new text of `config.toml` when switching to `profile`.
pub fn apply_provider_config(
    existing_config: &str,
    previous_provider: Option<&str>,
    profile: &StoredProviderProfile,
    helper_command: &str,
) -> (out: ApiResult<String>)
    ensures
        out is Ok <==> provider_config_text(
            existing_config@,
            opt_str_text(previous_provider),
            profile@,
            helper_command@,
        ) is Ok,
        out matches Err(e) ==> provider_config_text(
            existing_config@,
            opt_str_text(previous_provider),
            profile@,
            helper_command@,
        ) == Err::<TomlEntries, ErrorSpec>(e@),
        out matches Ok(s) ==> exists|doc: toml_edit::DocumentMut|
            provider_config_text(
                existing_config@,
                opt_str_text(previous_provider),
                profile@,
                helper_command@,
            ) == Ok::<TomlEntries, ErrorSpec>(document_view(doc)) && s@ == toml_render(doc),
{
    ensure_default_model(profile)?;
    let mut doc = parse_config_text(existing_config, CONFIG_INVALID, CONFIG_INVALID_APPLY_MSG)?;
    apply_provider_document(&mut doc, previous_provider, profile, helper_command)?;
    Ok(render_document(&doc))
}

/// Merges the official configuration back into a document: `model` from the
/// baseline, `model_provider` set to `openai`, the catalog key and the active
/// provider's table removed.
pub fn merge_official_document(
    current: &mut toml_edit::DocumentMut,
    baseline: &toml_edit::DocumentMut,
    active_provider: Option<&str>,
)
    ensures
        document_view(*final(current)) == merged_official(
            document_view(*old(current)),
            document_view(*baseline),
            opt_str_text(active_provider),
        ),
{
    restore_toml_item(current, baseline, MODEL_KEY);
    document_set_text(current, MODEL_PROVIDER_KEY, OFFICIAL_PROVIDER_ID);
    document_remove(current, MODEL_CATALOG_KEY);
    if let Some(provider_id) = active_provider {
        remove_provider_table(current, provider_id);
    }
}

/// What restoring the official configuration makes of the current text and
/// the saved official snapshot (none counts as blank): the merged root
/// entries, or the error for whichever text is not valid TOML, the current
/// one first.
pub open spec fn merged_config_text(
    current: Seq<char>,
    baseline: Option<Seq<char>>,
    active: Option<Seq<char>>,
) -> Result<TomlEntries, ErrorSpec> {
    let base = match baseline {
        Some(b) => b,
        None => Seq::<char>::empty(),
    };
    match config_entries(current) {
        Err(m) => Err(detailed_spec(CONFIG_INVALID@, CONFIG_INVALID_MERGE_MSG@, m)),
        Ok(c) => match config_entries(base) {
            Err(m) => Err(detailed_spec(OFFICIAL_CONFIG_INVALID@, OFFICIAL_CONFIG_INVALID_MSG@, m)),
            Ok(b) => Ok(merged_official(c, b, active)),
        },
    }
}

/// The text of `config.toml` after restoring the official configuration.
pub fn merge_official_config(
    current_text: &str,
    baseline_text: Option<&str>,
    active_provider: Option<&str>,
) -> (out: ApiResult<String>)
    ensures
        out is Ok <==> merged_config_text(
            current_text@,
            opt_str_text(baseline_text),
            opt_str_text(active_provider),
        ) is Ok,
        out matches Err(e) ==> merged_config_text(
            current_text@,
            opt_str_text(baseline_text),
            opt_str_text(active_provider),
        ) == Err::<TomlEntries, ErrorSpec>(e@),
        out matches Ok(s) ==> exists|doc: toml_edit::DocumentMut|
            merged_config_text(
                current_text@,
                opt_str_text(baseline_text),
                opt_str_text(active_provider),
            ) == Ok::<TomlEntries, ErrorSpec>(document_view(doc)) && s@ == toml_render(doc),
{
    let mut current = parse_config_text(current_text, CONFIG_INVALID, CONFIG_INVALID_MERGE_MSG)?;
    let baseline_source: &str = match baseline_text {
        Some(b) => b,
        None => "",
    };
    proof {
        reveal_strlit("");
    }
    let baseline = parse_config_text(
        baseline_source,
        OFFICIAL_CONFIG_INVALID,
        OFFICIAL_CONFIG_INVALID_MSG,
    )?;
    merge_official_document(&mut current, &baseline, active_provider);
    Ok(render_document(&current))
}

/// The provider that `config.toml` names in `model_provider`, when the text
/// parses and the key holds a string.
pub fn configured_provider(config_text: &str) -> (out: Option<String>)
    ensures
        match out {
            Some(s) => configured_provider_spec(config_text@) == Some(s@),
            None => configured_provider_spec(config_text@) is None,
        },
{
    match parse_document(config_text) {
        Ok(doc) => document_text(&doc, MODEL_PROVIDER_KEY),
        Err(_) => None,
    }
}

/// The four root keys that a switch writes are distinct.
proof fn lemma_managed_keys_distinct()
    ensures
        MODEL_PROVIDER_KEY@ != MODEL_KEY@,
        MODEL_PROVIDER_KEY@ != MODEL_CATALOG_KEY@,
        MODEL_PROVIDER_KEY@ != PROVIDERS_KEY@,
        MODEL_KEY@ != MODEL_CATALOG_KEY@,
        MODEL_KEY@ != PROVIDERS_KEY@,
        MODEL_CATALOG_KEY@ != PROVIDERS_KEY@,
{
    reveal_strlit("model_provider");
    reveal_strlit("model");
    reveal_strlit("model_catalog_json");
    reveal_strlit("model_providers");
    assert(MODEL_PROVIDER_KEY@.len() != MODEL_KEY@.len());
    assert(MODEL_PROVIDER_KEY@[6] != MODEL_CATALOG_KEY@[6]);
    assert(MODEL_PROVIDER_KEY@.len() != PROVIDERS_KEY@.len());
    assert(MODEL_KEY@.len() != MODEL_CATALOG_KEY@.len());
    assert(MODEL_KEY@.len() != PROVIDERS_KEY@.len());
    assert(MODEL_CATALOG_KEY@[6] != PROVIDERS_KEY@[6]);
}

/// Taking a provider's table out touches no root key but `model_providers`.
proof fn lemma_without_provider_frame(view: TomlEntries, id: Seq<char>, key: Seq<char>)
    requires
        key != PROVIDERS_KEY@,
    ensures
        without_provider(view, id).contains_key(key) == view.contains_key(key),
        view.contains_key(key) ==> without_provider(view, id)[key] == view[key],
{
}

/// After taking provider `id` out, `model_providers` holds no table for it,
/// nor for any provider that it did not hold before.
proof fn lemma_without_provider_absent(view: TomlEntries, id: Seq<char>, other: Seq<char>)
    ensures
        !(holds_table(without_provider(view, id), PROVIDERS_KEY@) && inner_table(
            without_provider(view, id),
            PROVIDERS_KEY@,
        ).contains_key(id)),
        !(holds_table(view, PROVIDERS_KEY@) && inner_table(view, PROVIDERS_KEY@).contains_key(
            other,
        )) ==> !(holds_table(without_provider(view, id), PROVIDERS_KEY@) && inner_table(
            without_provider(view, id),
            PROVIDERS_KEY@,
        ).contains_key(other)),
{
}

/// Switching the configuration to a provider leaves every root entry alone
/// except `model_provider`, `model`, `model_catalog_json` and
/// `model_providers`.
pub proof fn lemma_switch_keeps_other_entries(
    view: TomlEntries,
    previous: Option<Seq<char>>,
    p: ProfileSpec,
    command: Seq<char>,
    key: Seq<char>,
)
    requires
        provider_config(view, previous, p, command) is Ok,
        key != MODEL_PROVIDER_KEY@,
        key != MODEL_KEY@,
        key != MODEL_CATALOG_KEY@,
        key != PROVIDERS_KEY@,
    ensures
        provider_config(view, previous, p, command)->Ok_0.contains_key(key) == view.contains_key(
            key,
        ),
        view.contains_key(key) ==> provider_config(view, previous, p, command)->Ok_0[key]
            == view[key],
{
    match previous {
        Some(id) => lemma_without_provider_frame(view, id, key),
        None => {},
    }
}

/// The configuration written for a provider never depends on its stored API
/// key: Codex asks the credential helper for the key instead.
pub proof fn lemma_config_holds_no_key(
    view: TomlEntries,
    previous: Option<Seq<char>>,
    p: ProfileSpec,
    key: Option<Seq<char>>,
    command: Seq<char>,
)
    ensures
        provider_config(view, previous, p, command) == provider_config(
            view,
            previous,
            ProfileSpec { protected_api_key: key, ..p },
            command,
        ),
{
}

/// After a switch the configuration names the provider, its default model
/// and its catalog, holds the provider's table, and no longer holds the
/// table of the provider that was active before.
pub proof fn lemma_switch_selects_provider(
    view: TomlEntries,
    previous: Option<Seq<char>>,
    p: ProfileSpec,
    command: Seq<char>,
)
    requires
        provider_config(view, previous, p, command) is Ok,
    ensures
        ({
            let v = provider_config(view, previous, p, command)->Ok_0;
            &&& v[MODEL_PROVIDER_KEY@] == TomlView::Text(p.provider_id)
            &&& v[MODEL_KEY@] == TomlView::Text(p.default_model)
            &&& v[MODEL_CATALOG_KEY@] == TomlView::Text(catalog_path_spec(p.provider_id))
            &&& holds_table(v, PROVIDERS_KEY@)
            &&& inner_table(v, PROVIDERS_KEY@)[p.provider_id] == TomlView::Table(
                provider_entries(p, command),
            )
            &&& match previous {
                Some(q) => q != p.provider_id ==> !inner_table(v, PROVIDERS_KEY@).contains_key(q),
                None => true,
            }
        }),
{
    lemma_managed_keys_distinct();
    match previous {
        Some(q) => {
            lemma_without_provider_absent(view, q, q);
        },
        None => {},
    }
}

/// After the providers' tables are taken out one by one, none of them is
/// left, and no other root entry changed.
proof fn lemma_without_providers(view: TomlEntries, ids: Seq<Seq<char>>, key: Seq<char>)
    ensures
        forall|j: int|
            0 <= j < ids.len() ==> !(holds_table(without_providers(view, ids), PROVIDERS_KEY@)
                && inner_table(without_providers(view, ids), PROVIDERS_KEY@).contains_key(
                #[trigger] ids[j],
            )),
        key != PROVIDERS_KEY@ ==> without_providers(view, ids).contains_key(key)
            == view.contains_key(key),
        key != PROVIDERS_KEY@ && view.contains_key(key) ==> without_providers(view, ids)[key]
            == view[key],
    decreases ids.len(),
{
    if ids.len() > 0 {
        let rest = ids.drop_last();
        lemma_without_providers(view, rest, key);
        let before = without_providers(view, rest);
        if key != PROVIDERS_KEY@ {
            lemma_without_provider_frame(before, ids.last(), key);
        }
        assert forall|j: int| 0 <= j < ids.len() implies !(holds_table(
            without_providers(view, ids),
            PROVIDERS_KEY@,
        ) && inner_table(without_providers(view, ids), PROVIDERS_KEY@).contains_key(
            #[trigger] ids[j],
        )) by {
            lemma_without_provider_absent(before, ids.last(), ids[j]);
            if j < ids.len() - 1 {
                assert(rest[j] == ids[j]);
            }
        }
    }
}

/// The official form of a configuration names `openai`, names no catalog,
/// holds no table of a managed provider, and keeps every other root entry.
pub proof fn lemma_official_form(view: TomlEntries, ids: Seq<Seq<char>>, key: Seq<char>)
    ensures
        official_entries(view, ids)[MODEL_PROVIDER_KEY@] == TomlView::Text(OFFICIAL_PROVIDER_ID@),
        !official_entries(view, ids).contains_key(MODEL_CATALOG_KEY@),
        forall|j: int|
            0 <= j < ids.len() ==> !(holds_table(official_entries(view, ids), PROVIDERS_KEY@)
                && inner_table(official_entries(view, ids), PROVIDERS_KEY@).contains_key(
                #[trigger] ids[j],
            )),
        key != MODEL_PROVIDER_KEY@ && key != MODEL_CATALOG_KEY@ && key != PROVIDERS_KEY@
            ==> official_entries(view, ids).contains_key(key) == view.contains_key(key),
        key != MODEL_PROVIDER_KEY@ && key != MODEL_CATALOG_KEY@ && key != PROVIDERS_KEY@
            && view.contains_key(key) ==> official_entries(view, ids)[key] == view[key],
{
    lemma_managed_keys_distinct();
    let start = view.insert(MODEL_PROVIDER_KEY@, TomlView::Text(OFFICIAL_PROVIDER_ID@)).remove(
        MODEL_CATALOG_KEY@,
    );
    lemma_without_providers(start, ids, key);
    lemma_without_providers(start, ids, MODEL_PROVIDER_KEY@);
    lemma_without_providers(start, ids, MODEL_CATALOG_KEY@);
}

/// Switching to a provider and then restoring the official configuration
/// gives back every root entry that the switch does not manage, takes
/// `model` from the official baseline, names `openai` and no catalog, and
/// leaves no `model_providers` behind when there was none before.
pub proof fn lemma_restore_after_switch(
    view: TomlEntries,
    previous: Option<Seq<char>>,
    p: ProfileSpec,
    command: Seq<char>,
    baseline: TomlEntries,
    key: Seq<char>,
)
    requires
        provider_config(view, previous, p, command) is Ok,
    ensures
        ({
            let after = merged_official(
                provider_config(view, previous, p, command)->Ok_0,
                baseline,
                Some(p.provider_id),
            );
            &&& after[MODEL_PROVIDER_KEY@] == TomlView::Text(OFFICIAL_PROVIDER_ID@)
            &&& !after.contains_key(MODEL_CATALOG_KEY@)
            &&& after.contains_key(MODEL_KEY@) == baseline.contains_key(MODEL_KEY@)
            &&& baseline.contains_key(MODEL_KEY@) ==> after[MODEL_KEY@] == baseline[MODEL_KEY@]
            &&& !view.contains_key(PROVIDERS_KEY@) ==> !after.contains_key(PROVIDERS_KEY@)
            &&& key != MODEL_PROVIDER_KEY@ && key != MODEL_KEY@ && key != MODEL_CATALOG_KEY@ && key
                != PROVIDERS_KEY@ ==> after.contains_key(key) == view.contains_key(key)
            &&& key != MODEL_PROVIDER_KEY@ && key != MODEL_KEY@ && key != MODEL_CATALOG_KEY@ && key
                != PROVIDERS_KEY@ && view.contains_key(key) ==> after[key] == view[key]
        }),
{
    lemma_managed_keys_distinct();
    let switched = provider_config(view, previous, p, command)->Ok_0;
    if key != MODEL_PROVIDER_KEY@ && key != MODEL_KEY@ && key != MODEL_CATALOG_KEY@ && key
        != PROVIDERS_KEY@ {
        lemma_switch_keeps_other_entries(view, previous, p, command, key);
    }
    let v = restored(switched, baseline, MODEL_KEY@).insert(
        MODEL_PROVIDER_KEY@,
        TomlView::Text(OFFICIAL_PROVIDER_ID@),
    ).remove(MODEL_CATALOG_KEY@);
    if !view.contains_key(PROVIDERS_KEY@) {
        let base = match previous {
            Some(id) => without_provider(view, id),
            None => view,
        };
        assert(!base.contains_key(PROVIDERS_KEY@));
        assert(inner_table(switched, PROVIDERS_KEY@) =~= Map::empty().insert(
            p.provider_id,
            TomlView::Table(provider_entries(p, command)),
        ));
        assert(inner_table(v, PROVIDERS_KEY@).remove(p.provider_id) =~= Map::empty());
    }
}

/// The standard table under `key`, if there is one.
pub open spec fn table_at(m: TomlEntries, key: Seq<char>) -> Option<TomlEntries> {
    if m.contains_key(key) {
        match m[key] {
            TomlView::Table(t) => Some(t),
            _ => None,
        }
    } else {
        None
    }
}

/// The credential helper arguments that a switch writes for provider `p`,
/// as the helper reads them: the token flag, then the stored profile's ID.
/// The helper finds the flag first and takes the argument after it, so it
/// asks for the key of `p` itself, whatever `p`'s provider ID is.
pub proof fn lemma_helper_names_the_profile(
    view: TomlEntries,
    previous: Option<Seq<char>>,
    p: ProfileSpec,
    command: Seq<char>,
)
    requires
        provider_config(view, previous, p, command) is Ok,
    ensures
        ({
            let v = provider_config(view, previous, p, command)->Ok_0;
            let providers = table_at(v, PROVIDERS_KEY@)->Some_0;
            let table = table_at(providers, p.provider_id)->Some_0;
            let auth = table_at(table, "auth"@)->Some_0;
            &&& table_at(v, PROVIDERS_KEY@) is Some
            &&& table_at(providers, p.provider_id) is Some
            &&& table_at(table, "auth"@) is Some
            &&& auth.contains_key("args"@)
            &&& auth["args"@] == TomlView::Array(
                seq![TomlView::Text("--codex-provider-token"@), TomlView::Text(p.id)],
            )
            &&& auth.contains_key("command"@)
            &&& auth["command"@] == TomlView::Text(command)
        }),
        flag_index(seq!["--codex-provider-token"@, p.id], 0) == 0,
{
    reveal_strlit("--codex-provider-token");
    reveal_strlit("args");
    reveal_strlit("command");
    reveal_strlit("timeout_ms");
    reveal_strlit("refresh_interval_ms");
    reveal_strlit("auth");
    reveal_strlit("supports_websockets");
    let v = provider_config(view, previous, p, command)->Ok_0;
    let w = with_providers_key(selected_entries(view, previous, p));
    let providers = inner_table(w, PROVIDERS_KEY@).insert(
        p.provider_id,
        TomlView::Table(provider_entries(p, command)),
    );
    assert(v == w.insert(PROVIDERS_KEY@, TomlView::Table(providers)));
    assert(v[PROVIDERS_KEY@] == TomlView::Table(providers));
    assert(providers[p.provider_id] == TomlView::Table(provider_entries(p, command)));
    let table = provider_entries(p, command);
    assert(table["auth"@] == TomlView::Table(helper_entries(command, p.id)));
    let auth = helper_entries(command, p.id);
    assert("args"@ != "timeout_ms"@ && "args"@ != "refresh_interval_ms"@) by {
        assert("args"@.len() != "timeout_ms"@.len());
        assert("args"@.len() != "refresh_interval_ms"@.len());
    }
    assert("command"@ != "args"@ && "command"@ != "timeout_ms"@ && "command"@ != "refresh_interval_ms"@) by {
        assert("command"@.len() != "args"@.len());
        assert("command"@.len() != "timeout_ms"@.len());
        assert("command"@.len() != "refresh_interval_ms"@.len());
    }
    assert(auth.contains_key("args"@));
    assert(auth["args"@] == TomlView::Array(
        seq![TomlView::Text(TOKEN_FLAG@), TomlView::Text(p.id)],
    ));
    assert(auth["command"@] == TomlView::Text(command));
    let args = seq!["--codex-provider-token"@, p.id];
    assert(args[0] == TOKEN_FLAG@);
}

/// Switching the configuration to provider `p` names `p`'s provider,
/// default model and catalog at the root, writes `p`'s table (its name,
/// base URL, the Responses wire API, no WebSockets), and keeps every other
/// root setting and every other provider's table as it was (but the
/// previous provider's table, which is taken out).
pub proof fn lemma_switch_keeps_unrelated_settings(
    view: TomlEntries,
    previous: Option<Seq<char>>,
    p: ProfileSpec,
    command: Seq<char>,
)
    requires
        provider_config(view, previous, p, command) is Ok,
    ensures
        ({
            let v = provider_config(view, previous, p, command)->Ok_0;
            let table = table_at(table_at(v, "model_providers"@)->Some_0, p.provider_id)->Some_0;
            &&& v.contains_key("model_provider"@) && v["model_provider"@] == TomlView::Text(p.provider_id)
            &&& v.contains_key("model"@) && v["model"@] == TomlView::Text(p.default_model)
            &&& v.contains_key("model_catalog_json"@) && v["model_catalog_json"@] == TomlView::Text(
                "model-catalogs/"@ + p.provider_id + ".json"@,
            )
            &&& table_at(v, "model_providers"@) is Some
            &&& table_at(table_at(v, "model_providers"@)->Some_0, p.provider_id) is Some
            &&& table.contains_key("name"@) && table["name"@] == TomlView::Text(p.name)
            &&& table.contains_key("base_url"@) && table["base_url"@] == TomlView::Text(p.base_url)
            &&& table.contains_key("wire_api"@) && table["wire_api"@] == TomlView::Text("responses"@)
            &&& table.contains_key("supports_websockets"@) && table["supports_websockets"@]
                == TomlView::Boolean(false)
            &&& forall|k: Seq<char>|
                k != "model_provider"@ && k != "model"@ && k != "model_catalog_json"@ && k
                    != "model_providers"@ && #[trigger] view.contains_key(k) ==> v.contains_key(k)
                    && v[k] == view[k]
            &&& forall|q: Seq<char>|
                q != p.provider_id && previous != Some(q) && table_at(view, "model_providers"@) is Some
                    && #[trigger] table_at(view, "model_providers"@)->Some_0.contains_key(q) ==> table_at(
                    v,
                    "model_providers"@,
                )->Some_0.contains_key(q) && table_at(v, "model_providers"@)->Some_0[q] == table_at(
                    view,
                    "model_providers"@,
                )->Some_0[q]
        }),
{
    reveal_strlit("model_provider");
    reveal_strlit("model");
    reveal_strlit("model_catalog_json");
    reveal_strlit("model_providers");
    reveal_strlit("name");
    reveal_strlit("base_url");
    reveal_strlit("wire_api");
    reveal_strlit("supports_websockets");
    reveal_strlit("auth");
    reveal_strlit("responses");
    reveal_strlit("model-catalogs/");
    reveal_strlit(".json");
    assert("model_provider"@ != "model"@ && "model_provider"@ != "model_catalog_json"@
        && "model_provider"@ != "model_providers"@ && "model"@ != "model_catalog_json"@
        && "model"@ != "model_providers"@ && "model_catalog_json"@ != "model_providers"@) by {
        assert("model_provider"@.len() == 14 && "model"@.len() == 5);
        assert("model_catalog_json"@.len() == 18 && "model_providers"@.len() == 15);
    }
    assert("name"@ != "base_url"@ && "name"@ != "wire_api"@ && "name"@ != "supports_websockets"@
        && "name"@ != "auth"@ && "base_url"@ != "wire_api"@ && "base_url"@ != "supports_websockets"@
        && "base_url"@ != "auth"@ && "wire_api"@ != "supports_websockets"@ && "wire_api"@ != "auth"@
        && "supports_websockets"@ != "auth"@) by {
        assert("name"@[0] != "auth"@[0]);
        assert("base_url"@[0] != "wire_api"@[0]);
        assert("name"@.len() != "base_url"@.len());
        assert("name"@.len() != "supports_websockets"@.len());
        assert("base_url"@.len() != "supports_websockets"@.len());
        assert("base_url"@.len() != "auth"@.len());
        assert("wire_api"@.len() != "auth"@.len());
        assert("wire_api"@.len() != "supports_websockets"@.len());
        assert("supports_websockets"@.len() != "auth"@.len());
        assert("name"@.len() != "wire_api"@.len());
    }
    let v = provider_config(view, previous, p, command)->Ok_0;
    let base = match previous {
        Some(id) => without_provider(view, id),
        None => view,
    };
    let sel = selected_entries(view, previous, p);
    let w = with_providers_key(sel);
    let providers = inner_table(w, PROVIDERS_KEY@).insert(
        p.provider_id,
        TomlView::Table(provider_entries(p, command)),
    );
    assert(v == w.insert(PROVIDERS_KEY@, TomlView::Table(providers)));
    assert(table_at(v, "model_providers"@) == Some(providers));
    assert(table_at(providers, p.provider_id) == Some(provider_entries(p, command)));
    assert(catalog_path_spec(p.provider_id) == "model-catalogs/"@ + p.provider_id + ".json"@);
    assert forall|k: Seq<char>|
        k != "model_provider"@ && k != "model"@ && k != "model_catalog_json"@ && k
            != "model_providers"@ && #[trigger] view.contains_key(k) implies v.contains_key(k)
            && v[k] == view[k] by {
        if previous is Some {
            assert(base.contains_key(k) && base[k] == view[k]);
        }
    }
    assert forall|q: Seq<char>|
        q != p.provider_id && previous != Some(q) && table_at(view, "model_providers"@) is Some
            && #[trigger] table_at(view, "model_providers"@)->Some_0.contains_key(q) implies table_at(
            v,
            "model_providers"@,
        )->Some_0.contains_key(q)
            && table_at(v, "model_providers"@)->Some_0[q] == table_at(view, "model_providers"@)->Some_0[q] by {
        let old = table_at(view, "model_providers"@)->Some_0;
        assert(holds_table(view, PROVIDERS_KEY@));
        assert(inner_table(view, PROVIDERS_KEY@) == old);
        match previous {
            Some(id) => {
                let rest = old.remove(id);
                assert(rest.contains_key(q));
                assert(rest != Map::<Seq<char>, TomlView>::empty());
                assert(base[PROVIDERS_KEY@] == TomlView::Table(rest));
                assert(w[PROVIDERS_KEY@] == TomlView::Table(rest));
                assert(inner_table(w, PROVIDERS_KEY@) == rest);
            },
            None => {
                assert(inner_table(w, PROVIDERS_KEY@) == old);
            },
        }
    }
}

} // verus!
