//! The model catalog that Codex reads for a custom provider.

use vstd::prelude::*;

use crate::json::{
    JsonSpec, JsonValue, as_str_spec, duplicate, get, get_spec, insert_member, insert_spec,
    lemma_get_inserted, lemma_get_other,
    items_view, json_parse, lemma_array_view, lemma_object_view, members_view, parse_json,
};
use crate::switcher::models::{ModelEntry, ModelSpec, models_view};
use crate::text::{ascii_lowercase, copy_str, lower, trim, trim_str};

verus! {

/// The models of Codex's own `models_cache.json` by lower-cased slug: every
/// object of the `models` array with a non-blank `slug`.
pub open spec fn native_entries(items: Seq<JsonSpec>) -> Seq<(Seq<char>, JsonSpec)>
    decreases items.len(),
{
    if items.len() == 0 {
        Seq::empty()
    } else {
        let prev = native_entries(items.drop_last());
        let m = items.last();
        match as_str_spec(get_spec(m, "slug"@)) {
            Some(slug) => if trim(slug).len() > 0 && m is Object {
                prev.push((lower(trim(slug)), m))
            } else {
                prev
            },
            None => prev,
        }
    }
}

pub open spec fn native_templates_spec(cache: JsonSpec) -> Seq<(Seq<char>, JsonSpec)> {
    match get_spec(cache, "models"@) {
        Some(JsonSpec::Array(items)) => native_entries(items),
        _ => Seq::empty(),
    }
}

pub open spec fn pairs_view(v: Seq<(String, JsonValue)>) -> Seq<(Seq<char>, JsonSpec)> {
    members_view(v)
}

pub fn native_model_templates(cache: &JsonValue) -> (out: Vec<(String, JsonValue)>)
    ensures
        pairs_view(out@) == native_templates_spec(cache@),
{
    let mut out: Vec<(String, JsonValue)> = Vec::new();
    let items = match get(cache, "models") {
        Some(JsonValue::Array(items)) => items,
        _ => {
            assert(pairs_view(out@) =~= Seq::<(Seq<char>, JsonSpec)>::empty());
            return out;
        },
    };
    proof {
        lemma_array_view(*items);
    }
    let ghost xs = items_view(items@);
    let mut i: usize = 0;
    assert(pairs_view(out@) =~= native_entries(xs.take(0)));
    while i < items.len()
        invariant
            i <= items.len(),
            xs == items_view(items@),
            pairs_view(out@) == native_entries(xs.take(i as int)),
        decreases items.len() - i,
    {
        assert(xs.take(i + 1).drop_last() =~= xs.take(i as int));
        assert(xs.take(i + 1).last() == items@[i as int]@);
        let model = &items[i];
        match get(model, "slug") {
            Some(JsonValue::Str(slug)) => {
                let t = trim_str(slug.as_str());
                let is_object = match model {
                    JsonValue::Object(_) => true,
                    _ => false,
                };
                if !t.as_str().is_empty() && is_object {
                    let key = ascii_lowercase(t.as_str());
                    let ghost before = pairs_view(out@);
                    let copy = duplicate(model);
                    let ghost kv = (key@, copy@);
                    out.push((key, copy));
                    assert(pairs_view(out@) =~= before.push(kv));
                }
            },
            _ => {},
        }
        i = i + 1;
    }
    assert(xs.take(i as int) =~= xs);
    out
}

/// The native model with the given slug; a later entry wins over an earlier
/// one with the same slug.
pub open spec fn native_lookup(entries: Seq<(Seq<char>, JsonSpec)>, key: Seq<char>) -> Option<
    JsonSpec,
>
    decreases entries.len(),
{
    if entries.len() == 0 {
        None
    } else if entries.last().0 == key {
        Some(entries.last().1)
    } else {
        native_lookup(entries.drop_last(), key)
    }
}

fn find_native<'a>(entries: &'a Vec<(String, JsonValue)>, key: &String) -> (out: Option<&'a JsonValue>)
    ensures
        match out {
            Some(v) => native_lookup(pairs_view(entries@), key@) == Some(v@),
            None => native_lookup(pairs_view(entries@), key@) is None,
        },
{
    let ghost es = pairs_view(entries@);
    let mut i: usize = entries.len();
    assert(es.take(i as int) =~= es);
    while i > 0
        invariant
            i <= entries.len(),
            es == pairs_view(entries@),
            native_lookup(es, key@) == native_lookup(es.take(i as int), key@),
        decreases i,
    {
        assert(es.take(i as int).last() == (entries@[i - 1].0@, entries@[i - 1].1@));
        assert(es.take(i as int).drop_last() =~= es.take(i - 1));
        if entries[i - 1].0 == *key {
            return Some(&entries[i - 1].1);
        }
        i = i - 1;
    }
    None
}

/// The catalog priority of the `index`-th model: 1000 plus its index,
/// wrapping at the width of `u64` (which no list of models reaches).
pub open spec fn priority_of(index: nat) -> u64 {
    if 1000 + index <= u64::MAX {
        (1000 + index) as u64
    } else {
        (1000 + index - 0x1_0000_0000_0000_0000) as u64
    }
}

/// The catalog entry of the `index`-th model, built on its native template
/// (else the built-in template); nothing when that template is not an
/// object.
pub open spec fn catalog_entry(
    m: ModelSpec,
    index: nat,
    template: JsonSpec,
    native: Seq<(Seq<char>, JsonSpec)>,
) -> Option<JsonSpec> {
    let base = match native_lookup(native, lower(m.id)) {
        Some(t) => t,
        None => template,
    };
    match base {
        JsonSpec::Object(ms) => {
            let a = insert_spec(ms, "slug"@, JsonSpec::Str(m.id));
            let b = insert_spec(a, "display_name"@, JsonSpec::Str(m.display_name));
            let c = insert_spec(b, "description"@, JsonSpec::Str(m.display_name));
            let d = insert_spec(c, "priority"@, JsonSpec::UInt(priority_of(index)));
            let e = insert_spec(d, "visibility"@, JsonSpec::Str("list"@));
            let f = insert_spec(e, "supported_in_api"@, JsonSpec::Bool(true));
            Some(
                JsonSpec::Object(
                    match m.context_window {
                        Some(w) => insert_spec(
                            insert_spec(f, "context_window"@, JsonSpec::UInt(w)),
                            "max_context_window"@,
                            JsonSpec::UInt(w),
                        ),
                        None => f,
                    },
                ),
            )
        },
        _ => None,
    }
}

/// The catalog entries of the first `n` models.
pub open spec fn catalog_spec(
    models: Seq<ModelSpec>,
    template: JsonSpec,
    native: Seq<(Seq<char>, JsonSpec)>,
    n: nat,
) -> Seq<JsonSpec>
    decreases n,
{
    if n == 0 {
        Seq::empty()
    } else {
        let prev = catalog_spec(models, template, native, (n - 1) as nat);
        match catalog_entry(models[n - 1], (n - 1) as nat, template, native) {
            Some(e) => prev.push(e),
            None => prev,
        }
    }
}

pub open spec fn values_view(v: Seq<JsonValue>) -> Seq<JsonSpec> {
    v.map_values(|x: JsonValue| x@)
}

fn str_value(s: &str) -> (v: JsonValue)
    ensures
        v@ == JsonSpec::Str(s@),
{
    JsonValue::Str(copy_str(s))
}

fn entry_for(
    m: &ModelEntry,
    index: usize,
    template: &JsonValue,
    native: &Vec<(String, JsonValue)>,
) -> (out: Option<JsonValue>)
    ensures
        match out {
            Some(v) => catalog_entry(m@, index as nat, template@, pairs_view(native@)) == Some(v@),
            None => catalog_entry(m@, index as nat, template@, pairs_view(native@)) is None,
        },
{
    let key = ascii_lowercase(m.id.as_str());
    let base = match find_native(native, &key) {
        Some(t) => duplicate(t),
        None => duplicate(template),
    };
    match base {
        JsonValue::Object(ms) => {
            proof {
                lemma_object_view(ms);
            }
            let mut ms = ms;
            insert_member(&mut ms, copy_str("slug"), str_value(m.id.as_str()));
            insert_member(&mut ms, copy_str("display_name"), str_value(m.display_name.as_str()));
            insert_member(&mut ms, copy_str("description"), str_value(m.display_name.as_str()));
            insert_member(&mut ms, copy_str("priority"), JsonValue::UInt((index as u64).wrapping_add(1000)));
            insert_member(&mut ms, copy_str("visibility"), str_value("list"));
            insert_member(&mut ms, copy_str("supported_in_api"), JsonValue::Bool(true));
            match m.context_window {
                Some(w) => {
                    insert_member(&mut ms, copy_str("context_window"), JsonValue::UInt(w));
                    insert_member(&mut ms, copy_str("max_context_window"), JsonValue::UInt(w));
                },
                None => {},
            }
            proof {
                lemma_object_view(ms);
            }
            Some(JsonValue::Object(ms))
        },
        _ => None,
    }
}

/// The entries of a provider's model catalog, in the order of its models.
pub fn catalog_entries(
    models: &Vec<ModelEntry>,
    template: &JsonValue,
    native: &Vec<(String, JsonValue)>,
) -> (out: Vec<JsonValue>)
    ensures
        values_view(out@) == catalog_spec(
            models_view(models@),
            template@,
            pairs_view(native@),
            models@.len() as nat,
        ),
        forall|k: int|
            0 <= k < out@.len() ==> get_spec(#[trigger] out@[k]@, "visibility"@) == Some(
                JsonSpec::Str("list"@),
            ) && get_spec(out@[k]@, "supported_in_api"@) == Some(JsonSpec::Bool(true)),
        forall|k: int|
            0 <= k < out@.len() ==> exists|i: int|
                0 <= i < models@.len() && describes(#[trigger] out@[k]@, models@[i]@),
{
    let mut out: Vec<JsonValue> = Vec::new();
    let mut i: usize = 0;
    while i < models.len()
        invariant
            i <= models.len(),
            values_view(out@) == catalog_spec(
                models_view(models@),
                template@,
                pairs_view(native@),
                i as nat,
            ),
        decreases models.len() - i,
    {
        assert(models_view(models@)[i as int] == models@[i as int]@);
        match entry_for(&models[i], i, template, native) {
            Some(e) => {
                let ghost before = values_view(out@);
                let ghost ev = e@;
                out.push(e);
                assert(values_view(out@) =~= before.push(ev));
            },
            None => {},
        }
        i = i + 1;
    }
    proof {
        lemma_catalog_entries_are_listed(
            models_view(models@),
            template@,
            pairs_view(native@),
            models@.len() as nat,
        );
        assert forall|k: int| 0 <= k < out@.len() implies get_spec(#[trigger] out@[k]@, "visibility"@)
            == Some(JsonSpec::Str("list"@)) && get_spec(out@[k]@, "supported_in_api"@) == Some(
            JsonSpec::Bool(true),
        ) by {
            assert(values_view(out@)[k] == out@[k]@);
        }
        lemma_catalog_entries_describe_models(
            models_view(models@),
            template@,
            pairs_view(native@),
            models@.len() as nat,
        );
        assert forall|k: int| 0 <= k < out@.len() implies exists|i: int|
            0 <= i < models@.len() && describes(#[trigger] out@[k]@, models@[i]@) by {
            assert(values_view(out@)[k] == out@[k]@);
            let i = choose|i: int|
                0 <= i < models@.len() && describes(
                    catalog_spec(
                        models_view(models@),
                        template@,
                        pairs_view(native@),
                        models@.len() as nat,
                    )[k],
                    models_view(models@)[i],
                );
            assert(models_view(models@)[i] == models@[i]@);
        }
    }
    out
}

/// The catalog entries as the Codex menu reads them: entries with a text
/// `slug` gain `id` (the slug) and `name` (the display name, else the slug).
pub open spec fn ui_models_spec(models: Seq<JsonSpec>) -> Seq<JsonSpec>
    decreases models.len(),
{
    if models.len() == 0 {
        Seq::empty()
    } else {
        let prev = ui_models_spec(models.drop_last());
        let m = models.last();
        match (m, as_str_spec(get_spec(m, "slug"@))) {
            (JsonSpec::Object(ms), Some(slug)) => {
                let name = match as_str_spec(get_spec(m, "display_name"@)) {
                    Some(d) => d,
                    None => slug,
                };
                prev.push(
                    JsonSpec::Object(
                        insert_spec(
                            insert_spec(ms, "id"@, JsonSpec::Str(slug)),
                            "name"@,
                            JsonSpec::Str(name),
                        ),
                    ),
                )
            },
            _ => prev,
        }
    }
}

pub fn ui_models(models: &Vec<JsonValue>) -> (out: Vec<JsonValue>)
    ensures
        values_view(out@) == ui_models_spec(values_view(models@)),
{
    let ghost xs = values_view(models@);
    let mut out: Vec<JsonValue> = Vec::new();
    let mut i: usize = 0;
    assert(values_view(out@) =~= ui_models_spec(xs.take(0)));
    while i < models.len()
        invariant
            i <= models.len(),
            xs == values_view(models@),
            values_view(out@) == ui_models_spec(xs.take(i as int)),
        decreases models.len() - i,
    {
        assert(xs.take(i + 1).drop_last() =~= xs.take(i as int));
        assert(xs.take(i + 1).last() == models@[i as int]@);
        match &models[i] {
            JsonValue::Object(ms) => {
                proof {
                    lemma_object_view(*ms);
                }
                match get(&models[i], "slug") {
                    Some(JsonValue::Str(slug)) => {
                        let name = match get(&models[i], "display_name") {
                            Some(JsonValue::Str(d)) => copy_str(d.as_str()),
                            _ => copy_str(slug.as_str()),
                        };
                        let mut copy: Vec<(String, JsonValue)> = Vec::new();
                        let mut k: usize = 0;
                        while k < ms.len()
                            invariant
                                k <= ms.len(),
                                copy@.len() == k,
                                forall|j: int|
                                    0 <= j < k ==> (#[trigger] copy@[j]).0@ == ms@[j].0@
                                        && copy@[j].1@ == ms@[j].1@,
                            decreases ms.len() - k,
                        {
                            copy.push((copy_str(ms[k].0.as_str()), duplicate(&ms[k].1)));
                            k = k + 1;
                        }
                        assert(members_view(copy@) =~= members_view(ms@));
                        insert_member(&mut copy, copy_str("id"), str_value(slug.as_str()));
                        insert_member(&mut copy, copy_str("name"), str_value(name.as_str()));
                        proof {
                            lemma_object_view(copy);
                        }
                        let ghost before = values_view(out@);
                        let e = JsonValue::Object(copy);
                        let ghost ev = e@;
                        out.push(e);
                        assert(values_view(out@) =~= before.push(ev));
                    },
                    _ => {},
                }
            },
            _ => {},
        }
        i = i + 1;
    }
    assert(xs.take(i as int) =~= xs);
    out
}

/// The model templates in the text of Codex's model cache: none when the
/// text is no JSON; otherwise as `native_model_templates` finds them.
pub fn native_templates_from_text(text: &str) -> (out: Vec<(String, JsonValue)>)
    ensures
        pairs_view(out@) == (match json_parse(text@) {
            Ok(cache) => native_templates_spec(cache),
            Err(_) => Seq::empty(),
        }),
{
    match parse_json(text) {
        Ok(cache) => native_model_templates(&cache),
        Err(_) => {
            let out: Vec<(String, JsonValue)> = Vec::new();
            assert(pairs_view(out@) =~= Seq::<(Seq<char>, JsonSpec)>::empty());
            out
        },
    }
}

/// Every entry of a provider's model catalog is listed in Codex's model
/// picker and usable through the API: its `visibility` is `"list"` and its
/// `supported_in_api` is `true`, whatever the template and the native
/// templates hold.
pub proof fn lemma_catalog_entries_are_listed(
    models: Seq<ModelSpec>,
    template: JsonSpec,
    native: Seq<(Seq<char>, JsonSpec)>,
    n: nat,
)
    ensures
        forall|k: int|
            0 <= k < catalog_spec(models, template, native, n).len() ==> {
                let e = #[trigger] catalog_spec(models, template, native, n)[k];
                &&& e is Object
                &&& get_spec(e, "visibility"@) == Some(JsonSpec::Str("list"@))
                &&& get_spec(e, "supported_in_api"@) == Some(JsonSpec::Bool(true))
            },
    decreases n,
{
    if n > 0 {
        lemma_catalog_entries_are_listed(models, template, native, (n - 1) as nat);
        let prev = catalog_spec(models, template, native, (n - 1) as nat);
        match catalog_entry(models[n - 1], (n - 1) as nat, template, native) {
            Some(e) => {
                lemma_catalog_entry_is_listed(models[n - 1], (n - 1) as nat, template, native);
                assert forall|k: int| 0 <= k < prev.push(e).len() implies {
                    let x = #[trigger] prev.push(e)[k];
                    &&& x is Object
                    &&& get_spec(x, "visibility"@) == Some(JsonSpec::Str("list"@))
                    &&& get_spec(x, "supported_in_api"@) == Some(JsonSpec::Bool(true))
                } by {
                    if k < prev.len() {
                        assert(prev.push(e)[k] == prev[k]);
                    }
                }
            },
            None => {},
        }
    }
}

/// A catalog entry describes model `m`: its slug is the model's ID, its
/// display name and description are the model's display name, and a known
/// context window is its context window and its largest one.
pub open spec fn describes(e: JsonSpec, m: ModelSpec) -> bool {
    &&& get_spec(e, "slug"@) == Some(JsonSpec::Str(m.id))
    &&& get_spec(e, "display_name"@) == Some(JsonSpec::Str(m.display_name))
    &&& get_spec(e, "description"@) == Some(JsonSpec::Str(m.display_name))
    &&& m.context_window matches Some(w) ==> get_spec(e, "context_window"@) == Some(JsonSpec::UInt(w))
        && get_spec(e, "max_context_window"@) == Some(JsonSpec::UInt(w))
}

/// Every entry of a provider's catalog describes one of its models.
pub proof fn lemma_catalog_entries_describe_models(
    models: Seq<ModelSpec>,
    template: JsonSpec,
    native: Seq<(Seq<char>, JsonSpec)>,
    n: nat,
)
    requires
        n <= models.len(),
    ensures
        forall|k: int|
            0 <= k < catalog_spec(models, template, native, n).len() ==> exists|i: int|
                0 <= i < n && describes(#[trigger] catalog_spec(models, template, native, n)[k], models[i]),
    decreases n,
{
    if n > 0 {
        lemma_catalog_entries_describe_models(models, template, native, (n - 1) as nat);
        let prev = catalog_spec(models, template, native, (n - 1) as nat);
        match catalog_entry(models[n - 1], (n - 1) as nat, template, native) {
            Some(e) => {
                lemma_catalog_entry_is_listed(models[n - 1], (n - 1) as nat, template, native);
                assert forall|k: int| 0 <= k < prev.push(e).len() implies exists|i: int|
                    0 <= i < n && describes(#[trigger] prev.push(e)[k], models[i]) by {
                    if k < prev.len() {
                        assert(prev.push(e)[k] == prev[k]);
                        let i = choose|i: int| 0 <= i < n - 1 && describes(prev[k], models[i]);
                        assert(describes(prev.push(e)[k], models[i]));
                    } else {
                        assert(describes(prev.push(e)[k], models[n - 1]));
                    }
                }
            },
            None => {},
        }
    }
}

proof fn lemma_catalog_entry_is_listed(
    m: ModelSpec,
    index: nat,
    template: JsonSpec,
    native: Seq<(Seq<char>, JsonSpec)>,
)
    requires
        catalog_entry(m, index, template, native) is Some,
    ensures
        ({
            let e = catalog_entry(m, index, template, native)->Some_0;
            &&& e is Object
            &&& get_spec(e, "visibility"@) == Some(JsonSpec::Str("list"@))
            &&& get_spec(e, "supported_in_api"@) == Some(JsonSpec::Bool(true))
            &&& describes(e, m)
        }),
{
    reveal_strlit("slug");
    reveal_strlit("display_name");
    reveal_strlit("description");
    reveal_strlit("priority");
    reveal_strlit("visibility");
    reveal_strlit("supported_in_api");
    reveal_strlit("context_window");
    reveal_strlit("max_context_window");
    let base = match native_lookup(native, lower(m.id)) {
        Some(t) => t,
        None => template,
    };
    let ms = base->Object_0;
    let a = insert_spec(ms, "slug"@, JsonSpec::Str(m.id));
    let b = insert_spec(a, "display_name"@, JsonSpec::Str(m.display_name));
    let c = insert_spec(b, "description"@, JsonSpec::Str(m.display_name));
    let d = insert_spec(c, "priority"@, JsonSpec::UInt(priority_of(index)));
    let e = insert_spec(d, "visibility"@, JsonSpec::Str("list"@));
    let f = insert_spec(e, "supported_in_api"@, JsonSpec::Bool(true));
    lemma_get_inserted(d, "visibility"@, JsonSpec::Str("list"@));
    lemma_get_inserted(e, "supported_in_api"@, JsonSpec::Bool(true));
    assert("visibility"@ != "supported_in_api"@) by {
        assert("visibility"@.len() != "supported_in_api"@.len());
    }
    lemma_get_other(e, "supported_in_api"@, JsonSpec::Bool(true), "visibility"@);
    let keys = seq![
        "slug"@,
        "display_name"@,
        "description"@,
        "priority"@,
        "visibility"@,
        "supported_in_api"@,
        "context_window"@,
        "max_context_window"@,
    ];
    assert(keys[0].len() == 4 && keys[1].len() == 12 && keys[2].len() == 11 && keys[3].len() == 8);
    assert(keys[4].len() == 10 && keys[5].len() == 16 && keys[6].len() == 14 && keys[7].len() == 18);
    assert(forall|x: int, y: int| 0 <= x < y < 8 ==> keys[x] != keys[y]);
    lemma_get_inserted(ms, "slug"@, JsonSpec::Str(m.id));
    lemma_get_inserted(a, "display_name"@, JsonSpec::Str(m.display_name));
    lemma_get_inserted(b, "description"@, JsonSpec::Str(m.display_name));
    lemma_get_other(a, "display_name"@, JsonSpec::Str(m.display_name), "slug"@);
    lemma_get_other(b, "description"@, JsonSpec::Str(m.display_name), "slug"@);
    lemma_get_other(b, "description"@, JsonSpec::Str(m.display_name), "display_name"@);
    lemma_get_other(c, "priority"@, JsonSpec::UInt(priority_of(index)), "slug"@);
    lemma_get_other(c, "priority"@, JsonSpec::UInt(priority_of(index)), "display_name"@);
    lemma_get_other(c, "priority"@, JsonSpec::UInt(priority_of(index)), "description"@);
    lemma_get_other(d, "visibility"@, JsonSpec::Str("list"@), "slug"@);
    lemma_get_other(d, "visibility"@, JsonSpec::Str("list"@), "display_name"@);
    lemma_get_other(d, "visibility"@, JsonSpec::Str("list"@), "description"@);
    lemma_get_other(e, "supported_in_api"@, JsonSpec::Bool(true), "slug"@);
    lemma_get_other(e, "supported_in_api"@, JsonSpec::Bool(true), "display_name"@);
    lemma_get_other(e, "supported_in_api"@, JsonSpec::Bool(true), "description"@);
    match m.context_window {
        Some(w) => {
            let g = insert_spec(f, "context_window"@, JsonSpec::UInt(w));
            assert("context_window"@ != "visibility"@) by {
                assert("context_window"@.len() != "visibility"@.len());
            }
            assert("context_window"@ != "supported_in_api"@) by {
                assert("context_window"@.len() != "supported_in_api"@.len());
            }
            assert("max_context_window"@ != "visibility"@) by {
                assert("max_context_window"@.len() != "visibility"@.len());
            }
            assert("max_context_window"@ != "supported_in_api"@) by {
                assert("max_context_window"@.len() != "supported_in_api"@.len());
            }
            lemma_get_other(f, "context_window"@, JsonSpec::UInt(w), "visibility"@);
            lemma_get_other(f, "context_window"@, JsonSpec::UInt(w), "supported_in_api"@);
            lemma_get_other(g, "max_context_window"@, JsonSpec::UInt(w), "visibility"@);
            lemma_get_other(g, "max_context_window"@, JsonSpec::UInt(w), "supported_in_api"@);
            lemma_get_inserted(f, "context_window"@, JsonSpec::UInt(w));
            lemma_get_inserted(g, "max_context_window"@, JsonSpec::UInt(w));
            lemma_get_other(g, "max_context_window"@, JsonSpec::UInt(w), "context_window"@);
            lemma_get_other(f, "context_window"@, JsonSpec::UInt(w), "slug"@);
            lemma_get_other(f, "context_window"@, JsonSpec::UInt(w), "display_name"@);
            lemma_get_other(f, "context_window"@, JsonSpec::UInt(w), "description"@);
            lemma_get_other(g, "max_context_window"@, JsonSpec::UInt(w), "slug"@);
            lemma_get_other(g, "max_context_window"@, JsonSpec::UInt(w), "display_name"@);
            lemma_get_other(g, "max_context_window"@, JsonSpec::UInt(w), "description"@);
        },
        None => {},
    }
}

} // verus!
