//! TOML documents edited in place, as `toml_edit` keeps them, with the
//! contents that the configuration logic reads modelled as plain values.

use vstd::prelude::*;

verus! {

/// What a TOML item holds, as the configuration logic sees it.
///
/// A standard table (`[name]`) and an inline table (`{ .. }`) are told apart,
/// since only the former can be edited as a table. Floats, date-times and
/// arrays of tables are kept by their rendered text.
pub enum TomlView {
    Text(Seq<char>),
    Integer(int),
    Boolean(bool),
    Array(Seq<TomlView>),
    InlineTable(Map<Seq<char>, TomlView>),
    Table(Map<Seq<char>, TomlView>),
    Other(Seq<char>),
}

#[verifier::external_type_specification]
#[verifier::external_body]
pub struct ExDocumentMut(toml_edit::DocumentMut);

#[verifier::external_type_specification]
#[verifier::external_body]
pub struct ExTable(toml_edit::Table);

/// The entries of a document's root table: each key whose item is not
/// empty, with what its item holds.
pub uninterp spec fn document_view(doc: toml_edit::DocumentMut) -> Map<Seq<char>, TomlView>;

/// The entries of a table: each key whose item is not empty, with what its
/// item holds.
pub uninterp spec fn table_view(table: toml_edit::Table) -> Map<Seq<char>, TomlView>;

/// What parsing a text as a TOML document gives: the root entries, or the
/// `Display` text of the parse error.
pub uninterp spec fn toml_parse(text: Seq<char>) -> Result<Map<Seq<char>, TomlView>, Seq<char>>;

/// The text that `Display` renders of a document.
pub uninterp spec fn toml_render(doc: toml_edit::DocumentMut) -> Seq<char>;

/// The view of a list of strings stored as a TOML array.
pub open spec fn text_array(items: Seq<String>) -> Seq<TomlView> {
    items.map_values(|s: String| TomlView::Text(s@))
}

/// Whether `key` holds a standard table in `view`.
pub open spec fn holds_table(view: Map<Seq<char>, TomlView>, key: Seq<char>) -> bool {
    view.contains_key(key) && view[key] is Table
}

/// The entries of the standard table held under `key`.
pub open spec fn inner_table(view: Map<Seq<char>, TomlView>, key: Seq<char>) -> Map<
    Seq<char>,
    TomlView,
> {
    view[key]->Table_0
}

/// Parses `text` with `str::parse::<toml_edit::DocumentMut>()`; the error is
/// handed out as its `Display` text. The contract claims that the outcome is
/// the parser's function of the text.
#[verifier::external_body]
pub(crate) fn parse_document(text: &str) -> (out: Result<toml_edit::DocumentMut, String>)
    ensures
        match out {
            Ok(doc) => toml_parse(text@) == Ok::<Map<Seq<char>, TomlView>, Seq<char>>(
                document_view(doc),
            ),
            Err(e) => toml_parse(text@) == Err::<Map<Seq<char>, TomlView>, Seq<char>>(e@),
        },
{
    text.parse::<toml_edit::DocumentMut>().map_err(|error| error.to_string())
}

/// `toml_edit::DocumentMut::new()`: a document with an empty root table.
#[verifier::external_body]
pub(crate) fn new_document() -> (out: toml_edit::DocumentMut)
    ensures
        document_view(out) =~= Map::empty(),
{
    toml_edit::DocumentMut::new()
}

/// The `Display` text of a document (`DocumentMut::to_string`).
#[verifier::external_body]
pub(crate) fn render_document(doc: &toml_edit::DocumentMut) -> (out: String)
    ensures
        out@ == toml_render(*doc),
{
    doc.to_string()
}

/// `doc.contains_key(key)`: whether the root table holds a non-empty item
/// under `key`.
#[verifier::external_body]
pub(crate) fn document_contains(doc: &toml_edit::DocumentMut, key: &str) -> (out: bool)
    ensures
        out == document_view(*doc).contains_key(key@),
{
    doc.contains_key(key)
}

/// `doc.contains_table(key)`: whether the root table holds a standard table
/// under `key`.
#[verifier::external_body]
pub(crate) fn document_holds_table(doc: &toml_edit::DocumentMut, key: &str) -> (out: bool)
    ensures
        out == holds_table(document_view(*doc), key@),
{
    doc.contains_table(key)
}

/// The string that the root table holds under `key`
/// (`get`, `Item::as_value`, `Value::as_str`); `None` when the item is
/// missing or is not a string.
#[verifier::external_body]
pub(crate) fn document_text(doc: &toml_edit::DocumentMut, key: &str) -> (out: Option<String>)
    ensures
        match out {
            Some(s) => document_view(*doc).contains_key(key@) && document_view(*doc)[key@]
                == TomlView::Text(s@),
            None => !(document_view(*doc).contains_key(key@) && document_view(
                *doc,
            )[key@] is Text),
        },
{
    doc.get(key).and_then(toml_edit::Item::as_value).and_then(toml_edit::Value::as_str).map(
        |text| text.to_string(),
    )
}

/// `doc[key] = toml_edit::value(text)`: the root entry under `key` becomes
/// that string; the other entries stay.
#[verifier::external_body]
pub(crate) fn document_set_text(doc: &mut toml_edit::DocumentMut, key: &str, text: &str)
    ensures
        document_view(*final(doc)) == document_view(*old(doc)).insert(key@, TomlView::Text(text@)),
{
    doc[key] = toml_edit::value(text);
}

/// `doc[key] = toml_edit::Item::Table(table)`.
#[verifier::external_body]
pub(crate) fn document_set_table(doc: &mut toml_edit::DocumentMut, key: &str, table: toml_edit::Table)
    ensures
        document_view(*final(doc)) == document_view(*old(doc)).insert(
            key@,
            TomlView::Table(table_view(table)),
        ),
{
    doc[key] = toml_edit::Item::Table(table);
}

/// `doc[key] = source[key].clone()`: copies one root entry of `source`.
#[verifier::external_body]
pub(crate) fn document_copy_entry(
    doc: &mut toml_edit::DocumentMut,
    source: &toml_edit::DocumentMut,
    key: &str,
)
    requires
        document_view(*source).contains_key(key@),
    ensures
        document_view(*final(doc)) == document_view(*old(doc)).insert(
            key@,
            document_view(*source)[key@],
        ),
{
    doc[key] = source[key].clone();
}

/// `doc.remove(key)` on the root table.
#[verifier::external_body]
pub(crate) fn document_remove(doc: &mut toml_edit::DocumentMut, key: &str)
    ensures
        document_view(*final(doc)) == document_view(*old(doc)).remove(key@),
{
    doc.remove(key);
}

/// `Table::remove(key)` on the standard table held under `outer`.
#[verifier::external_body]
pub(crate) fn document_table_remove(doc: &mut toml_edit::DocumentMut, outer: &str, key: &str)
    requires
        holds_table(document_view(*old(doc)), outer@),
    ensures
        document_view(*final(doc)) == document_view(*old(doc)).insert(
            outer@,
            TomlView::Table(inner_table(document_view(*old(doc)), outer@).remove(key@)),
        ),
{
    doc.get_mut(outer).and_then(toml_edit::Item::as_table_mut).map(|table| table.remove(key));
}

/// `Table::insert(key, Item::Table(table))` on the standard table held under
/// `outer`.
#[verifier::external_body]
pub(crate) fn document_table_insert(
    doc: &mut toml_edit::DocumentMut,
    outer: &str,
    key: &str,
    table: toml_edit::Table,
)
    requires
        holds_table(document_view(*old(doc)), outer@),
    ensures
        document_view(*final(doc)) == document_view(*old(doc)).insert(
            outer@,
            TomlView::Table(
                inner_table(document_view(*old(doc)), outer@).insert(
                    key@,
                    TomlView::Table(table_view(table)),
                ),
            ),
        ),
{
    doc.get_mut(outer).and_then(toml_edit::Item::as_table_mut).map(
        |inner| inner.insert(key, toml_edit::Item::Table(table)),
    );
}

/// `Table::is_empty` of the standard table held under `outer`.
#[verifier::external_body]
pub(crate) fn document_table_is_empty(doc: &toml_edit::DocumentMut, outer: &str) -> (out: bool)
    requires
        holds_table(document_view(*doc), outer@),
    ensures
        out == (inner_table(document_view(*doc), outer@) =~= Map::<Seq<char>, TomlView>::empty()),
{
    doc.get(outer).and_then(toml_edit::Item::as_table).is_some_and(toml_edit::Table::is_empty)
}

/// `toml_edit::Table::new()`.
#[verifier::external_body]
pub(crate) fn new_table() -> (out: toml_edit::Table)
    ensures
        table_view(out) =~= Map::empty(),
{
    toml_edit::Table::new()
}

/// `table.insert(key, toml_edit::value(text))`.
#[verifier::external_body]
pub(crate) fn table_set_text(table: &mut toml_edit::Table, key: &str, text: &str)
    ensures
        table_view(*final(table)) == table_view(*old(table)).insert(key@, TomlView::Text(text@)),
{
    table.insert(key, toml_edit::value(text));
}

/// `table.insert(key, toml_edit::value(flag))`.
#[verifier::external_body]
pub(crate) fn table_set_bool(table: &mut toml_edit::Table, key: &str, flag: bool)
    ensures
        table_view(*final(table)) == table_view(*old(table)).insert(key@, TomlView::Boolean(flag)),
{
    table.insert(key, toml_edit::value(flag));
}

/// `table.insert(key, toml_edit::value(number))`.
#[verifier::external_body]
pub(crate) fn table_set_integer(table: &mut toml_edit::Table, key: &str, number: i64)
    ensures
        table_view(*final(table)) == table_view(*old(table)).insert(
            key@,
            TomlView::Integer(number as int),
        ),
{
    table.insert(key, toml_edit::value(number));
}

/// `table.insert(key, toml_edit::value(array))` for an array of strings.
#[verifier::external_body]
pub(crate) fn table_set_text_array(table: &mut toml_edit::Table, key: &str, items: &Vec<String>)
    ensures
        table_view(*final(table)) == table_view(*old(table)).insert(
            key@,
            TomlView::Array(text_array(items@)),
        ),
{
    let array: toml_edit::Array = items.iter().map(|item| item.as_str()).collect();
    table.insert(key, toml_edit::value(array));
}

/// `table.insert(key, toml_edit::Item::Table(inner))`.
#[verifier::external_body]
pub(crate) fn table_set_table(table: &mut toml_edit::Table, key: &str, inner: toml_edit::Table)
    ensures
        table_view(*final(table)) == table_view(*old(table)).insert(
            key@,
            TomlView::Table(table_view(inner)),
        ),
{
    table.insert(key, toml_edit::Item::Table(inner));
}

} // verus!
