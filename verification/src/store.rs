//! The credential document and the merge of a token into it.
//!
//! A document is held as a `toml_edit::DocumentMut` and abstracted by
//! [`doc_model`]: a map from each top-level key to `Some` of its
//! string-valued entries when the key is bound to a table, and to `None`
//! when it is bound to anything else. [`toml_model`] names the model of the
//! document that a given text parses to, `None` when the text is not valid
//! TOML. The merge itself — overwrite or create `registry.token`, touch
//! nothing else — is verified against these models.

use vstd::prelude::*;
use crate::error::StoreError;

verus! {

/// The abstraction of a credential document: every top-level key, each
/// bound to `Some` of the map of its string-valued entries when the key
/// holds a table, and to `None` when it holds anything else.
pub type DocModel = Map<Seq<char>, Option<Map<Seq<char>, Seq<char>>>>;

#[verifier::external_type_specification]
#[verifier::external_body]
pub struct ExDocumentMut(toml_edit::DocumentMut);

#[verifier::external_type_specification]
#[verifier::external_body]
pub struct ExTomlError(toml_edit::TomlError);

/// The model of a parsed `toml_edit::DocumentMut`.
pub uninterp spec fn doc_model(d: toml_edit::DocumentMut) -> DocModel;

/// The model of the document that `s` parses to, or `None` when `s` is not
/// valid TOML. Parsing depends on the text alone.
pub uninterp spec fn toml_model(s: Seq<char>) -> Option<DocModel>;

/// The model of the document with nothing in it.
pub open spec fn empty_doc_model() -> DocModel {
    Map::empty()
}

/// The model of a section with nothing in it.
pub open spec fn empty_section() -> Map<Seq<char>, Seq<char>> {
    Map::empty()
}

/// The model `m` with the string `val` placed at `table.key`; meaningful
/// only where `m` binds `table` to a table.
pub open spec fn with_string_at(
    m: DocModel,
    table: Seq<char>,
    key: Seq<char>,
    val: Seq<char>,
) -> DocModel {
    m.insert(table, Some(m[table]->Some_0.insert(key, val)))
}

/// What a document stores under `table.key`: the value when `table` is a
/// table with a string at `key`, nothing otherwise.
pub open spec fn model_string_at(m: DocModel, table: Seq<char>, key: Seq<char>) -> Option<
    Seq<char>,
> {
    if m.dom().contains(table) && m[table] is Some && m[table]->Some_0.dom().contains(key) {
        Some(m[table]->Some_0[key])
    } else {
        None
    }
}

/// How a top-level key is bound in a document, as far as the merge cares:
/// absent, bound to a table, or bound to something else.
pub enum KeyKind {
    Absent,
    Table,
    Other,
}

/// Relies on `toml_edit::DocumentMut`'s `FromStr`: parsing succeeds exactly
/// on valid TOML, its result is a function of the text alone, and the empty
/// text parses to the empty document.
#[verifier::external_body]
fn parse_document(s: &str) -> (r: Result<toml_edit::DocumentMut, toml_edit::TomlError>)
    ensures
        r is Ok <==> toml_model(s@) is Some,
        r is Ok ==> toml_model(s@) == Some(doc_model(r->Ok_0)),
        s@ == Seq::<char>::empty() ==> r is Ok,
        s@ == Seq::<char>::empty() && r is Ok ==> doc_model(r->Ok_0) == empty_doc_model(),
{
    s.parse::<toml_edit::DocumentMut>()
}

/// Relies on `toml_edit::TomlError::message` for the parser's description
/// of a syntax error.
#[verifier::external_body]
fn toml_error_message(e: &toml_edit::TomlError) -> String {
    e.message().to_owned()
}

/// Relies on `toml_edit::Table::get` and `toml_edit::Item::as_table`: a
/// key is present exactly when the table holds a non-`None` item for it,
/// and `as_table` tells a genuine table apart from every other item.
#[verifier::external_body]
fn probe_key(d: &toml_edit::DocumentMut, key: &str) -> (r: KeyKind)
    ensures
        r is Absent <==> !doc_model(*d).dom().contains(key@),
        r is Table <==> (doc_model(*d).dom().contains(key@) && doc_model(*d)[key@] is Some),
        r is Other <==> (doc_model(*d).dom().contains(key@) && doc_model(*d)[key@] is None),
{
    match d.get(key) {
        None => KeyKind::Absent,
        Some(toml_edit::Item::Table(_)) => KeyKind::Table,
        Some(_) => KeyKind::Other,
    }
}

/// Relies on `toml_edit::Table::insert` (through the document's root
/// table): inserting a fresh empty table binds the key to it and leaves
/// every other entry as it was.
#[verifier::external_body]
fn insert_empty_table(d: &mut toml_edit::DocumentMut, key: &str)
    requires
        !doc_model(*old(d)).dom().contains(key@),
    ensures
        doc_model(*final(d)) == doc_model(*old(d)).insert(key@, Some(empty_section())),
{
    d.insert(key, toml_edit::Item::Table(toml_edit::Table::new()));
}

/// Relies on `toml_edit::Table::get_mut`, `toml_edit::Item::as_table_mut`
/// and `toml_edit::Table::insert`: inserting a string value into the table
/// under `table` binds `key` to that string inside it and leaves every
/// other entry, there and in the rest of the document, as it was.
#[verifier::external_body]
fn set_string_in_table(d: &mut toml_edit::DocumentMut, table: &str, key: &str, val: &str)
    requires
        doc_model(*old(d)).dom().contains(table@),
        doc_model(*old(d))[table@] is Some,
    ensures
        doc_model(*final(d)) == with_string_at(doc_model(*old(d)), table@, key@, val@),
{
    let t = d.get_mut(table).unwrap().as_table_mut().unwrap();
    t.insert(key, toml_edit::value(val));
}

/// Relies on `toml_edit::Table::get`, `toml_edit::Item::as_table`,
/// `toml_edit::Item::as_str` and `str::to_owned`: the string stored under
/// `table.key`, exactly when `table` is a table with a string there.
#[verifier::external_body]
fn get_string_in_table(d: &toml_edit::DocumentMut, table: &str, key: &str) -> (r: Option<String>)
    ensures
        r is Some <==> model_string_at(doc_model(*d), table@, key@) is Some,
        r is Some ==> model_string_at(doc_model(*d), table@, key@) == Some(r->Some_0@),
{
    match d.get(table) {
        None => None,
        Some(item) => match item.as_table() {
            None => None,
            Some(t) => match t.get(key) {
                None => None,
                Some(inner) => match inner.as_str() {
                    None => None,
                    Some(s) => Some(s.to_owned()),
                },
            },
        },
    }
}

/// Relies on `toml_edit::DocumentMut`'s `Display`: a document renders to
/// text that parses back to an equal document, so the rendered text's model
/// is the document's own.
#[verifier::external_body]
fn render_document(d: &toml_edit::DocumentMut) -> (r: String)
    ensures
        toml_model(r@) == Some(doc_model(*d)),
{
    d.to_string()
}

/// Whether the merge can place the token: the top-level `registry` key is
/// either absent or bound to a table.
pub open spec fn registry_mergeable(m: DocModel) -> bool {
    !m.dom().contains("registry"@) || m["registry"@] is Some
}

/// The model after merging `token` in: the `registry` table — fresh and
/// empty when the document had none — with its `token` entry set to
/// `token`, and everything else untouched.
pub open spec fn merged_model(m: DocModel, token: Seq<char>) -> DocModel {
    let inner = if m.dom().contains("registry"@) {
        m["registry"@]->Some_0
    } else {
        Map::<Seq<char>, Seq<char>>::empty()
    };
    m.insert("registry"@, Some(inner.insert("token"@, token)))
}

/// Merges `token` into the credential document held in `old_text` and
/// renders the result.
///
/// Succeeds exactly when `old_text` is valid TOML (the empty text counts)
/// whose `registry` key, if present, is a table; the result then models as
/// [`merged_model`] of the input: `registry.token` set to `token`, every
/// other field preserved. Fails with [`StoreError::Parse`] exactly on
/// invalid TOML and with [`StoreError::RegistryNotTable`] exactly when
/// `registry` is bound to a non-table.
pub fn merge_token(old_text: &str, token: &str) -> (r: Result<String, StoreError>)
    ensures
        r is Ok <==> (toml_model(old_text@) is Some && registry_mergeable(
            toml_model(old_text@)->Some_0,
        )),
        r matches Ok(s) ==> toml_model(s@) == Some(
            merged_model(toml_model(old_text@)->Some_0, token@),
        ),
        r matches Err(e) ==> (e is Parse <==> toml_model(old_text@) is None),
        r matches Err(e) ==> (e is RegistryNotTable <==> (toml_model(old_text@) is Some
            && !registry_mergeable(toml_model(old_text@)->Some_0))),
        old_text@ == Seq::<char>::empty() ==> toml_model(old_text@) == Some(empty_doc_model()),
{
    let mut doc = match parse_document(old_text) {
        Ok(d) => d,
        Err(e) => {
            return Err(StoreError::Parse(toml_error_message(&e)));
        },
    };
    let ghost m = doc_model(doc);
    match probe_key(&doc, "registry") {
        KeyKind::Table => {
            set_string_in_table(&mut doc, "registry", "token", token);
            proof {
                assert(doc_model(doc) =~~= merged_model(m, token@));
            }
        },
        KeyKind::Absent => {
            insert_empty_table(&mut doc, "registry");
            set_string_in_table(&mut doc, "registry", "token", token);
            proof {
                assert(doc_model(doc) =~~= merged_model(m, token@));
            }
        },
        KeyKind::Other => {
            return Err(StoreError::RegistryNotTable);
        },
    }
    Ok(render_document(&doc))
}

/// The string stored under `table.key` in `text`, exactly when `text` is
/// valid TOML binding `table` to a table with a string at `key`.
pub fn string_value_of(text: &str, table: &str, key: &str) -> (r: Option<String>)
    ensures
        r is Some <==> (toml_model(text@) is Some && model_string_at(
            toml_model(text@)->Some_0,
            table@,
            key@,
        ) is Some),
        r matches Some(s) ==> model_string_at(toml_model(text@)->Some_0, table@, key@) == Some(
            s@,
        ),
{
    match parse_document(text) {
        Ok(d) => get_string_in_table(&d, table, key),
        Err(_) => None,
    }
}

/// The token stored in a credential document, when there is one.
pub fn registry_token_of(text: &str) -> (r: Option<String>)
    ensures
        r is Some <==> (toml_model(text@) is Some && model_string_at(
            toml_model(text@)->Some_0,
            "registry"@,
            "token"@,
        ) is Some),
        r matches Some(s) ==> model_string_at(
            toml_model(text@)->Some_0,
            "registry"@,
            "token"@,
        ) == Some(s@),
{
    string_value_of(text, "registry", "token")
}

/// Merging a token is idempotent: merging the same token into a document
/// that already came out of the merge changes nothing.
pub proof fn lemma_merge_idempotent(m: DocModel, token: Seq<char>)
    ensures
        merged_model(merged_model(m, token), token) == merged_model(m, token),
{
    assert(merged_model(merged_model(m, token), token) =~~= merged_model(m, token));
}

/// The merge only touches `registry.token`: every other top-level key, and
/// every other entry of an existing `registry` table, keeps its binding.
pub proof fn lemma_merge_preserves_other_fields(
    m: DocModel,
    token: Seq<char>,
    section: Seq<char>,
    key: Seq<char>,
)
    ensures
        section != "registry"@ ==> (merged_model(m, token).dom().contains(section)
            <==> m.dom().contains(section)),
        section != "registry"@ && m.dom().contains(section) ==> merged_model(m, token)[section]
            == m[section],
        section != "registry"@ ==> model_string_at(merged_model(m, token), section, key)
            == model_string_at(m, section, key),
        key != "token"@ && registry_mergeable(m) ==> model_string_at(
            merged_model(m, token),
            "registry"@,
            key,
        ) == model_string_at(m, "registry"@, key),
{
}

/// The merge always lands the token: afterwards `registry` is a table whose
/// `token` entry is exactly the new value, whatever stood there before —
/// an existing token, an empty string, or nothing.
pub proof fn lemma_merge_sets_token(m: DocModel, token: Seq<char>)
    ensures
        model_string_at(merged_model(m, token), "registry"@, "token"@) == Some(token),
{
}

/// Merging into the empty document bootstraps it: the result holds the
/// `registry` section and nothing else.
pub proof fn lemma_merge_empty_bootstrap(token: Seq<char>)
    ensures
        merged_model(Map::empty(), token).dom() =~= Set::<Seq<char>>::empty().insert("registry"@),
        model_string_at(merged_model(Map::empty(), token), "registry"@, "token"@) == Some(token),
        merged_model(Map::empty(), token)["registry"@]->Some_0.dom() =~= Set::<
            Seq<char>,
        >::empty().insert("token"@),
{
}

} // verus!
