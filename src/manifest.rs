use vstd::prelude::*;
use toml_edit::{Array, DocumentMut, Item, Table, Value};
use crate::error::Error;

verus! {

#[verifier::external_type_specification]
#[verifier::external_body]
pub struct ExDocumentMut(toml_edit::DocumentMut);

#[verifier::external_type_specification]
#[verifier::external_body]
pub struct ExTomlError(toml_edit::TomlError);

/// The document that a text parses to, if it is valid TOML.
pub uninterp spec fn parse_of(text: Seq<char>) -> Option<DocumentMut>;

/// The text that a document renders to.
pub uninterp spec fn text_of(d: DocumentMut) -> Seq<char>;

/// The entries at `workspace.members`: `None` when `workspace` is there and is
/// not a table, or `members` is there and is not an array; an absent entry counts
/// as an empty list. Each member is its string, or `None` where it is no string.
pub uninterp spec fn workspace_members(d: DocumentMut) -> Option<Seq<Option<Seq<char>>>>;

/// The document's root item is a table, as a parsed document's always is.
pub uninterp spec fn root_is_table(d: DocumentMut) -> bool;

/// The text of the document with `workspace.members` emptied: the document as
/// it would be after `workspace` and its `members` were made where absent, by
/// `Table::entry(..).or_insert` and `Item::or_insert` with `Table::new()` and
/// `Array::new()`, and that array's values were cleared by `Array::clear`.
/// Every byte of the text off the members' values is in it.
pub uninterp spec fn text_beside_members(d: DocumentMut) -> Seq<char>;

/// Relies on `DocumentMut::from_str` of toml_edit: it parses the text, or fails.
#[verifier::external_body]
fn parse_document(text: &str) -> (r: Result<DocumentMut, toml_edit::TomlError>)
    ensures
        match r {
            Ok(d) => parse_of(text@) == Some(d) && root_is_table(d),
            Err(_) => parse_of(text@) is None,
        },
{
    text.parse::<DocumentMut>()
}

/// Relies on toml_edit's `Display` for `DocumentMut`.
#[verifier::external_body]
fn render_document(d: &DocumentMut) -> (r: String)
    requires
        root_is_table(*d),
    ensures
        r@ == text_of(*d),
{
    d.to_string()
}

/// Relies on toml_edit's `Table::get`, `Item::as_table`, `Item::as_array` and
/// `Value::as_str`: reads the members as they stand.
#[verifier::external_body]
fn read_members(d: &DocumentMut) -> (r: Option<Vec<Option<String>>>)
    requires
        root_is_table(*d),
    ensures
        match r {
            Some(v) => workspace_members(*d) == Some(v@.map_values(|m: Option<String>| match m {
                Some(s) => Some(s@),
                None => None,
            })),
            None => workspace_members(*d) is None,
        },
{
    let members = match d.as_table().get("workspace") {
        None => return Some(Vec::new()),
        Some(ws) => match ws.as_table() {
            None => return None,
            Some(t) => t.get("members"),
        },
    };
    match members {
        None => Some(Vec::new()),
        Some(m) => m.as_array().map(|a| a.iter().map(|v| v.as_str().map(|s| s.to_string())).collect()),
    }
}

/// Relies on toml_edit's `Table::entry`, `Item::or_insert` and `Array::push`:
/// the `workspace` table and its `members` array are made where absent, and the
/// name goes to the end of the array; nothing else is touched.
#[verifier::external_body]
fn push_member(d: &mut DocumentMut, name: &str)
    requires
        root_is_table(*old(d)),
        workspace_members(*old(d)) is Some,
    ensures
        root_is_table(*final(d)),
        workspace_members(*final(d)) == Some(workspace_members(*old(d))->Some_0.push(Some(name@))),
        text_beside_members(*final(d)) == text_beside_members(*old(d)),
{
    let ws = d.as_table_mut().entry("workspace").or_insert(Item::None).or_insert(Item::Table(Table::new()));
    if let Some(t) = ws.as_table_mut() {
        let m = t.entry("members").or_insert(Item::None).or_insert(Item::Value(Value::Array(Array::new())));
        if let Some(a) = m.as_array_mut() {
            a.push(name);
        }
    }
}

/// The text of a fresh workspace manifest that lists no member yet.
pub fn default_manifest() -> (r: String)
    ensures
        r@ == "[workspace]\nmembers = []\n"@,
{
    String::from_str("[workspace]\nmembers = []\n")
}

/// Parses the text of a manifest.
pub fn parse_manifest(text: &str) -> (r: Result<DocumentMut, Error>)
    ensures
        match parse_of(text@) {
            Some(d) => r == Ok::<DocumentMut, Error>(d) && root_is_table(d),
            None => r == Err::<DocumentMut, Error>(Error::ParseToml),
        },
{
    match parse_document(text) {
        Ok(d) => Ok(d),
        Err(_) => Err(Error::ParseToml),
    }
}

/// The text that the manifest is written back as.
pub fn manifest_text(d: &DocumentMut) -> (r: String)
    requires
        root_is_table(*d),
    ensures
        r@ == text_of(*d),
{
    render_document(d)
}

/// How many times `name` is listed among `members`.
pub open spec fn occurrences(members: Seq<Option<Seq<char>>>, name: Seq<char>) -> nat {
    members.to_multiset().count(Some(name))
}

/// Whether some member, read as a string, equals `name`.
fn is_listed(members: &Vec<Option<String>>, name: &str) -> (r: bool)
    ensures
        r == members@.map_values(|m: Option<String>| match m {
            Some(s) => Some(s@),
            None => None,
        }).contains(Some(name@)),
{
    let ghost view = members@.map_values(|m: Option<String>| match m {
        Some(s) => Some(s@),
        None => None,
    });
    let target = name.to_owned();
    let mut i: usize = 0;
    while i < members.len()
        invariant
            target@ == name@,
            i <= members@.len(),
            view == members@.map_values(|m: Option<String>| match m {
                Some(s) => Some(s@),
                None => None,
            }),
            forall|j: int| 0 <= j < i ==> view[j] != Some(name@),
        decreases members@.len() - i,
    {
        match &members[i] {
            Some(s) => {
                if *s == target {
                    assert(view[i as int] == Some(name@));
                    return true;
                }
            },
            None => {},
        }
        i = i + 1;
    }
    assert(!view.contains(Some(name@))) by {
        assert forall|j: int| 0 <= j < view.len() implies view[j] != Some(name@) by {}
    }
    false
}

/// Registers `name` as a member of the workspace.
///
/// Fails with `MalformedToml` where `workspace` is not a table or `members` not
/// an array, and with `CrateAlreadyExists` where the name is listed already; the
/// document is then left as it was. Otherwise the name is appended to the
/// members, creating the table and array where absent, and the rest of the
/// document's text stays as it was.
pub fn add_member(doc: &mut DocumentMut, name: &str) -> (r: Result<(), Error>)
    requires
        root_is_table(*old(doc)),
    ensures
        root_is_table(*final(doc)),
        match workspace_members(*old(doc)) {
            None => r == Err::<(), Error>(Error::MalformedToml) && *final(doc) == *old(doc),
            Some(members) => if members.contains(Some(name@)) {
                &&& r is Err
                &&& r->Err_0 is CrateAlreadyExists
                &&& r->Err_0->CrateAlreadyExists_0@ == name@
                &&& *final(doc) == *old(doc)
            } else {
                &&& r is Ok
                &&& workspace_members(*final(doc)) == Some(members.push(Some(name@)))
                &&& text_beside_members(*final(doc)) == text_beside_members(*old(doc))
            },
        },
{
    let members = match read_members(doc) {
        None => return Err(Error::MalformedToml),
        Some(m) => m,
    };
    if is_listed(&members, name) {
        return Err(Error::CrateAlreadyExists(name.to_owned()));
    }
    push_member(doc, name);
    Ok(())
}

/// Registers `name` as a member of the workspace in the manifest text `text`,
/// and gives the text to write back.
///
/// Fails with `ParseToml` where the text is no valid TOML, and otherwise as
/// `add_member` does; on success the text is that of the parsed document with
/// the member appended and the rest of its text as it was.
pub fn add_member_to_text(text: &str, name: &str) -> (r: Result<String, Error>)
    ensures
        match parse_of(text@) {
            None => r == Err::<String, Error>(Error::ParseToml),
            Some(d) => match workspace_members(d) {
                None => r == Err::<String, Error>(Error::MalformedToml),
                Some(members) => if members.contains(Some(name@)) {
                    &&& r is Err
                    &&& r->Err_0 is CrateAlreadyExists
                    &&& r->Err_0->CrateAlreadyExists_0@ == name@
                } else {
                    &&& r is Ok
                    &&& exists|after: DocumentMut| {
                        &&& workspace_members(after) == Some(members.push(Some(name@)))
                        &&& text_beside_members(after) == text_beside_members(d)
                        &&& r->Ok_0@ == text_of(after)
                    }
                },
            },
        },
{
    let mut doc = parse_manifest(text)?;
    add_member(&mut doc, name)?;
    Ok(manifest_text(&doc))
}

/// Adding a member that is not yet listed lists it exactly once more, leaves
/// every other member's count as it was, and keeps the earlier members in order
/// in front of it.
pub proof fn add_lists_once_more(members: Seq<Option<Seq<char>>>, name: Seq<char>)
    requires
        !members.contains(Some(name)),
    ensures
        occurrences(members, name) == 0,
        occurrences(members.push(Some(name)), name) == occurrences(members, name) + 1,
        forall|other: Seq<char>| other != name ==>
            occurrences(#[trigger] members.push(Some(name)), other) == occurrences(members, other),
        members.push(Some(name)).subrange(0, members.len() as int) == members,
{
    broadcast use vstd::seq_lib::group_to_multiset_ensures;
    assert(members.push(Some(name)).subrange(0, members.len() as int) =~= members);
}

} // verus!
