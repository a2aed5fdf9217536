//! Reading the manifest: the `[manifest]` header's version, timestamp and
//! assistant settings, entries looked up across tables, and whether a newer
//! manifest is available. TOML is parsed by `toml_edit`.
use crate::error::OwlError;
use crate::process::{opt_text, texts};
use crate::stamp::{compare_stamps, dot_parts, walk_parts, StampStep};
use core::cmp::Ordering;
use toml_edit::DocumentMut;
use vstd::prelude::*;

verus! {

#[verifier::external_type_specification]
#[verifier::external_body]
pub struct ExDocumentMut(DocumentMut);

/// What a TOML text holds where it parses: for each table and key, the
/// string stored there, or `None` for a value of another kind.
pub uninterp spec fn toml_entries(text: Seq<char>) -> Option<Map<(Seq<char>, Seq<char>), Option<Seq<char>>>>;

/// What a parsed document holds: for each table and key, the string stored
/// there, or `None` for a value of another kind.
pub uninterp spec fn doc_entries(d: DocumentMut) -> Map<(Seq<char>, Seq<char>), Option<Seq<char>>>;

/// Relies on `DocumentMut::from_str` (`str::parse`): it fails exactly on
/// text that is not TOML, and the document holds what the text says.
#[verifier::external_body]
fn parse_toml(text: &str) -> (r: Result<DocumentMut, String>)
    ensures
        r is Ok <==> toml_entries(text@) is Some,
        r matches Ok(d) ==> toml_entries(text@) == Some(doc_entries(d)),
{
    text.parse::<DocumentMut>().map_err(|e| e.to_string())
}

/// Relies on `Table::get` and `Item::get` to find `key` in table `table`,
/// and on `Item::as_str` for the string stored there.
#[verifier::external_body]
fn doc_entry(d: &DocumentMut, table: &str, key: &str) -> (r: Option<Option<String>>)
    ensures
        r is Some <==> doc_entries(*d).contains_key((table@, key@)),
        r matches Some(v) ==> opt_text(v) == doc_entries(*d)[(table@, key@)],
{
    d.get(table).and_then(|t| t.get(key)).map(|i| i.as_str().map(String::from))
}

/// The string at `key` of table `table`, if there is one.
pub open spec fn entry_text(
    m: Map<(Seq<char>, Seq<char>), Option<Seq<char>>>,
    table: Seq<char>,
    key: Seq<char>,
) -> Option<Seq<char>> {
    if m.contains_key((table, key)) {
        m[(table, key)]
    } else {
        None
    }
}

/// The strings at two keys of table `manifest` of a TOML text, where it
/// parses and both are there.
pub open spec fn manifest_pair(text: Seq<char>, k1: Seq<char>, k2: Seq<char>) -> Option<(Seq<char>, Seq<char>)> {
    match toml_entries(text) {
        Some(m) => match (entry_text(m, "manifest"@, k1), entry_text(m, "manifest"@, k2)) {
            (Some(a), Some(b)) => Some((a, b)),
            _ => None,
        },
        None => None,
    }
}

fn string_entry(d: &DocumentMut, table: &str, key: &str) -> (r: Result<String, OwlError>)
    ensures
        match entry_text(doc_entries(*d), table@, key@) {
            Some(s) => (r matches Ok(v) && v@ == s),
            None => r matches Err(OwlError::TomlError(_, _)),
        },
{
    match doc_entry(d, table, key) {
        Some(Some(s)) => Ok(s),
        _ => {
            let what = String::from_str("Failed to extract '").concat(key).concat("' from table '").concat(
                table,
            ).concat("'");
            Err(OwlError::TomlError(what, String::from_str("None")))
        },
    }
}

fn manifest_strings(text: &str, k1: &str, k2: &str) -> (r: Result<(String, String), OwlError>)
    ensures
        match manifest_pair(text@, k1@, k2@) {
            Some((a, b)) => (r matches Ok((x, y)) && x@ == a && y@ == b),
            None => r matches Err(OwlError::TomlError(_, _)),
        },
{
    let doc = match parse_toml(text) {
        Ok(d) => d,
        Err(e) => {
            return Err(OwlError::TomlError(String::from_str("Failed to parse manifest header as TOML"), e));
        },
    };
    let a = string_entry(&doc, "manifest", k1)?;
    let b = string_entry(&doc, "manifest", k2)?;
    Ok((a, b))
}

/// The version and timestamp in the `[manifest]` table of a manifest's
/// header.
pub fn get_manifest_version_timestamp(header: &str) -> (r: Result<(String, String), OwlError>)
    ensures
        match manifest_pair(header@, "version"@, "timestamp"@) {
            Some((v, t)) => (r matches Ok((x, y)) && x@ == v && y@ == t),
            None => r matches Err(OwlError::TomlError(_, _)),
        },
{
    manifest_strings(header, "version", "timestamp")
}

/// The assistant's SDK name and API key in the `[manifest]` table of a
/// manifest's header.
pub fn get_manifest_ai_sdk(header: &str) -> (r: Result<(String, String), OwlError>)
    ensures
        match manifest_pair(header@, "ai_sdk"@, "api_key"@) {
            Some((s, k)) => (r matches Ok((x, y)) && x@ == s && y@ == k),
            None => r matches Err(OwlError::TomlError(_, _)),
        },
{
    manifest_strings(header, "ai_sdk", "api_key")
}

/// The version in the `[manifest]` table of a manifest template.
pub fn get_embedded_version(toml_str: &str) -> (r: Result<String, OwlError>)
    ensures
        match toml_entries(toml_str@) {
            Some(m) => match entry_text(m, "manifest"@, "version"@) {
                Some(v) => (r matches Ok(x) && x@ == v),
                None => r matches Err(OwlError::TomlError(_, _)),
            },
            None => r matches Err(OwlError::TomlError(_, _)),
        },
{
    let doc = match parse_toml(toml_str) {
        Ok(d) => d,
        Err(e) => {
            return Err(OwlError::TomlError(String::from_str("Failed to parse str as TOML"), e));
        },
    };
    string_entry(&doc, "manifest", "version")
}

/// The entry `name` of the first of `tables`, from index `i` on, that holds
/// it: `Some(Some(s))` for a string, `Some(None)` for another value, `None`
/// where no table holds it.
pub open spec fn entry_from(
    m: Map<(Seq<char>, Seq<char>), Option<Seq<char>>>,
    tables: Seq<Seq<char>>,
    name: Seq<char>,
    i: nat,
) -> Option<Option<Seq<char>>>
    decreases tables.len() - i,
{
    if i >= tables.len() {
        None
    } else if m.contains_key((tables[i as int], name)) {
        Some(m[(tables[i as int], name)])
    } else {
        entry_from(m, tables, name, i + 1)
    }
}

/// The string entry `name` of the first of `tables` that holds it, in a
/// TOML document's text.
pub fn get_toml_entry(doc_text: &str, tables: &Vec<String>, name: &str) -> (r: Result<String, OwlError>)
    ensures
        match toml_entries(doc_text@) {
            None => r matches Err(OwlError::TomlError(_, _)),
            Some(m) => match entry_from(m, texts(tables@), name@, 0) {
                Some(Some(s)) => (r matches Ok(v) && v@ == s),
                Some(None) => r matches Err(OwlError::TomlError(_, _)),
                None => (r matches Err(OwlError::TomlError(x, _)) && x@ == name@),
            },
        },
{
    let doc = match parse_toml(doc_text) {
        Ok(d) => d,
        Err(e) => {
            return Err(OwlError::TomlError(String::from_str("Failed to parse TOML"), e));
        },
    };
    let ghost m = doc_entries(doc);
    let mut i: usize = 0;
    while i < tables.len()
        invariant
            i <= tables@.len(),
            m == doc_entries(doc),
            toml_entries(doc_text@) == Some(m),
            entry_from(m, texts(tables@), name@, 0) == entry_from(m, texts(tables@), name@, i as nat),
        decreases tables@.len() - i,
    {
        assert(texts(tables@)[i as int] == tables@[i as int]@);
        if doc_entry(&doc, tables[i].as_str(), name).is_some() {
            assert(entry_from(m, texts(tables@), name@, i as nat) == Some(m[(tables@[i as int]@, name@)]));
            return string_entry(&doc, tables[i].as_str(), name);
        }
        i = i + 1;
    }
    let info = String::from_str("'").concat(name).concat("': No such entry in manifest");
    Err(OwlError::TomlError(String::from_str(name), info))
}

/// Whether one stamp is behind another, where both compare.
pub open spec fn behind(local: Seq<char>, remote: Seq<char>) -> Option<bool> {
    match walk_parts(dot_parts(local), dot_parts(remote), 0) {
        StampStep::BadLeft(_) => None,
        StampStep::BadRight(_) => None,
        StampStep::Below => Some(true),
        StampStep::Finished => Some(false),
    }
}

fn is_behind(local: &str, remote: &str) -> (r: Result<bool, OwlError>)
    ensures
        match behind(local@, remote@) {
            Some(b) => r == Ok::<bool, OwlError>(b),
            None => r matches Err(OwlError::TomlError(_, _)),
        },
{
    match compare_stamps(local, remote) {
        Ok(Ordering::Less) => Ok(true),
        Ok(_) => Ok(false),
        Err(e) => Err(e),
    }
}

/// Whether the local manifest's version and timestamp are behind those in
/// the header of the remote manifest's text.
pub fn check_for_updates(remote_header: &str, local_version: &str, local_timestamp: &str) -> (r: Result<
    (bool, bool),
    OwlError,
>)
    ensures
        match manifest_pair(remote_header@, "version"@, "timestamp"@) {
            None => r matches Err(OwlError::TomlError(_, _)),
            Some((v, t)) => match (behind(local_version@, v), behind(local_timestamp@, t)) {
                (Some(a), Some(b)) => r == Ok::<(bool, bool), OwlError>((a, b)),
                _ => r matches Err(OwlError::TomlError(_, _)),
            },
        },
{
    let (v, t) = get_manifest_version_timestamp(remote_header)?;
    let a = is_behind(local_version, v.as_str())?;
    let b = is_behind(local_timestamp, t.as_str())?;
    Ok((a, b))
}

} // verus!
