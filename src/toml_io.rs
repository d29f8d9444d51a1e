//! The TOML documents that hold the configuration, read and written through `toml`.
use vstd::prelude::*;

verus! {

/// The top-level entries of a TOML document, in the order in which `toml`'s table
/// holds them: each key with its text where the value is a string, `None` where it is
/// another kind of value. `None` as a whole where the text is not a TOML document.
pub uninterp spec fn toml_entries(text: Seq<char>) -> Option<Seq<(Seq<char>, Option<Seq<char>>)>>;

/// The TOML document that `toml` writes for a table of string entries, if it writes one.
pub uninterp spec fn toml_text(entries: Seq<(Seq<char>, Seq<char>)>) -> Option<Seq<char>>;

/// Relies on `toml::from_str::<toml::Table>`, which parses a document into its
/// top-level table; a `toml::Value::String` entry is handed out as its text.
#[verifier::external_body]
pub(crate) fn parse_toml_entries(text: &str) -> (r: Option<Vec<(String, Option<String>)>>)
    ensures
        r.deep_view() == toml_entries(text@),
{
    let table: toml::Table = toml::from_str(text).ok()?;
    Some(table.into_iter().map(|(key, value)| match value {
        toml::Value::String(s) => (key, Some(s)),
        _ => (key, None),
    }).collect())
}

/// Relies on `toml::to_string` on a `toml::Table` whose values are all
/// `toml::Value::String`.
#[verifier::external_body]
pub(crate) fn render_toml_strings(entries: &Vec<(String, String)>) -> (r: Option<String>)
    ensures
        r.deep_view() == toml_text(entries.deep_view()),
{
    let table: toml::Table = entries.iter().map(|(k, v)| (k.clone(), toml::Value::String(v.clone()))).collect();
    toml::to_string(&table).ok()
}

/// The string value of the first entry named `key`, if that entry holds a string.
pub open spec fn string_entry(entries: Seq<(Seq<char>, Option<Seq<char>>)>, key: Seq<char>) -> Option<Seq<char>>
    decreases entries.len(),
{
    if entries.len() == 0 {
        None
    } else if entries[0].0 == key {
        entries[0].1
    } else {
        string_entry(entries.drop_first(), key)
    }
}

/// Finds the string value of the first entry named `key`.
pub fn find_string_entry(entries: &Vec<(String, Option<String>)>, key: &String) -> (r: Option<String>)
    ensures
        r.deep_view() == string_entry(entries.deep_view(), key@),
{
    let ghost all = entries.deep_view();
    let mut i: usize = 0;
    assert(all.subrange(0, all.len() as int) =~= all);
    while i < entries.len()
        invariant
            i <= entries.len(),
            all == entries.deep_view(),
            string_entry(all, key@) == string_entry(all.subrange(i as int, all.len() as int), key@),
        decreases entries.len() - i,
    {
        let ghost rest = all.subrange(i as int, all.len() as int);
        assert(rest.drop_first() =~= all.subrange(i as int + 1, all.len() as int));
        assert(rest[0] == all[i as int]);
        if entries[i].0 == *key {
            return entries[i].1.clone();
        }
        i = i + 1;
    }
    None
}

} // verus!
