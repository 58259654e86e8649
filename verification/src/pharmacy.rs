//! The pharmacy file: a TOML document whose table `Specs` names, for each
//! prescription, the document to validate against it.

use crate::document::name_text;
use crate::errors::{ErrorView, HowserError};
use vstd::prelude::*;
use vstd::string::StringExecFns;

verus! {

#[verifier::external_type_specification]
#[verifier::external_body]
pub struct ExTomlValue(toml::Value);

#[verifier::external_type_specification]
#[verifier::external_body]
pub struct ExTomlError(toml::de::Error);

/// What a TOML value holds, as far as a pharmacy file is concerned: a
/// string, a table of values by key, or something else.
pub ghost enum TomlView {
    Text(Seq<char>),
    Table(Map<Seq<char>, TomlView>),
    Other,
}

/// What a `toml::Value` holds.
pub uninterp spec fn toml_content(value: toml::Value) -> TomlView;

/// What parsing a text as TOML gives: the value of the whole document, or
/// nothing where the text is not TOML.
pub uninterp spec fn toml_parse(text: Seq<char>) -> Option<TomlView>;

/// `a` comes before `b` in the order of strings: character by character, a
/// proper prefix first.
pub open spec fn text_before(a: Seq<char>, b: Seq<char>) -> bool
    decreases a.len(),
{
    if b.len() == 0 {
        false
    } else if a.len() == 0 {
        true
    } else if a[0] != b[0] {
        (a[0] as u32) < (b[0] as u32)
    } else {
        text_before(a.drop_first(), b.drop_first())
    }
}

/// The string that a value is, if it is one.
pub open spec fn text_of(v: TomlView) -> Option<Seq<char>> {
    match v {
        TomlView::Text(s) => Some(s),
        _ => None,
    }
}

/// The table that a document holds under the key `Specs`, if it holds one.
pub open spec fn specs_table(doc: TomlView) -> Option<Map<Seq<char>, TomlView>> {
    match doc {
        TomlView::Table(m) => if m.contains_key("Specs"@) {
            match m["Specs"@] {
                TomlView::Table(specs) => Some(specs),
                _ => None,
            }
        } else {
            None
        },
        _ => None,
    }
}

/// The keys `keys` are those of the table `m`, each once, in the order of
/// strings.
pub open spec fn lists_keys(keys: Seq<Seq<char>>, m: Map<Seq<char>, TomlView>) -> bool {
    &&& forall|i: int| 0 <= i < keys.len() ==> m.contains_key(#[trigger] keys[i])
    &&& forall|i: int, j: int| 0 <= i < j < keys.len() ==> text_before(keys[i], keys[j])
    &&& forall|key: Seq<char>| #[trigger]
        m.contains_key(key) ==> exists|i: int| 0 <= i < keys.len() && keys[i] == key
}

/// The pairs of a pharmacy: for each key of the table `Specs`, in the order
/// of strings, the key and the string under it, or nothing where what
/// stands under it is no string.
pub open spec fn lists_specs(
    pairs: Seq<(Seq<char>, Option<Seq<char>>)>,
    specs: Map<Seq<char>, TomlView>,
) -> bool {
    &&& lists_keys(Seq::new(pairs.len(), |i: int| pairs[i].0), specs)
    &&& forall|i: int| 0 <= i < pairs.len() ==> (#[trigger] pairs[i]).1 == text_of(specs[pairs[i].0])
}

/// The model of the pairs of a pharmacy.
pub open spec fn pairs_view(pairs: Seq<(String, Option<String>)>) -> Seq<
    (Seq<char>, Option<Seq<char>>),
> {
    Seq::new(pairs.len(), |i: int| (pairs[i].0@, name_text(pairs[i].1)))
}

/// The message for a pharmacy file that holds no table `Specs`.
pub open spec fn unreadable_pharmacy_text(filename: Seq<char>) -> Seq<char> {
    "Error parsing pharmacy file "@ + filename + "."@
}

/// Calls `str::parse::<toml::Value>`, which hands the text to
/// `toml::de::from_str`. The value that comes back holds what the text
/// says; a text that is not TOML gives the parser's error.
#[verifier::external_body]
fn parse_toml(text: &str) -> (r: Result<toml::Value, toml::de::Error>)
    ensures
        match r {
            Ok(value) => toml_parse(text@) == Some(toml_content(value)),
            Err(_) => toml_parse(text@) is None,
        },
{
    text.parse::<toml::Value>()
}

/// Calls `toml::Value::get` with a string key: the value under that key
/// where the value is a table that has the key, nothing otherwise.
#[verifier::external_body]
fn value_get<'a>(value: &'a toml::Value, key: &str) -> (r: Option<&'a toml::Value>)
    ensures
        match toml_content(*value) {
            TomlView::Table(m) => if m.contains_key(key@) {
                r matches Some(found) && toml_content(*found) == m[key@]
            } else {
                r is None
            },
            _ => r is None,
        },
{
    value.get(key)
}

/// Calls `toml::Value::as_table` and walks the table, a `BTreeMap`, which
/// gives its entries in the order of their keys. The result is nothing
/// where the value is no table.
#[verifier::external_body]
fn table_entries<'a>(value: &'a toml::Value) -> (r: Option<Vec<(&'a String, &'a toml::Value)>>)
    ensures
        match toml_content(*value) {
            TomlView::Table(m) => r matches Some(entries) && lists_keys(
                Seq::new(entries@.len(), |i: int| entries@[i].0@),
                m,
            ) && forall|i: int|
                0 <= i < entries@.len() ==> toml_content(*(#[trigger] entries@[i]).1)
                    == m[entries@[i].0@],
            _ => r is None,
        },
{
    match value.as_table() {
        Some(table) => Some(table.iter().collect()),
        None => None,
    }
}

/// Calls `toml::Value::as_str`: the string where the value is one, nothing
/// otherwise.
#[verifier::external_body]
fn value_text(value: &toml::Value) -> (r: Option<String>)
    ensures
        r is Some <==> toml_content(*value) is Text,
        r matches Some(text) ==> toml_content(*value) == TomlView::Text(text@),
{
    match value.as_str() {
        Some(text) => Some(text.to_string()),
        None => None,
    }
}

/// Calls `to_string` on a `toml::de::Error`: the parser's own words.
#[verifier::external_body]
fn error_text(error: &toml::de::Error) -> (r: String) {
    error.to_string()
}

/// Reads the pairs of a pharmacy file. A text that is not TOML, and a
/// document without a table `Specs`, are runtime errors.
pub fn read_pharmacy(contents: &str, filename: &str) -> (r: Result<
    Vec<(String, Option<String>)>,
    HowserError,
>)
    ensures
        match toml_parse(contents@) {
            None => r matches Err(e) && e is RuntimeError,
            Some(doc) => match specs_table(doc) {
                None => r matches Err(e) && e@ == ErrorView::RuntimeError(
                    unreadable_pharmacy_text(filename@),
                ),
                Some(specs) => r matches Ok(pairs) && lists_specs(pairs_view(pairs@), specs),
            },
        },
{
    let value = match parse_toml(contents) {
        Ok(value) => value,
        Err(e) => {
            return Err(HowserError::RuntimeError(error_text(&e)));
        },
    };
    let entries = match value_get(&value, "Specs") {
        Some(specs) => table_entries(specs),
        None => None,
    };
    let entries = match entries {
        Some(entries) => entries,
        None => {
            let mut message = String::from_str("Error parsing pharmacy file ");
            message.append(filename);
            message.append(".");
            return Err(HowserError::RuntimeError(message));
        },
    };
    let ghost specs = specs_table(toml_parse(contents@)->Some_0)->Some_0;
    let mut pairs: Vec<(String, Option<String>)> = Vec::new();
    let mut n: usize = 0;
    while n < entries.len()
        invariant
            n <= entries.len(),
            pairs@.len() == n,
            forall|i: int|
                0 <= i < entries@.len() ==> toml_content(*(#[trigger] entries@[i]).1)
                    == specs[entries@[i].0@],
            forall|i: int|
                0 <= i < n ==> (#[trigger] pairs@[i]).0@ == entries@[i].0@ && name_text(
                    pairs@[i].1,
                ) == text_of(specs[entries@[i].0@]),
        decreases entries.len() - n,
    {
        let key: String = entries[n].0.clone();
        let text = value_text(entries[n].1);
        pairs.push((key, text));
        n = n + 1;
    }
    proof {
        let keys = Seq::new(entries@.len(), |i: int| entries@[i].0@);
        let listed = pairs_view(pairs@);
        let listed_keys = Seq::new(listed.len(), |i: int| listed[i].0);
        assert(listed_keys =~= keys);
        assert forall|i: int| 0 <= i < listed.len() implies (#[trigger] listed[i]).1 == text_of(
            specs[listed[i].0],
        ) by {
            assert(pairs@[i].0@ == entries@[i].0@);
        }
    }
    Ok(pairs)
}

} // verus!
