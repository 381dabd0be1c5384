//! TOML documents held as plain values, and the table operations that the
//! configuration schemas are decoded with.
use vstd::prelude::*;
use vstd::string::StringExecFns;

verus! {

/// A TOML value. Floats and date-times are kept only as `Other`: no field of
/// the configuration schemas takes one.
pub enum TomlValue {
    Str(String),
    Int(i64),
    Bool(bool),
    Array(Vec<TomlValue>),
    Table(Vec<(String, TomlValue)>),
    Other,
}

/// What the TOML text in `bytes` parses to; `None` where it is not a valid
/// UTF-8 TOML document.
pub uninterp spec fn toml_document(bytes: Seq<u8>) -> Option<TomlValue>;

/// The value under `key` in a table's entries (the first entry with that key).
pub open spec fn entry_value(entries: Seq<(String, TomlValue)>, key: Seq<char>) -> Option<TomlValue>
    decreases entries.len(),
{
    if entries.len() == 0 {
        None
    } else if entries[0].0@ == key {
        Some(entries[0].1)
    } else {
        entry_value(entries.drop_first(), key)
    }
}

/// `key` is one of `known`.
pub open spec fn key_known(key: Seq<char>, known: Seq<Seq<char>>) -> bool {
    exists|j: int| 0 <= j < known.len() && known[j] == key
}

/// Every key of a table is one of `known`.
pub open spec fn keys_within(entries: Seq<(String, TomlValue)>, known: Seq<Seq<char>>) -> bool {
    forall|i: int| 0 <= i < entries.len() ==> key_known(#[trigger] entries[i].0@, known)
}

/// No two entries of a table have the same key.
pub open spec fn keys_distinct(entries: Seq<(String, TomlValue)>) -> bool {
    forall|i: int, j: int| 0 <= i < j < entries.len() ==> entries[i].0@ != entries[j].0@
}

/// The views of a sequence of strings.
pub open spec fn string_views(v: Seq<String>) -> Seq<Seq<char>> {
    v.map_values(|s: String| s@)
}

/// A width and a height: an array of exactly two integers that fit in `usize`.
pub open spec fn size_of_value(v: TomlValue) -> Option<(usize, usize)> {
    match v {
        TomlValue::Array(a) => {
            if a@.len() == 2 {
                match (a@[0], a@[1]) {
                    (TomlValue::Int(w), TomlValue::Int(h)) => {
                        if 0 <= w <= usize::MAX && 0 <= h <= usize::MAX {
                            Some((w as usize, h as usize))
                        } else {
                            None
                        }
                    },
                    _ => None,
                }
            } else {
                None
            }
        },
        _ => None,
    }
}

/// Relies on `toml::from_slice` into `toml::Value`: parses UTF-8 TOML text,
/// failing with the parser's diagnostic. The tree is copied into plain values.
#[verifier::external_body]
pub(crate) fn parse_toml(bytes: &[u8]) -> (r: Result<TomlValue, String>)
    ensures
        r is Ok <==> toml_document(bytes@) is Some,
        r matches Ok(v) ==> toml_document(bytes@) == Some(v),
{
    match toml::from_slice::<toml::Value>(bytes) {
        Ok(v) => Ok(import_toml(v)),
        Err(e) => Err(e.to_string()),
    }
}

/// `toml::Value`, the parser's tree, carried only into `import_toml`.
#[verifier::external_type_specification]
#[verifier::external_body]
pub struct ExTomlValue(toml::Value);

/// Copies a `toml::Value` into a `TomlValue`, variant by variant; used by
/// `parse_toml` alone.
#[verifier::external_body]
fn import_toml(v: toml::Value) -> TomlValue {
    match v {
        toml::Value::String(s) => TomlValue::Str(s),
        toml::Value::Integer(i) => TomlValue::Int(i),
        toml::Value::Boolean(b) => TomlValue::Bool(b),
        toml::Value::Array(a) => TomlValue::Array(a.into_iter().map(import_toml).collect()),
        toml::Value::Table(t) => TomlValue::Table(t.into_iter().map(|(k, x)| (k, import_toml(x))).collect()),
        _ => TomlValue::Other,
    }
}

/// Looks up `key` in a table's entries.
pub fn lookup<'a>(entries: &'a Vec<(String, TomlValue)>, key: &String) -> (r: Option<&'a TomlValue>)
    ensures
        r matches Some(v) ==> entry_value(entries@, key@) == Some(*v),
        r is None ==> entry_value(entries@, key@) is None,
{
    let n = entries.len();
    let mut i: usize = 0;
    assert(entries@.subrange(0, n as int) =~= entries@);
    while i < n
        invariant
            i <= n == entries@.len(),
            entry_value(entries@, key@) == entry_value(entries@.subrange(i as int, n as int), key@),
        decreases n - i,
    {
        let ghost rest = entries@.subrange(i as int, n as int);
        if entries[i].0 == *key {
            assert(rest[0] == entries@[i as int]);
            return Some(&entries[i].1);
        }
        assert(rest.drop_first() =~= entries@.subrange(i + 1, n as int));
        i += 1;
    }
    None
}

/// Whether `key` is one of `known`.
pub fn is_known(key: &String, known: &Vec<String>) -> (r: bool)
    ensures
        r == key_known(key@, string_views(known@)),
{
    let mut j: usize = 0;
    while j < known.len()
        invariant
            j <= known@.len(),
            forall|k: int| 0 <= k < j ==> known@[k]@ != key@,
        decreases known@.len() - j,
    {
        if known[j] == *key {
            assert(string_views(known@)[j as int] == key@);
            return true;
        }
        j += 1;
    }
    assert forall|k: int| 0 <= k < string_views(known@).len() implies string_views(known@)[k] != key@ by {
        assert(string_views(known@)[k] == known@[k]@);
    }
    false
}

/// The first key of a table that is not one of `known`, if any.
pub fn unknown_key(entries: &Vec<(String, TomlValue)>, known: &Vec<String>) -> (r: Option<usize>)
    ensures
        r is None <==> keys_within(entries@, string_views(known@)),
        r matches Some(i) ==> i < entries@.len() && !key_known(entries@[i as int].0@, string_views(known@)),
{
    let mut i: usize = 0;
    while i < entries.len()
        invariant
            i <= entries@.len(),
            forall|k: int| 0 <= k < i ==> key_known(#[trigger] entries@[k].0@, string_views(known@)),
        decreases entries@.len() - i,
    {
        if !is_known(&entries[i].0, known) {
            return Some(i);
        }
        i += 1;
    }
    None
}

/// Reads a width and a height.
pub fn size_from(v: &TomlValue) -> (r: Option<(usize, usize)>)
    ensures
        r == size_of_value(*v),
{
    match v {
        TomlValue::Array(a) => {
            if a.len() == 2 {
                match (&a[0], &a[1]) {
                    (TomlValue::Int(w), TomlValue::Int(h)) => {
                        if 0 <= *w && *w as u64 <= usize::MAX as u64 && 0 <= *h && *h as u64 <= usize::MAX as u64 {
                            Some((*w as usize, *h as usize))
                        } else {
                            None
                        }
                    },
                    _ => None,
                }
            } else {
                None
            }
        },
        _ => None,
    }
}

/// Whether two entries of a table have the same key.
pub fn has_repeated_key(entries: &Vec<(String, TomlValue)>) -> (r: bool)
    ensures
        r == !keys_distinct(entries@),
{
    let mut j: usize = 0;
    while j < entries.len()
        invariant
            j <= entries@.len(),
            forall|a: int, b: int| 0 <= a < b < j ==> entries@[a].0@ != entries@[b].0@,
        decreases entries@.len() - j,
    {
        let mut i: usize = 0;
        while i < j
            invariant
                i <= j < entries@.len(),
                forall|a: int, b: int| 0 <= a < b < j ==> entries@[a].0@ != entries@[b].0@,
                forall|a: int| 0 <= a < i ==> entries@[a].0@ != entries@[j as int].0@,
            decreases j - i,
        {
            if entries[i].0 == entries[j].0 {
                return true;
            }
            i += 1;
        }
        j += 1;
    }
    false
}

/// A diagnostic naming a field: `what` followed by the field in backquotes.
pub fn field_message(what: &str, key: &str) -> (r: String)
    ensures
        r@ == what@ + " `"@ + key@ + "`"@,
{
    let mut m = what.to_owned();
    m.append(" `");
    m.append(key);
    m.append("`");
    m
}

/// The diagnostic for the first unknown key of a table, if it has one.
pub fn check_keys(entries: &Vec<(String, TomlValue)>, known: &Vec<String>) -> (r: Result<(), String>)
    ensures
        r is Ok <==> keys_within(entries@, string_views(known@)),
{
    match unknown_key(entries, known) {
        Some(i) => Err(field_message("unknown field", entries[i].0.as_str())),
        None => Ok(()),
    }
}

} // verus!
