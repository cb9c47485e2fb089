use vstd::prelude::*;

verus! {

// The documents on disk are TOML. Parsing and printing are done by the toml
// crate; this module gives its tables and values a mathematical model that
// the rest of the library states its contracts over.

#[verifier::external_type_specification]
#[verifier::external_body]
#[verifier::reject_recursive_types(K)]
#[verifier::reject_recursive_types(V)]
pub struct ExTomlMap<K, V>(toml::map::Map<K, V>);

#[verifier::external_type_specification]
#[verifier::external_body]
pub struct ExTomlValue(toml::Value);

/// The toml crate's table: a map from key strings to TOML values.
pub type TomlTable = toml::map::Map<String, toml::Value>;

/// Abstract value of one TOML node, as far as this library reads one:
/// strings, integers and tables are distinguished, every other TOML type
/// (float, boolean, datetime, array) is `Other`.
pub ghost enum TomlData {
    Str(Seq<char>),
    Int(int),
    Table(Map<Seq<char>, TomlData>),
    Other,
}

/// What parsing a text as a TOML document yields: `None` where the text is
/// not well-formed TOML, otherwise the key/value model of the root table.
pub uninterp spec fn toml_doc(s: Seq<char>) -> Option<Map<Seq<char>, TomlData>>;

/// What a `toml::map::Map` holds, keyed by the characters of its keys.
pub uninterp spec fn table_model(t: TomlTable) -> Map<Seq<char>, TomlData>;

/// What a `toml::Value` holds.
pub uninterp spec fn value_model(v: toml::Value) -> TomlData;

/// The model of a document with no entries.
pub open spec fn empty_doc() -> Map<Seq<char>, TomlData> {
    Map::empty()
}

/// True of a node this library can hand to the TOML printer: a string, an
/// integer, or a table of such nodes one level deep. This covers every
/// document the library writes.
pub open spec fn data_printable(d: TomlData) -> bool {
    match d {
        TomlData::Str(_) => true,
        TomlData::Int(i) => i64::MIN <= i <= i64::MAX,
        TomlData::Table(m) => forall|k: Seq<char>|
            m.dom().contains(k) ==> (#[trigger] m[k]) matches TomlData::Str(_)
                || m[k] matches TomlData::Int(_),
        TomlData::Other => false,
    }
}

/// True of a document this library can hand to the TOML printer.
pub open spec fn doc_printable(doc: Map<Seq<char>, TomlData>) -> bool {
    forall|k: Seq<char>| doc.dom().contains(k) ==> data_printable(#[trigger] doc[k])
}

/// Relies on `str::parse::<toml::Table>` (the toml crate's parser): it
/// returns the document's root table exactly when the text is well-formed
/// TOML.
#[verifier::external_body]
pub(crate) fn parse_toml(s: &str) -> (r: Option<TomlTable>)
    ensures
        match r {
            Some(t) => toml_doc(s@) == Some(table_model(t)),
            None => toml_doc(s@) is None,
        },
{
    match s.parse::<toml::Table>() {
        Ok(t) => Some(t),
        Err(_) => None,
    }
}

/// Relies on `toml::to_string`: printing a table of strings, integers and
/// sub-tables of such cannot fail, and parsing the printed text yields the
/// same document back.
#[verifier::external_body]
pub(crate) fn table_to_toml(t: &TomlTable) -> (r: String)
    requires
        doc_printable(table_model(*t)),
    ensures
        toml_doc(r@) == Some(table_model(*t)),
{
    toml::to_string(t).expect("printing a table of plain values cannot fail")
}

/// Relies on `toml::map::Map::new`: the new map is empty.
#[verifier::external_body]
pub(crate) fn table_new() -> (r: TomlTable)
    ensures
        table_model(r) == empty_doc(),
{
    toml::map::Map::new()
}

/// Relies on `toml::map::Map::insert`: the entry is added, other entries
/// stay.
#[verifier::external_body]
pub(crate) fn table_insert(t: &mut TomlTable, key: &str, v: toml::Value)
    ensures
        table_model(*final(t)) == table_model(*old(t)).insert(key@, value_model(v)),
{
    t.insert(key.to_owned(), v);
}

/// Relies on `toml::map::Map::get`: it returns the value under the key
/// exactly when the key is present.
#[verifier::external_body]
pub(crate) fn table_get<'a>(
    t: &'a TomlTable,
    key: &str,
) -> (r: Option<&'a toml::Value>)
    ensures
        match r {
            Some(v) => table_model(*t).dom().contains(key@) && value_model(*v) == table_model(
                *t,
            )[key@],
            None => !table_model(*t).dom().contains(key@),
        },
{
    t.get(key)
}

/// Relies on `toml::Value::as_str`: it returns the characters exactly when
/// the value is a TOML string.
#[verifier::external_body]
pub(crate) fn value_as_str<'a>(v: &'a toml::Value) -> (r: Option<&'a str>)
    ensures
        match r {
            Some(s) => value_model(*v) == TomlData::Str(s@),
            None => !(value_model(*v) matches TomlData::Str(_)),
        },
{
    v.as_str()
}

/// Relies on `toml::Value::as_integer`: it returns the integer exactly when
/// the value is a TOML integer.
#[verifier::external_body]
pub(crate) fn value_as_integer(v: &toml::Value) -> (r: Option<i64>)
    ensures
        match r {
            Some(i) => value_model(*v) == TomlData::Int(i as int),
            None => !(value_model(*v) matches TomlData::Int(_)),
        },
{
    v.as_integer()
}

/// Relies on `toml::Value::as_table`: it returns the table exactly when the
/// value is a TOML table.
#[verifier::external_body]
pub(crate) fn value_as_table<'a>(v: &'a toml::Value) -> (r: Option<&'a TomlTable>)
    ensures
        match r {
            Some(t) => value_model(*v) == TomlData::Table(table_model(*t)),
            None => !(value_model(*v) matches TomlData::Table(_)),
        },
{
    v.as_table()
}

/// Relies on the `toml::Value::String` constructor: the value holds exactly
/// the given characters.
#[verifier::external_body]
pub(crate) fn value_from_str(s: &str) -> (r: toml::Value)
    ensures
        value_model(r) == TomlData::Str(s@),
{
    toml::Value::String(s.to_owned())
}

/// Relies on the `toml::Value::Integer` constructor: the value holds exactly
/// the given integer.
#[verifier::external_body]
pub(crate) fn value_from_i64(i: i64) -> (r: toml::Value)
    ensures
        value_model(r) == TomlData::Int(i as int),
{
    toml::Value::Integer(i)
}

/// Relies on the `toml::Value::Table` constructor: the value holds exactly
/// the given table.
#[verifier::external_body]
pub(crate) fn value_from_table(t: TomlTable) -> (r: toml::Value)
    ensures
        value_model(r) == TomlData::Table(table_model(t)),
{
    toml::Value::Table(t)
}

} // verus!
