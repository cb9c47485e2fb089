use vstd::prelude::*;

use crate::toml_model::{
    doc_printable, empty_doc, parse_toml, table_get, table_insert, table_model,
    table_new, table_to_toml, toml_doc, value_as_integer, value_as_str, value_as_table,
    value_from_i64, value_from_str, value_from_table, TomlData, TomlTable,
};
use crate::types::{
    default_api_v, default_base_url, default_user_v, ApiConfig, ApiConfigV, GeneratedConfig,
    GeneratedConfigV, UserConfig, UserConfigV, DEFAULT_TIMEOUT_SECS,
};

verus! {

// The two documents' schemas: how each is read out of a TOML document,
// field by field with defaults for missing keys, and how each is written
// back as one.

/// The TOML table a given API section is written as.
pub open spec fn api_table_model(a: ApiConfigV) -> Map<Seq<char>, TomlData> {
    map![
        "base_url"@ => TomlData::Str(a.base_url),
        "timeout_secs"@ => TomlData::Int(a.timeout_secs as int),
    ]
}

/// The TOML document a given user configuration is written as.
pub open spec fn user_doc_model(u: UserConfigV) -> Map<Seq<char>, TomlData> {
    map!["api"@ => TomlData::Table(api_table_model(u.api))]
}

/// The TOML document a given generated configuration is written as: empty
/// before the first recorded launch.
pub open spec fn gen_doc_model(g: GeneratedConfigV) -> Map<Seq<char>, TomlData> {
    match g.last_launch {
        Some(t) => map!["last_launch"@ => TomlData::Int(t as int)],
        None => empty_doc(),
    }
}

/// The base URL an API table yields: the default where the key is missing,
/// `None` (rejection) where it has the wrong type.
pub open spec fn parse_base_url(api: Map<Seq<char>, TomlData>) -> Option<Seq<char>> {
    if !api.dom().contains("base_url"@) {
        Some(default_base_url())
    } else {
        match api["base_url"@] {
            TomlData::Str(s) => Some(s),
            _ => None,
        }
    }
}

/// The timeout an API table yields: the default where the key is missing,
/// `None` where it has the wrong type or is negative.
pub open spec fn parse_timeout(api: Map<Seq<char>, TomlData>) -> Option<u64> {
    if !api.dom().contains("timeout_secs"@) {
        Some(DEFAULT_TIMEOUT_SECS)
    } else {
        match api["timeout_secs"@] {
            TomlData::Int(i) => if 0 <= i && i <= u64::MAX {
                Some(i as u64)
            } else {
                None
            },
            _ => None,
        }
    }
}

/// The API section an API table yields, field by field.
pub open spec fn parse_api_table(api: Map<Seq<char>, TomlData>) -> Option<ApiConfigV> {
    match (parse_base_url(api), parse_timeout(api)) {
        (Some(b), Some(t)) => Some(ApiConfigV { base_url: b, timeout_secs: t }),
        _ => None,
    }
}

/// The user configuration a TOML document yields: every missing field takes
/// its default, a field of the wrong type rejects the document, unknown keys
/// are ignored.
pub open spec fn parse_user_doc(doc: Map<Seq<char>, TomlData>) -> Option<UserConfigV> {
    if !doc.dom().contains("api"@) {
        Some(UserConfigV { api: default_api_v() })
    } else {
        match doc["api"@] {
            TomlData::Table(api) => match parse_api_table(api) {
                Some(a) => Some(UserConfigV { api: a }),
                None => None,
            },
            _ => None,
        }
    }
}

/// The generated configuration a TOML document yields: a missing key means
/// no recorded launch, a key of the wrong type rejects the document.
pub open spec fn parse_gen_doc(doc: Map<Seq<char>, TomlData>) -> Option<GeneratedConfigV> {
    if !doc.dom().contains("last_launch"@) {
        Some(GeneratedConfigV { last_launch: None })
    } else {
        match doc["last_launch"@] {
            TomlData::Int(i) => if i64::MIN <= i && i <= i64::MAX {
                Some(GeneratedConfigV { last_launch: Some(i as i64) })
            } else {
                None
            },
            _ => None,
        }
    }
}

/// Reads the API section out of its TOML table, defaulting each missing
/// field on its own.
pub(crate) fn api_from_table(t: &TomlTable) -> (r: Option<ApiConfig>)
    ensures
        match r {
            Some(a) => parse_api_table(table_model(*t)) == Some(a@),
            None => parse_api_table(table_model(*t)) is None,
        },
{
    let base_url: String = match table_get(t, "base_url") {
        None => "https://kybe.xyz".to_owned(),
        Some(v) => match value_as_str(v) {
            Some(s) => s.to_owned(),
            None => {
                return None;
            },
        },
    };
    let timeout_secs: u64 = match table_get(t, "timeout_secs") {
        None => DEFAULT_TIMEOUT_SECS,
        Some(v) => match value_as_integer(v) {
            Some(i) => if i >= 0 {
                i as u64
            } else {
                return None;
            },
            None => {
                return None;
            },
        },
    };
    Some(ApiConfig { base_url, timeout_secs })
}

/// Reads a user configuration out of a parsed TOML document.
pub(crate) fn user_from_table(t: &TomlTable) -> (r: Option<UserConfig>)
    ensures
        match r {
            Some(u) => parse_user_doc(table_model(*t)) == Some(u@),
            None => parse_user_doc(table_model(*t)) is None,
        },
{
    match table_get(t, "api") {
        None => Some(UserConfig::default()),
        Some(v) => match value_as_table(v) {
            Some(at) => match api_from_table(at) {
                Some(a) => Some(UserConfig { api: a }),
                None => None,
            },
            None => None,
        },
    }
}

/// Reads a generated configuration out of a parsed TOML document.
pub(crate) fn generated_from_table(t: &TomlTable) -> (r: Option<GeneratedConfig>)
    ensures
        match r {
            Some(g) => parse_gen_doc(table_model(*t)) == Some(g@),
            None => parse_gen_doc(table_model(*t)) is None,
        },
{
    match table_get(t, "last_launch") {
        None => Some(GeneratedConfig { last_launch: None }),
        Some(v) => match value_as_integer(v) {
            Some(i) => Some(GeneratedConfig { last_launch: Some(i) }),
            None => None,
        },
    }
}

/// Parses a text as a user document.
pub(crate) fn user_from_text(s: &str) -> (r: Option<UserConfig>)
    ensures
        match r {
            Some(u) => toml_doc(s@) matches Some(doc) && parse_user_doc(doc) == Some(u@),
            None => toml_doc(s@) is None || parse_user_doc(toml_doc(s@)->0) is None,
        },
{
    match parse_toml(s) {
        Some(t) => user_from_table(&t),
        None => None,
    }
}

/// Parses a text as a generated document.
pub(crate) fn generated_from_text(s: &str) -> (r: Option<GeneratedConfig>)
    ensures
        match r {
            Some(g) => toml_doc(s@) matches Some(doc) && parse_gen_doc(doc) == Some(g@),
            None => toml_doc(s@) is None || parse_gen_doc(toml_doc(s@)->0) is None,
        },
{
    match parse_toml(s) {
        Some(t) => generated_from_table(&t),
        None => None,
    }
}

/// Writes a user configuration as TOML text.
pub(crate) fn render_user(u: &UserConfig) -> (r: String)
    requires
        u.timeout_ok(),
    ensures
        toml_doc(r@) == Some(user_doc_model(u@)),
{
    let mut api_t = table_new();
    table_insert(&mut api_t, "base_url", value_from_str(u.api.base_url.as_str()));
    table_insert(&mut api_t, "timeout_secs", value_from_i64(u.api.timeout_secs as i64));
    let mut root = table_new();
    table_insert(&mut root, "api", value_from_table(api_t));
    proof {
        assert(table_model(root) =~= user_doc_model(u@));
        assert(doc_printable(table_model(root)));
    }
    table_to_toml(&root)
}

/// Writes a generated configuration as TOML text.
pub(crate) fn render_generated(g: &GeneratedConfig) -> (r: String)
    ensures
        toml_doc(r@) == Some(gen_doc_model(g@)),
{
    let mut root = table_new();
    match g.last_launch {
        Some(ts) => table_insert(&mut root, "last_launch", value_from_i64(ts)),
        None => (),
    }
    proof {
        assert(table_model(root) =~= gen_doc_model(g@));
        assert(doc_printable(table_model(root)));
    }
    table_to_toml(&root)
}

impl UserConfig {
    /// True where the timeout fits a TOML integer, so that the document can
    /// be written out.
    pub open spec fn timeout_ok(&self) -> bool {
        self.api.timeout_secs as int <= i64::MAX as int
    }
}

/// The two keys of the API table differ.
proof fn lemma_distinct_api_keys()
    ensures
        "base_url"@ != "timeout_secs"@,
{
    reveal_strlit("base_url");
    reveal_strlit("timeout_secs");
    assert("base_url"@.len() == 8);
    assert("timeout_secs"@.len() == 12);
}

/// Writing any user configuration and reading the document back yields the
/// same configuration.
pub proof fn lemma_user_round_trip(u: UserConfigV)
    ensures
        parse_user_doc(user_doc_model(u)) == Some(u),
{
    lemma_distinct_api_keys();
    let doc = user_doc_model(u);
    let api = api_table_model(u.api);
    assert(doc.dom().contains("api"@));
    assert(doc["api"@] == TomlData::Table(api));
    assert(api["base_url"@] == TomlData::Str(u.api.base_url));
    assert(api["timeout_secs"@] == TomlData::Int(u.api.timeout_secs as int));
    assert(parse_api_table(api) == Some(u.api));
}

/// Writing any generated configuration and reading the document back yields
/// the same configuration.
pub proof fn lemma_generated_round_trip(g: GeneratedConfigV)
    ensures
        parse_gen_doc(gen_doc_model(g)) == Some(g),
{
    let doc = gen_doc_model(g);
    match g.last_launch {
        Some(t) => {
            assert(doc["last_launch"@] == TomlData::Int(t as int));
        },
        None => {
            assert(!doc.dom().contains("last_launch"@));
        },
    }
}

/// A user document holding only the base URL still loads, with the timeout
/// equal to its documented default: schema growth does not invalidate older
/// files.
pub proof fn lemma_partial_api_defaults(b: Seq<char>)
    ensures
        ({
            let doc = map!["api"@ => TomlData::Table(map!["base_url"@ => TomlData::Str(b)])];
            parse_user_doc(doc) == Some(
                UserConfigV {
                    api: ApiConfigV { base_url: b, timeout_secs: DEFAULT_TIMEOUT_SECS },
                },
            )
        }),
{
    lemma_distinct_api_keys();
    let api = map!["base_url"@ => TomlData::Str(b)];
    assert(!api.dom().contains("timeout_secs"@));
    assert(api["base_url"@] == TomlData::Str(b));
}

} // verus!
