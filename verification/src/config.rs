use vstd::prelude::*;

use crate::error::BlogError;

verus! {

/// The blog configuration: the two required string fields of the
/// configuration file. Built once per run and read-only afterwards.
pub struct Config {
    pub title: String,
    pub sub_title: String,
}

#[verifier::external_type_specification]
#[verifier::external_body]
#[verifier::reject_recursive_types(K)]
#[verifier::reject_recursive_types(V)]
pub struct ExTomlMap<K, V>(toml::map::Map<K, V>);

#[verifier::external_type_specification]
#[verifier::external_body]
pub struct ExTomlValue(toml::Value);

#[verifier::external_type_specification]
#[verifier::external_body]
pub struct ExTomlDeError(toml::de::Error);

/// The string-valued fields of a parsed TOML table: every top-level key of
/// the table is in the domain, mapped to `Some` of its value when that value
/// is a string and to `None` when it is of any other kind.
pub uninterp spec fn table_fields(t: toml::Table) -> Map<Seq<char>, Option<Seq<char>>>;

/// The outcome of parsing a text as a TOML document: `None` when the text is
/// not a valid document, otherwise `Some` of the string-valued fields of its
/// top-level table. Parsing depends on the text alone.
pub uninterp spec fn toml_doc(s: Seq<char>) -> Option<Map<Seq<char>, Option<Seq<char>>>>;

/// Relies on `toml::from_str::<toml::Table>`: parses a TOML document into its
/// top-level table, a function of the text alone.
#[verifier::external_body]
fn parse_toml(s: &str) -> (r: Result<toml::Table, toml::de::Error>)
    ensures
        r is Ok <==> toml_doc(s@) is Some,
        r matches Ok(t) ==> toml_doc(s@) == Some(table_fields(t)),
{
    toml::from_str::<toml::Table>(s)
}

/// Relies on `toml::map::Map::get` and `toml::Value::as_str`: looks a key up
/// in a parsed table and hands the value out as a plain string exactly when
/// the key is present and its value is a string.
#[verifier::external_body]
fn table_get_str(t: &toml::Table, key: &str) -> (r: Option<String>)
    ensures
        r is Some <==> (table_fields(*t).dom().contains(key@) && table_fields(*t)[key@] is Some),
        r matches Some(v) ==> table_fields(*t)[key@] == Some(v@),
{
    t.get(key).and_then(|v| v.as_str()).map(|v| v.to_owned())
}

/// Relies on the `Display` impl of `toml::de::Error` for the diagnostic text
/// carried by a parse failure.
#[verifier::external_body]
fn toml_error_text(e: &toml::de::Error) -> String {
    e.to_string()
}

/// What loading a configuration text yields: the `title` and `sub_title`
/// values, exactly when the text is a TOML document whose top-level table
/// holds both keys with string values.
pub open spec fn config_of(s: Seq<char>) -> Option<(Seq<char>, Seq<char>)> {
    match toml_doc(s) {
        None => None,
        Some(fields) => if fields.dom().contains("title"@) && fields["title"@] is Some
            && fields.dom().contains("sub_title"@) && fields["sub_title"@] is Some {
            Some((fields["title"@]->0, fields["sub_title"@]->0))
        } else {
            None
        },
    }
}

/// Parse a configuration text. Returns the configuration exactly when the
/// text is a valid document with string fields `title` and `sub_title`, with
/// both values taken over verbatim; on any other text it fails with a parse
/// error and never falls back to a default.
pub fn load_config(content: &str) -> (r: Result<Config, BlogError>)
    ensures
        r is Ok <==> config_of(content@) is Some,
        r matches Ok(c) ==> config_of(content@) == Some((c.title@, c.sub_title@)),
        r matches Err(e) ==> e is Parse,
{
    let table = match parse_toml(content) {
        Ok(t) => t,
        Err(e) => {
            return Err(BlogError::Parse(toml_error_text(&e)));
        },
    };
    let title = match table_get_str(&table, "title") {
        Some(v) => v,
        None => {
            return Err(BlogError::Parse("missing or non-string field `title`".to_owned()));
        },
    };
    let sub_title = match table_get_str(&table, "sub_title") {
        Some(v) => v,
        None => {
            return Err(BlogError::Parse("missing or non-string field `sub_title`".to_owned()));
        },
    };
    Ok(Config { title, sub_title })
}

} // verus!
