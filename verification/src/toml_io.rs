use crate::component::{
    config_result_view, deserialize_spec, serialize_spec, ComponentBuilder, ComponentConfig,
    ErrorView, ParseError,
};
use crate::value::{ConfigTable, ConfigValue, TableView};
use vstd::prelude::*;

verus! {

/// What the TOML decoder yields for a given document text: the fields of the
/// top-level table in document order, where the text is well-formed TOML and
/// every value is a string, boolean or integer; nothing otherwise.
pub uninterp spec fn toml_doc_of(s: Seq<char>) -> Option<TableView>;

/// What the TOML writer prints for a given block.
pub uninterp spec fn toml_text_of(doc: TableView) -> Seq<char>;

/// A decoded block, seen mathematically.
pub open spec fn opt_doc_view(o: Option<ConfigTable>) -> Option<TableView> {
    match o {
        Option::Some(t) => Option::Some(t@),
        Option::None => Option::None,
    }
}

/// Relies on toml::from_str: decodes TOML text into its top-level table, read
/// here as scalar fields in document order; the result is a function of the
/// text alone.
#[verifier::external_body]
fn decode_toml(s: &str) -> (r: Option<ConfigTable>)
    ensures
        opt_doc_view(r) == toml_doc_of(s@),
{
    let top = match toml::from_str::<toml::Value>(s) {
        Ok(toml::Value::Table(t)) => t,
        _ => return None,
    };
    let mut entries = Vec::new();
    for (k, v) in top {
        let value = match v {
            toml::Value::String(x) => ConfigValue::Str(x),
            toml::Value::Boolean(b) => ConfigValue::Bool(b),
            toml::Value::Integer(i) => ConfigValue::Int(i),
            _ => return None,
        };
        entries.push((k, value));
    }
    Some(ConfigTable { entries })
}

/// Relies on toml::to_string: prints a block as TOML text, fields kept in
/// order by the crate's order-preserving table; a function of the block alone.
#[verifier::external_body]
fn encode_toml(doc: &ConfigTable) -> (r: String)
    ensures
        r@ == toml_text_of(doc@),
{
    let mut table = toml::map::Map::new();
    for (k, v) in doc.entries.iter() {
        let value = match v {
            ConfigValue::Str(s) => toml::Value::String(s.clone()),
            ConfigValue::Bool(b) => toml::Value::Boolean(*b),
            ConfigValue::Int(i) => toml::Value::Integer(*i),
        };
        table.insert(k.clone(), value);
    }
    toml::to_string(&toml::Value::Table(table)).unwrap_or(String::new())
}

/// Decodes TOML text into one configuration block.
pub fn parse_toml(s: &str) -> (r: Option<ConfigTable>)
    ensures
        opt_doc_view(r) == toml_doc_of(s@),
{
    decode_toml(s)
}

/// Prints one configuration block as TOML text.
pub fn to_toml_string(doc: &ConfigTable) -> (r: String)
    ensures
        r@ == toml_text_of(doc@),
{
    encode_toml(doc)
}

impl<T: ComponentBuilder> ComponentConfig<T> {
    /// Parses a component from TOML text.
    pub fn from_toml(s: &str) -> (r: Result<ComponentConfig<T>, ParseError>)
        ensures
            match toml_doc_of(s@) {
                Option::Some(doc) => config_result_view(r) == deserialize_spec::<T>(doc),
                Option::None => r matches Err(e) && e@ == ErrorView::InvalidDocument,
            },
    {
        match decode_toml(s) {
            Option::Some(doc) => Self::deserialize(&doc),
            Option::None => Err(ParseError::InvalidDocument),
        }
    }

    /// Prints the resolved configuration as TOML text.
    pub fn to_toml(&self) -> (r: String)
        ensures
            r@ == toml_text_of(serialize_spec(self@)),
    {
        let doc = self.serialize();
        encode_toml(&doc)
    }
}

} // verus!
