//! The configuration file as text: a TOML document that is read into a
//! configuration and written from one.

use vstd::prelude::*;
use crate::config::ConfigView;
use crate::config::RunnerConfig;
use crate::config::example;
use crate::config::example_view;
use crate::schema::Field;
use crate::schema::FieldView;
use crate::schema::SchemaError;
use crate::schema::SchemaErrorView;
use crate::schema::decode;
use crate::schema::decode_config;
use crate::schema::document_view;
use crate::schema::encode;
use crate::schema::encode_config;
use crate::schema::entries_view;

verus! {

/// The error with which `toml` rejects a text. Nothing is known of its contents.
#[verifier::external_type_specification]
#[verifier::external_body]
pub struct ExDocumentFault(toml::de::Error);

/// The error with which `toml` refuses to write a value. Nothing is known of its contents.
#[verifier::external_type_specification]
#[verifier::external_body]
pub struct ExWriteFault(toml::ser::Error);

/// The top-level entries of the TOML document that `text` is, in the order in
/// which its table hands them out, each with its value where that is a string
/// or a boolean; `None` where `text` is no TOML document.
pub uninterp spec fn toml_entries(text: Seq<char>) -> Option<Seq<(Seq<char>, Option<FieldView>)>>;

/// The TOML text of the table that holds `entries`, inserted in their order;
/// `None` where such a table cannot be written.
pub uninterp spec fn toml_text(entries: Seq<(Seq<char>, FieldView)>) -> Option<Seq<char>>;

/// Calls `toml::from_str` at the type `toml::Table` and hands out the table's
/// entries in its own order, a string as text, a boolean as a flag and a value
/// of any other kind as `None`. Trusted: that what comes back depends on the
/// text alone, so that it can be named `toml_entries`.
#[verifier::external_body]
fn read_document(text: &str) -> (read: Result<Vec<(String, Option<Field>)>, toml::de::Error>)
    ensures
        match read {
            Ok(entries) => toml_entries(text@) == Some(document_view(entries@)),
            Err(_) => toml_entries(text@) is None,
        },
{
    let table = toml::from_str::<toml::Table>(text)?;
    Ok(table.into_iter().map(|(key, value)| (key, match value {
        toml::Value::String(text) => Some(Field::Text(text)),
        toml::Value::Boolean(flag) => Some(Field::Flag(flag)),
        _ => None,
    })).collect())
}

/// Renders the message of a `toml::de::Error` through its `Display`. Nothing
/// is claimed of the text.
#[verifier::external_body]
fn document_fault_text(fault: &toml::de::Error) -> (message: String) {
    fault.to_string()
}

/// Fills a `toml::Table` with the entries in their order and calls
/// `toml::to_string_pretty` on it. Trusted: that what comes back depends on
/// the entries alone, so that it can be named `toml_text`.
#[verifier::external_body]
fn write_document(entries: &Vec<(String, Field)>) -> (written: Result<String, toml::ser::Error>)
    ensures
        match written {
            Ok(text) => toml_text(entries_view(entries@)) == Some(text@),
            Err(_) => toml_text(entries_view(entries@)) is None,
        },
{
    let mut table = toml::Table::new();
    for (key, field) in entries {
        table.insert(key.clone(), match field {
            Field::Text(text) => toml::Value::String(text.clone()),
            Field::Flag(flag) => toml::Value::Boolean(*flag),
        });
    }
    toml::to_string_pretty(&table)
}

/// Renders the message of a `toml::ser::Error` through its `Display`. Nothing
/// is claimed of the text.
#[verifier::external_body]
fn write_fault_text(fault: &toml::ser::Error) -> (message: String) {
    fault.to_string()
}

/// Why a text is not a configuration file.
#[derive(Debug, Clone, PartialEq, Eq)]
pub enum ParseError {
    /// The text is no TOML document; the message says where and why.
    Syntax { message: String },
    /// The document does not follow the schema.
    Schema(SchemaError),
}

/// A parse error, as mathematical values. The wording of a syntax message is
/// left open.
pub ghost enum ParseErrorView {
    Syntax,
    Schema(SchemaErrorView),
}

impl View for ParseError {
    type V = ParseErrorView;

    open spec fn view(&self) -> ParseErrorView {
        match self {
            ParseError::Syntax { message } => ParseErrorView::Syntax,
            ParseError::Schema(error) => ParseErrorView::Schema(error@),
        }
    }
}

/// A configuration could not be written as text; the message says why.
#[derive(Debug, Clone, PartialEq, Eq)]
pub struct RenderError {
    pub message: String,
}

/// What reading `text` as a configuration file gives: a syntax error where
/// the text is no TOML document, else what the schema makes of its entries.
pub open spec fn parse(text: Seq<char>) -> Result<ConfigView, ParseErrorView> {
    match toml_entries(text) {
        None => Err(ParseErrorView::Syntax),
        Some(entries) => match decode(entries) {
            Ok(config) => Ok(config),
            Err(error) => Err(ParseErrorView::Schema(error)),
        },
    }
}

/// Reads a configuration from the text of a configuration file.
pub fn parse_config(text: &str) -> (parsed: Result<RunnerConfig, ParseError>)
    ensures
        match parsed {
            Ok(config) => parse(text@) == Ok::<ConfigView, ParseErrorView>(config@),
            Err(error) => parse(text@) == Err::<ConfigView, ParseErrorView>(error@),
        },
{
    match read_document(text) {
        Err(fault) => Err(ParseError::Syntax { message: document_fault_text(&fault) }),
        Ok(entries) => match decode_config(&entries) {
            Ok(config) => Ok(config),
            Err(error) => Err(ParseError::Schema(error)),
        },
    }
}

/// Writes a configuration as the text of a configuration file: the TOML text
/// of the document that holds it.
pub fn render_config(config: &RunnerConfig) -> (rendered: Result<String, RenderError>)
    ensures
        match rendered {
            Ok(text) => toml_text(encode(config@)) == Some(text@),
            Err(_) => toml_text(encode(config@)) is None,
        },
{
    let entries = encode_config(config);
    match write_document(&entries) {
        Ok(text) => Ok(text),
        Err(fault) => Err(RenderError { message: write_fault_text(&fault) }),
    }
}

/// Whether `text` is what generating the example configuration file gives.
pub open spec fn is_example_text(text: Seq<char>) -> bool {
    toml_text(encode(example_view())) == Some(text)
}

/// Generates the text of the example configuration file.
pub fn generate() -> (generated: Result<String, RenderError>)
    ensures
        match generated {
            Ok(text) => is_example_text(text@),
            Err(_) => toml_text(encode(example_view())) is None,
        },
{
    let config = example();
    render_config(&config)
}

/// Generating is repeatable: any two texts that generating gives are the
/// same, character for character.
pub proof fn lemma_generate_repeats(first: Seq<char>, second: Seq<char>)
    requires
        is_example_text(first),
        is_example_text(second),
    ensures
        first == second,
{
}

} // verus!
