//! Configuration documents: TOML text, and what a configuration reads in it.
use vstd::prelude::*;

use crate::config::Config;
use crate::config::ConfigView;

verus! {

/// Key of the port in a configuration document.
pub const PORT_KEY: &'static str = "port";

/// Key of the interface in a configuration document.
pub const INTERFACE_KEY: &'static str = "interface";

#[verifier::external_type_specification]
#[verifier::external_body]
#[verifier::reject_recursive_types(K)]
#[verifier::reject_recursive_types(V)]
pub struct ExTomlMap<K, V>(toml::map::Map<K, V>);

#[verifier::external_type_specification]
#[verifier::external_body]
pub struct ExTomlValue(toml::Value);

/// What stands under one key of a document's top-level table.
///
/// Text, integers and truth values carry what they hold; of the other kinds
/// only the kind is kept.
#[derive(Debug)]
pub enum Entry {
    Text(String),
    Integer(i64),
    Float,
    Boolean(bool),
    Datetime,
    Array,
    Table,
}

/// What an entry says.
pub enum EntryView {
    Text(Seq<char>),
    Integer(i64),
    Float,
    Boolean(bool),
    Datetime,
    Array,
    Table,
}

impl View for Entry {
    type V = EntryView;

    open spec fn view(&self) -> EntryView {
        match self {
            Entry::Text(text) => EntryView::Text(text@),
            Entry::Integer(number) => EntryView::Integer(*number),
            Entry::Float => EntryView::Float,
            Entry::Boolean(flag) => EntryView::Boolean(*flag),
            Entry::Datetime => EntryView::Datetime,
            Entry::Array => EntryView::Array,
            Entry::Table => EntryView::Table,
        }
    }
}

/// What an entry says, where there is one.
pub open spec fn entry_view(entry: Option<Entry>) -> Option<EntryView> {
    match entry {
        Some(found) => Some(found@),
        None => None,
    }
}

/// The top-level table that `toml::from_str` reads from `text`, or `None`
/// where it refuses the text.
pub uninterp spec fn toml_document(text: Seq<char>) -> Option<Map<Seq<char>, EntryView>>;

/// The entries of a parsed table, by key.
pub uninterp spec fn table_entries(table: toml::Table) -> Map<Seq<char>, EntryView>;

/// Calls `toml::from_str` to read `text` as a TOML document.
///
/// Trusted: the parser is a function of the text alone, so its answer is
/// `toml_document(text@)`; the table it hands back holds that document's
/// entries. The parser's error is dropped.
#[verifier::external_body]
fn parse_document(text: &str) -> (table: Option<toml::Table>)
    ensures
        table is Some <==> toml_document(text@) is Some,
        table matches Some(t) ==> toml_document(text@) == Some(table_entries(t)),
{
    toml::from_str::<toml::Table>(text).ok()
}

/// Calls `toml::map::Map::get` for the value under `key`.
///
/// Trusted: the answer is `Some` exactly for the keys of the table, and then
/// it is the entry that `table_entries` has under that key. The value's
/// variant decides the entry's, one for one.
#[verifier::external_body]
fn lookup(table: &toml::Table, key: &str) -> (entry: Option<Entry>)
    ensures
        entry_view(entry) == table_entries(*table).get(key@),
{
    match table.get(key) {
        None => None,
        Some(toml::Value::String(text)) => Some(Entry::Text(text.clone())),
        Some(toml::Value::Integer(number)) => Some(Entry::Integer(*number)),
        Some(toml::Value::Float(_)) => Some(Entry::Float),
        Some(toml::Value::Boolean(flag)) => Some(Entry::Boolean(*flag)),
        Some(toml::Value::Datetime(_)) => Some(Entry::Datetime),
        Some(toml::Value::Array(_)) => Some(Entry::Array),
        Some(toml::Value::Table(_)) => Some(Entry::Table),
    }
}

/// The configuration that the entries under the two keys spell out.
///
/// Both must be there: the port an integer that fits in 16 bits, the
/// interface a text that is not empty. Anything else spells out nothing.
pub open spec fn entries_config(port: Option<EntryView>, interface: Option<EntryView>) -> Option<
    ConfigView,
> {
    match (port, interface) {
        (Some(EntryView::Integer(number)), Some(EntryView::Text(text))) => {
            if 0 <= number <= u16::MAX && text.len() > 0 {
                Some(ConfigView { port: number as u16, interface: text })
            } else {
                None
            }
        },
        _ => None,
    }
}

/// The configuration that a table holds under `port` and `interface`.
/// Other keys are not looked at.
pub open spec fn table_config(entries: Map<Seq<char>, EntryView>) -> Option<ConfigView> {
    entries_config(entries.get(PORT_KEY@), entries.get(INTERFACE_KEY@))
}

/// The configuration that a text holds: that of its table, where the text is
/// a TOML document at all.
pub open spec fn text_config(text: Seq<char>) -> Option<ConfigView> {
    match toml_document(text) {
        Some(entries) => table_config(entries),
        None => None,
    }
}

/// The view of a configuration that may be missing.
pub open spec fn view_of(config: Option<Config>) -> Option<ConfigView> {
    match config {
        Some(c) => Some(c@),
        None => None,
    }
}

/// Makes a configuration of the entries found under `port` and `interface`.
pub fn config_from_entries(port: Option<Entry>, interface: Option<Entry>) -> (config: Option<
    Config,
>)
    ensures
        view_of(config) == entries_config(entry_view(port), entry_view(interface)),
{
    match port {
        Some(Entry::Integer(number)) => match interface {
            Some(Entry::Text(text)) => {
                if 0 <= number && number <= 65535 {
                    Config::new(number as u16, text.as_str())
                } else {
                    None
                }
            },
            _ => None,
        },
        _ => None,
    }
}

/// Reads a configuration from the text of a configuration file.
///
/// The answer is `None` where the text is no TOML document, and where the
/// document lacks a usable `port` or `interface`.
pub fn parse_config(text: &str) -> (config: Option<Config>)
    ensures
        view_of(config) == text_config(text@),
{
    match parse_document(text) {
        Some(table) => {
            let port = lookup(&table, PORT_KEY);
            let interface = lookup(&table, INTERFACE_KEY);
            config_from_entries(port, interface)
        },
        None => None,
    }
}

} // verus!
