//! Choosing the configuration: the file's, or the built-in one.
use vstd::prelude::*;

use crate::config::Config;
use crate::config::ConfigView;
use crate::document::parse_config;
use crate::document::text_config;
use crate::document::toml_document;
use crate::document::EntryView;
use crate::document::INTERFACE_KEY;
use crate::document::PORT_KEY;

verus! {

/// What was found at the path of the configuration file.
#[derive(Debug)]
pub enum Source {
    /// No file is there.
    Absent,
    /// A file is there and could not be read.
    Unreadable,
    /// The file's text.
    Text(String),
}

/// Where a resolved configuration came from.
#[derive(Clone, Copy, Debug, PartialEq, Eq, Structural)]
pub enum Origin {
    /// The file's own values.
    File,
    /// Built in, because no file was there.
    Absent,
    /// Built in, because the file could not be read.
    Unreadable,
    /// Built in, because the file's text holds no configuration.
    Unparsable,
}

/// A configuration, and why it is the one.
#[derive(Debug)]
pub struct Resolution {
    pub config: Config,
    pub origin: Origin,
}

/// What is reported when a configuration file holds no configuration.
pub const PARSE_FAILURE: &'static str = "Failed to parse config file";

/// The configuration that a source resolves to: the one its text holds, and
/// the built-in one in every other case.
pub open spec fn resolved_config(source: Source) -> ConfigView {
    match source {
        Source::Text(text) => match text_config(text@) {
            Some(config) => config,
            None => ConfigView::fallback(),
        },
        _ => ConfigView::fallback(),
    }
}

/// Why a source resolves to what it does.
pub open spec fn resolved_origin(source: Source) -> Origin {
    match source {
        Source::Absent => Origin::Absent,
        Source::Unreadable => Origin::Unreadable,
        Source::Text(text) => if text_config(text@) is Some {
            Origin::File
        } else {
            Origin::Unparsable
        },
    }
}

/// Resolves the configuration of an application. This never fails: a source
/// without a usable configuration yields the built-in one.
pub fn resolve(source: &Source) -> (resolution: Resolution)
    ensures
        resolution.config@ == resolved_config(*source),
        resolution.origin == resolved_origin(*source),
        resolution.config@.valid(),
{
    let resolution = match source {
        Source::Absent => Resolution { config: Config::default(), origin: Origin::Absent },
        Source::Unreadable => Resolution { config: Config::default(), origin: Origin::Unreadable },
        Source::Text(text) => match parse_config(text.as_str()) {
            Some(config) => Resolution { config, origin: Origin::File },
            None => Resolution { config: Config::default(), origin: Origin::Unparsable },
        },
    };
    proof {
        lemma_resolved_config_is_valid(*source);
    }
    resolution
}

impl Resolution {
    /// The one diagnostic that resolving gives rise to: a file was read and
    /// held no configuration. A missing or unreadable file is passed over in
    /// silence.
    pub fn diagnostic(&self) -> (message: Option<&'static str>)
        ensures
            message is Some <==> self.origin == Origin::Unparsable,
            message matches Some(text) ==> text@ == PARSE_FAILURE@,
    {
        match self.origin {
            Origin::Unparsable => Some(PARSE_FAILURE),
            _ => None,
        }
    }
}

/// Whatever the source, the resolved configuration names an interface.
pub proof fn lemma_resolved_config_is_valid(source: Source)
    ensures
        resolved_config(source).valid(),
{
    reveal_strlit("0.0.0.0");
}

/// A file that is absent, cannot be read, or holds no configuration resolves
/// to exactly the built-in configuration: port 8080 on "0.0.0.0".
pub proof fn lemma_unusable_source_resolves_to_fallback(source: Source)
    requires
        source is Absent || source is Unreadable || (source matches Source::Text(text)
            && text_config(text@) is None),
    ensures
        resolved_config(source) == ConfigView::fallback(),
        resolved_config(source).port == 8080,
        resolved_config(source).interface == "0.0.0.0"@,
{
}

/// A text that is no TOML document resolves to the built-in configuration.
pub proof fn lemma_malformed_text_resolves_to_fallback(text: String)
    requires
        toml_document(text@) is None,
    ensures
        resolved_config(Source::Text(text)) == ConfigView::fallback(),
        resolved_origin(Source::Text(text)) == Origin::Unparsable,
{
}

/// A file that gives a port within 16 bits and an interface that is not
/// empty resolves to exactly those two values.
pub proof fn lemma_valid_file_resolves_to_its_values(
    text: String,
    port: u16,
    interface: Seq<char>,
)
    requires
        toml_document(text@) matches Some(entries) && entries.get(PORT_KEY@) == Some(
            EntryView::Integer(port as i64),
        ) && entries.get(INTERFACE_KEY@) == Some(EntryView::Text(interface)),
        interface.len() > 0,
    ensures
        resolved_config(Source::Text(text)) == (ConfigView { port, interface }),
        resolved_origin(Source::Text(text)) == Origin::File,
{
}

} // verus!
