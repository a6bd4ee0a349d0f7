//! The configuration an application runs with.
use vstd::prelude::*;
use vstd::std_specs::cmp::PartialEqSpecImpl;
use vstd::string::StringExecFns;

verus! {

/// Port of an application that was given no configuration.
pub const DEFAULT_PORT: u16 = 8080;

/// Interface of an application that was given no configuration: every address.
pub const DEFAULT_INTERFACE: &'static str = "0.0.0.0";

/// What a configuration says: the port and the address to listen on.
pub struct ConfigView {
    pub port: u16,
    pub interface: Seq<char>,
}

impl ConfigView {
    /// A configuration names an interface.
    pub open spec fn valid(self) -> bool {
        self.interface.len() > 0
    }

    /// The built-in configuration.
    pub open spec fn fallback() -> ConfigView {
        ConfigView { port: DEFAULT_PORT, interface: DEFAULT_INTERFACE@ }
    }
}

/// Port and interface of the one listener of an application.
///
/// A value never changes once it is made, and its interface is never empty.
#[derive(Debug)]
pub struct Config {
    port: u16,
    interface: String,
}

impl View for Config {
    type V = ConfigView;

    closed spec fn view(&self) -> ConfigView {
        ConfigView { port: self.port, interface: self.interface@ }
    }
}

impl Config {
    #[verifier::type_invariant]
    spec fn names_an_interface(self) -> bool {
        self.interface@.len() > 0
    }

    /// A configuration with the given values, unless the interface is empty.
    pub fn new(port: u16, interface: &str) -> (config: Option<Config>)
        ensures
            config is Some <==> interface@.len() > 0,
            config matches Some(c) ==> c@ == (ConfigView { port, interface: interface@ }),
    {
        if interface.is_empty() {
            None
        } else {
            Some(Config { port, interface: String::from_str(interface) })
        }
    }

    /// The port to listen on.
    pub fn port(&self) -> (port: u16)
        ensures
            port == self@.port,
    {
        self.port
    }

    /// The address to listen on.
    pub fn interface(&self) -> (interface: &str)
        ensures
            interface@ == self@.interface,
            interface@.len() > 0,
            self@.valid(),
    {
        proof {
            use_type_invariant(self);
        }
        self.interface.as_str()
    }
}

impl Default for Config {
    /// Port 8080 on every address.
    fn default() -> (config: Config)
        ensures
            config@ == ConfigView::fallback(),
    {
        proof {
            reveal_strlit("0.0.0.0");
        }
        Config { port: DEFAULT_PORT, interface: String::from_str(DEFAULT_INTERFACE) }
    }
}

impl Clone for Config {
    fn clone(&self) -> (copy: Config)
        ensures
            copy@ == self@,
    {
        proof {
            use_type_invariant(self);
        }
        Config { port: self.port, interface: self.interface.clone() }
    }
}

impl PartialEq for Config {
    fn eq(&self, other: &Config) -> (equal: bool) {
        self.port == other.port && self.interface == other.interface
    }
}

impl PartialEqSpecImpl for Config {
    open spec fn obeys_eq_spec() -> bool {
        true
    }

    open spec fn eq_spec(&self, other: &Config) -> bool {
        self@ == other@
    }
}

/// The built-in configuration names an interface.
pub proof fn lemma_fallback_is_valid()
    ensures
        ConfigView::fallback().valid(),
        ConfigView::fallback().port == 8080,
        ConfigView::fallback().interface == "0.0.0.0"@,
{
    reveal_strlit("0.0.0.0");
}

} // verus!
