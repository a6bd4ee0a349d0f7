//! From a configuration to what the server is handed: the listener, the
//! virtual host and its handler path.
use vstd::prelude::*;
use vstd::string::StringExecFns;

use crate::config::Config;
use crate::config::ConfigView;
use crate::errors::SophiaError;

verus! {

/// Name of the one virtual host of an application.
pub const LOCALHOST: &'static str = "localhost";

/// The one URI that a handler is bound to.
pub const ROOT_URI: &'static str = "/";

/// What the server says of a virtual host without a name.
pub const MISSING_HOSTNAME: &'static str =
    "Configuration error: Invalid virtual host config: Missing hostname";

/// Calls `vetis::host::HostConfigBuilder::build` on a builder that was given
/// `hostname` and nothing else, and hands back the text of its error.
///
/// Trusted: the builder refuses the empty hostname and no other, and its
/// error then reads as `MISSING_HOSTNAME`.
#[verifier::external_body]
fn host_rejection(hostname: &str) -> (rejection: Option<String>)
    ensures
        rejection is Some <==> hostname@.len() == 0,
        rejection matches Some(text) ==> text@ == MISSING_HOSTNAME@,
{
    match vetis::host::HostConfig::builder().hostname(hostname).build() {
        Ok(_) => None,
        Err(error) => Some(error.to_string()),
    }
}

/// What a listener configuration says.
pub struct ListenerView {
    pub port: u16,
    pub interface: Seq<char>,
}

/// The address and port that the server binds to.
#[derive(Debug)]
pub struct ListenerConfig {
    port: u16,
    interface: String,
}

impl View for ListenerConfig {
    type V = ListenerView;

    closed spec fn view(&self) -> ListenerView {
        ListenerView { port: self.port, interface: self.interface@ }
    }
}

/// The listener of a configuration: a copy of its two values.
pub open spec fn listener_of(config: ConfigView) -> ListenerView {
    ListenerView { port: config.port, interface: config.interface }
}

impl ListenerConfig {
    /// Copies port and interface out of a configuration. This cannot fail.
    pub fn from_config(config: &Config) -> (listener: ListenerConfig)
        ensures
            listener@ == listener_of(config@),
    {
        ListenerConfig { port: config.port(), interface: String::from_str(config.interface()) }
    }

    /// The port to bind to.
    pub fn port(&self) -> (port: u16)
        ensures
            port == self@.port,
    {
        self.port
    }

    /// The address to bind to.
    pub fn interface(&self) -> (interface: &str)
        ensures
            interface@ == self@.interface,
    {
        self.interface.as_str()
    }
}

/// What a virtual host configuration says.
pub struct VirtualHostView {
    pub hostname: Seq<char>,
    pub port: u16,
}

/// Name and port of a virtual host. The name is never empty.
#[derive(Debug)]
pub struct VirtualHostConfig {
    hostname: String,
    port: u16,
}

impl View for VirtualHostConfig {
    type V = VirtualHostView;

    closed spec fn view(&self) -> VirtualHostView {
        VirtualHostView { hostname: self.hostname@, port: self.port }
    }
}

impl VirtualHostConfig {
    #[verifier::type_invariant]
    spec fn is_named(self) -> bool {
        self.hostname@.len() > 0
    }

    /// A virtual host configuration, as far as the server accepts the
    /// hostname. A refusal comes back as a start-up failure that carries the
    /// server's own words.
    pub fn new(hostname: &str, port: u16) -> (built: Result<VirtualHostConfig, SophiaError>)
        ensures
            built is Err <==> hostname@.len() == 0,
            built matches Ok(host) ==> host@ == (VirtualHostView { hostname: hostname@, port }),
            built matches Err(error) ==> error.detail() == MISSING_HOSTNAME@,
    {
        match host_rejection(hostname) {
            Some(text) => Err(SophiaError::ServerStart(text)),
            None => Ok(VirtualHostConfig { hostname: String::from_str(hostname), port }),
        }
    }

    /// The name of the host.
    pub fn hostname(&self) -> (hostname: &str)
        ensures
            hostname@ == self@.hostname,
            hostname@.len() > 0,
    {
        proof {
            use_type_invariant(self);
        }
        self.hostname.as_str()
    }

    /// The port of the host.
    pub fn port(&self) -> (port: u16)
        ensures
            port == self@.port,
    {
        self.port
    }
}

/// Listener and virtual host of an application whose one host is `hostname`.
pub fn assemble_for(config: &Config, hostname: &str) -> (assembled: Result<
    (ListenerConfig, VirtualHostConfig),
    SophiaError,
>)
    ensures
        assembled is Err <==> hostname@.len() == 0,
        assembled matches Ok(pair) ==> pair.0@ == listener_of(config@) && pair.1@ == (
            VirtualHostView { hostname: hostname@, port: config@.port }
        ),
        assembled matches Err(error) ==> error.detail() == MISSING_HOSTNAME@,
{
    let listener = ListenerConfig::from_config(config);
    match VirtualHostConfig::new(hostname, config.port()) {
        Ok(host) => Ok((listener, host)),
        Err(error) => Err(error),
    }
}

/// Listener and virtual host of an application: the listener copies the
/// configuration, and the host is "localhost" on the configured port.
pub fn assemble(config: &Config) -> (assembled: Result<
    (ListenerConfig, VirtualHostConfig),
    SophiaError,
>)
    ensures
        assembled matches Ok(pair) && pair.0@ == listener_of(config@) && pair.1@ == (
            VirtualHostView { hostname: LOCALHOST@, port: config@.port }
        ),
{
    proof {
        reveal_strlit("localhost");
    }
    assemble_for(config, LOCALHOST)
}

/// The listener says what the configuration says, so two configurations that
/// differ in port or interface give two listeners that differ in the same.
pub proof fn lemma_listener_follows_config(first: ConfigView, second: ConfigView)
    ensures
        listener_of(first).port == first.port,
        listener_of(first).interface == first.interface,
        first.port != second.port ==> listener_of(first).port != listener_of(second).port,
        first.interface != second.interface ==> listener_of(first).interface != listener_of(
            second,
        ).interface,
        first != second ==> listener_of(first) != listener_of(second),
{
}

} // verus!
