//! The application: one configuration, served once.
//!
//! An application is made with its configuration, is served, and is over when
//! the server returns. It is served at most once: a second call is refused
//! and changes nothing. What happens between the two steps (registering the
//! virtual host with the server, running it) is done by the caller, who then
//! reports how it went.
use vstd::prelude::*;

use crate::assembler::ListenerConfig;
use crate::assembler::VirtualHostConfig;
use crate::assembler::VirtualHostView;
use crate::assembler::listener_of;
use crate::assembler::LOCALHOST;
use crate::assembler::MISSING_HOSTNAME;
use crate::assembler::ROOT_URI;
use crate::config::Config;
use crate::config::ConfigView;
use crate::errors::SophiaError;
use crate::host::HandlerPath;
use crate::host::VirtualHost;
use crate::host::VirtualHostState;
use crate::resolver::resolve;
use crate::resolver::resolved_config;
use crate::resolver::Source;

verus! {

/// What a second attempt to serve is told.
pub const ALREADY_SERVED: &'static str = "The application has already been served";

/// Where an application stands in its life.
#[derive(Clone, Copy, Debug, PartialEq, Eq, Structural)]
pub enum Phase {
    /// Made, and not served yet.
    Configured,
    /// Its virtual host was handed out and the server has not returned.
    Serving,
    /// Over: the server returned, or start-up failed.
    Terminated,
}

/// How the attempt to run the server ended.
#[derive(Debug)]
pub enum Outcome {
    /// The server ran and shut down.
    Completed,
    /// The handler could not be bound to its path.
    PathRejected(String),
    /// The server could not start, or failed while it ran.
    RunFailed(String),
}

/// What a caller is told once the server has returned: success, or a
/// start-up failure with the words of whatever failed.
pub open spec fn verdict(outcome: Outcome) -> Result<(), SophiaError> {
    match outcome {
        Outcome::Completed => Ok(()),
        Outcome::PathRejected(text) => Err(SophiaError::ServerStart(text)),
        Outcome::RunFailed(text) => Err(SophiaError::ServerStart(text)),
    }
}

/// The virtual host of an application: the named host on the configured
/// port, with the root URI as its one path.
pub open spec fn served_host(config: ConfigView, hostname: Seq<char>) -> VirtualHostState {
    VirtualHostState {
        config: VirtualHostView { hostname, port: config.port },
        paths: seq![ROOT_URI@],
    }
}

/// Where an application stands after it was asked to serve under `hostname`.
/// Only an application that was not served yet moves: on, where the hostname
/// is accepted, and to its end, where it is not.
pub open spec fn phase_after_serve(phase: Phase, hostname: Seq<char>) -> Phase {
    match phase {
        Phase::Configured => if hostname.len() > 0 {
            Phase::Serving
        } else {
            Phase::Terminated
        },
        Phase::Serving => Phase::Serving,
        Phase::Terminated => Phase::Terminated,
    }
}

/// What an application says: its configuration and where it stands.
pub struct AppView {
    pub config: ConfigView,
    pub phase: Phase,
}

/// An application and its configuration.
#[derive(Debug)]
pub struct App {
    config: Config,
    phase: Phase,
}

impl View for App {
    type V = AppView;

    closed spec fn view(&self) -> AppView {
        AppView { config: self.config@, phase: self.phase }
    }
}

impl App {
    /// An application with the given configuration, not served yet.
    pub fn new(config: Config) -> (app: App)
        ensures
            app@ == (AppView { config: config@, phase: Phase::Configured }),
    {
        App { config, phase: Phase::Configured }
    }

    /// An application with the configuration that `source` resolves to.
    pub fn from_source(source: &Source) -> (app: App)
        ensures
            app@ == (AppView { config: resolved_config(*source), phase: Phase::Configured }),
    {
        App::new(resolve(source).config)
    }

    /// The configuration, which stays the same for the application's life.
    pub fn config(&self) -> (config: &Config)
        ensures
            config@ == self@.config,
    {
        &self.config
    }

    /// Where the application stands.
    pub fn phase(&self) -> (phase: Phase)
        ensures
            phase == self@.phase,
    {
        self.phase
    }

    /// The listener that the server of this application is bound to.
    pub fn listener(&self) -> (listener: ListenerConfig)
        ensures
            listener@ == listener_of(self@.config),
    {
        ListenerConfig::from_config(&self.config)
    }

    /// Starts serving under the given hostname.
    ///
    /// An application that was not served yet builds its virtual host and
    /// registers the root path with it. It hands the host out, to be given to
    /// the server, and is then serving. Where the hostname is refused nothing
    /// is handed out and the application is over. An application that was
    /// served before refuses, and stays as it is.
    pub fn serve_host(&mut self, hostname: &str) -> (served: Result<VirtualHost, SophiaError>)
        ensures
            final(self)@ == (AppView {
                config: old(self)@.config,
                phase: phase_after_serve(old(self)@.phase, hostname@),
            }),
            served is Ok <==> old(self)@.phase == Phase::Configured && hostname@.len() > 0,
            served matches Ok(host) ==> host@ == served_host(old(self)@.config, hostname@),
            served matches Err(error) ==> error.detail() == if old(self)@.phase
                == Phase::Configured {
                MISSING_HOSTNAME@
            } else {
                ALREADY_SERVED@
            },
    {
        match self.phase {
            Phase::Configured => match VirtualHostConfig::new(hostname, self.config.port()) {
                Ok(config) => {
                    let mut host = VirtualHost::new(config);
                    host.add_path(HandlerPath::new(ROOT_URI));
                    self.phase = Phase::Serving;
                    assert(host@.paths =~= seq![ROOT_URI@]);
                    Ok(host)
                },
                Err(error) => {
                    self.phase = Phase::Terminated;
                    Err(error)
                },
            },
            _ => Err(SophiaError::server_start(ALREADY_SERVED)),
        }
    }

    /// Starts serving as "localhost". The first call always succeeds; any
    /// later one is refused.
    pub fn serve(&mut self) -> (served: Result<VirtualHost, SophiaError>)
        ensures
            final(self)@.config == old(self)@.config,
            served is Ok <==> old(self)@.phase == Phase::Configured,
            served matches Ok(host) ==> host@ == served_host(old(self)@.config, LOCALHOST@)
                && final(self)@.phase == Phase::Serving,
            served matches Err(error) ==> error.detail() == ALREADY_SERVED@ && final(self)@
                == old(self)@,
    {
        proof {
            reveal_strlit("localhost");
        }
        self.serve_host(LOCALHOST)
    }

    /// Takes note that the server has returned. The application is over,
    /// however it went, and the caller learns what to report.
    pub fn finish(&mut self, outcome: Outcome) -> (finished: Result<(), SophiaError>)
        ensures
            final(self)@ == (AppView { config: old(self)@.config, phase: Phase::Terminated }),
            finished == verdict(outcome),
    {
        self.phase = Phase::Terminated;
        match outcome {
            Outcome::Completed => Ok(()),
            Outcome::PathRejected(text) => Err(SophiaError::ServerStart(text)),
            Outcome::RunFailed(text) => Err(SophiaError::ServerStart(text)),
        }
    }
}

impl Default for App {
    /// An application with the built-in configuration.
    fn default() -> (app: App)
        ensures
            app@ == (AppView { config: ConfigView::fallback(), phase: Phase::Configured }),
    {
        App::new(Config::default())
    }
}

/// An application is served at most once: whatever it is asked first, a
/// second request leaves it where the first one put it, and nothing ever
/// puts it back to where it can be served.
pub proof fn lemma_served_at_most_once(phase: Phase, first: Seq<char>, second: Seq<char>)
    ensures
        phase_after_serve(phase, first) != Phase::Configured,
        phase_after_serve(phase_after_serve(phase, first), second) == phase_after_serve(
            phase,
            first,
        ),
        phase == Phase::Terminated ==> phase_after_serve(phase, first) == Phase::Terminated,
{
}

} // verus!
