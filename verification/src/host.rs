//! The virtual host that is handed to the server, and its handler paths.
use vstd::prelude::*;
use vstd::string::StringExecFns;

use crate::assembler::VirtualHostConfig;
use crate::assembler::VirtualHostView;

verus! {

/// A URI that requests are answered under. The handler that answers them is
/// kept by whoever runs the server.
#[derive(Debug)]
pub struct HandlerPath {
    uri: String,
}

impl View for HandlerPath {
    type V = Seq<char>;

    closed spec fn view(&self) -> Seq<char> {
        self.uri@
    }
}

impl HandlerPath {
    /// A path for the given URI.
    pub fn new(uri: &str) -> (path: HandlerPath)
        ensures
            path@ == uri@,
    {
        HandlerPath { uri: String::from_str(uri) }
    }

    /// The URI of the path.
    pub fn uri(&self) -> (uri: &str)
        ensures
            uri@ == self@,
    {
        self.uri.as_str()
    }
}

/// What a virtual host says: its configuration, and the URIs of its paths in
/// the order in which they were added.
pub struct VirtualHostState {
    pub config: VirtualHostView,
    pub paths: Seq<Seq<char>>,
}

/// A named host and the handler paths registered with it.
#[derive(Debug)]
pub struct VirtualHost {
    config: VirtualHostConfig,
    paths: Vec<HandlerPath>,
}

impl View for VirtualHost {
    type V = VirtualHostState;

    closed spec fn view(&self) -> VirtualHostState {
        VirtualHostState {
            config: self.config@,
            paths: self.paths@.map_values(|path: HandlerPath| path@),
        }
    }
}

impl VirtualHost {
    /// A host without paths.
    pub fn new(config: VirtualHostConfig) -> (host: VirtualHost)
        ensures
            host@ == (VirtualHostState { config: config@, paths: Seq::empty() }),
    {
        let host = VirtualHost { config, paths: Vec::new() };
        assert(host@.paths =~= Seq::empty());
        host
    }

    /// Registers one more path, behind those that are there.
    pub fn add_path(&mut self, path: HandlerPath)
        ensures
            final(self)@ == (VirtualHostState {
                config: old(self)@.config,
                paths: old(self)@.paths.push(path@),
            }),
    {
        self.paths.push(path);
        assert(self@.paths =~= old(self)@.paths.push(path@));
    }

    /// The configuration of the host.
    pub fn config(&self) -> (config: &VirtualHostConfig)
        ensures
            config@ == self@.config,
    {
        &self.config
    }

    /// How many paths are registered.
    pub fn path_count(&self) -> (count: usize)
        ensures
            count == self@.paths.len(),
    {
        self.paths.len()
    }

    /// The path that was registered at the given position, counted from 0.
    pub fn path(&self, index: usize) -> (path: Option<&HandlerPath>)
        ensures
            path is Some <==> index < self@.paths.len(),
            path matches Some(found) ==> found@ == self@.paths[index as int],
    {
        if index < self.paths.len() {
            Some(&self.paths[index])
        } else {
            None
        }
    }
}

} // verus!
