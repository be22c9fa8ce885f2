//! What the agent works with.

use vstd::prelude::*;
use crate::agent::config::Config;
use crate::agent::ops::webserver::WebServer;
use crate::agent::store::Store;

verus! {

pub struct AgentState {
    pub config: Config,
    pub store: Store,
    /// The host's web server, with its detected capabilities.
    pub web: WebServer,
}

impl AgentState {
    pub fn new(config: Config, store: Store, web: WebServer) -> (s: Self)
        ensures
            s.config == config,
            s.store == store,
            s.web == web,
    {
        AgentState { config, store, web }
    }

    /// Executable form of [`AgentState::has_room`].
    pub fn room(&self) -> (r: bool)
        ensures
            r == self.has_room(),
    {
        self.store.find_uid(self.config.uid_base).is_some()
    }

    /// A UID is left for another site.
    pub open spec fn has_room(self) -> bool {
        self.store.has_free(self.config.uid_base)
    }
}

} // verus!
