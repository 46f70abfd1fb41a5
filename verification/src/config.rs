//! Where the service listens and where its store lives.

use vstd::prelude::*;

verus! {

/// The service's settings. Both are text that whoever starts the service
/// reads and hands to the listener and to the store unchanged.
#[derive(Clone, Debug, PartialEq, Eq)]
pub struct AjedrezConfig {
    pub server_addr: String,
    pub database_url: String,
}

/// The settings as the contracts see them.
pub struct AjedrezConfigView {
    pub server_addr: Seq<char>,
    pub database_url: Seq<char>,
}

impl View for AjedrezConfig {
    type V = AjedrezConfigView;

    open spec fn view(&self) -> AjedrezConfigView {
        AjedrezConfigView { server_addr: self.server_addr@, database_url: self.database_url@ }
    }
}

impl Default for AjedrezConfig {
    /// The settings before any source has been read: both empty.
    fn default() -> (config: AjedrezConfig)
        ensures
            config@.server_addr == Seq::<char>::empty(),
            config@.database_url == Seq::<char>::empty(),
    {
        AjedrezConfig { server_addr: String::new(), database_url: String::new() }
    }
}

} // verus!
