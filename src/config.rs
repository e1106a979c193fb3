//! The process-wide, read-only server configuration.
use vstd::prelude::*;

verus! {

/// The canonical absolute root directory that every request is served from.
/// It is set once at startup and never changed.
pub struct ServerConfig {
    work_path: String,
}

impl View for ServerConfig {
    type V = Seq<char>;

    closed spec fn view(&self) -> Seq<char> {
        self.work_path@
    }
}

impl ServerConfig {
    pub fn new(work_path: String) -> (r: ServerConfig)
        ensures
            r@ == work_path@,
    {
        ServerConfig { work_path }
    }

    /// The root directory.
    pub fn work_path(&self) -> (r: &str)
        ensures
            r@ == self@,
    {
        self.work_path.as_str()
    }
}

} // verus!
