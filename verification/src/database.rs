//! How the library database is opened. The database itself — SQL and disk —
//! is the host layer's collaborator; the pipeline only hands over paths.
use vstd::prelude::*;

verus! {

#[derive(Debug, Clone)]
pub struct DatabaseConfig {
    pub path: String,
    pub read_only: bool,
}

impl DatabaseConfig {
    pub fn new(path: String) -> (r: Self)
        ensures
            r.path == path,
            !r.read_only,
    {
        Self { path, read_only: false }
    }

    pub fn read_only(self) -> (r: Self)
        ensures
            r.path == self.path,
            r.read_only,
    {
        Self { read_only: true, ..self }
    }
}

} // verus!
