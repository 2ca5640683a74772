//! The pointer record: a one-field indirection object holding the path to
//! the user's configuration file.

use vstd::prelude::*;
use vstd::string::StringExecFns;

verus! {

/// The pointer record persisted at the tool's well-known location.  It holds
/// nothing but the path of the user configuration file; canonicalizing that
/// path is the saver's job, done before the record is constructed.
#[derive(Debug)]
pub struct Config {
    config_file_path: String,
}

/// A pointer record is abstractly just the path it stores.
impl View for Config {
    type V = Seq<char>;

    closed spec fn view(&self) -> Seq<char> {
        self.config_file_path@
    }
}

impl Config {
    /// Plain data assignment: construction always succeeds, and the stored
    /// path is exactly the one given.
    pub fn new(config_file_path: String) -> (c: Config)
        ensures
            c@ == config_file_path@,
    {
        Config { config_file_path }
    }

    /// The stored path of the user configuration file.
    pub fn config_file_path(&self) -> (p: &str)
        ensures
            p@ == self@,
    {
        self.config_file_path.as_str()
    }
}

impl Default for Config {
    fn default() -> (c: Config)
        ensures
            c@ == "default.json"@,
    {
        Config { config_file_path: String::from_str("default.json") }
    }
}

} // verus!
