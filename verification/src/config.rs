//! The client's configuration values.
//!
//! Reading and writing the configuration file is the embedding program's
//! job; this is the value it carries, with its defaults.

use vstd::prelude::*;

verus! {

/// The client configuration. The api id and hash start empty and must be
/// set by the user; the backend connection is on by default.
#[derive(Debug, Clone)]
pub struct Config {
    pub api_id: i32,
    pub api_hash: String,
    pub phone_number: Option<String>,
    pub use_tdlib: bool,
    pub theme: String,
    pub auto_save: bool,
}

impl Default for Config {
    /// The defaults: no credentials, backend connection on, the `default`
    /// theme, auto-save on.
    fn default() -> (r: Config)
        ensures
            r.api_id == 0,
            r.api_hash@ == Seq::<char>::empty(),
            r.phone_number is None,
            r.use_tdlib,
            r.theme@ == "default"@,
            r.auto_save,
    {
        Config {
            api_id: 0,
            api_hash: String::new(),
            phone_number: None,
            use_tdlib: true,
            theme: "default".to_owned(),
            auto_save: true,
        }
    }
}

} // verus!
