//! Static startup settings.
//!
//! Supplied once at process start by a configuration loader; a loading
//! failure is fatal to the process, so the engine only ever sees a complete
//! value. The unverified adapter reads the file and converts into this
//! type.

use vstd::prelude::*;

verus! {

/// The process's startup settings: the gateway access token, the store
/// connection string, the command prefix, and the store's database name.
#[derive(Clone, PartialEq, Eq, Debug)]
pub struct Configuration {
    pub token: String,
    pub mongo_uri: String,
    pub bot_prefix: String,
    pub mongo_database: String,
}

} // verus!
