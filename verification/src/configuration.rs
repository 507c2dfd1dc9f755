//! The plain settings values that the core logic reads.

use vstd::prelude::*;

verus! {

/// Where the application listens and under which public base URL it is
/// reached.
pub struct ApplicationSettings {
    pub port: u16,
    pub host: String,
    pub base_url: String,
}

/// The public base URL embedded into confirmation links.
pub struct ApplicationBaseUrl(pub String);

} // verus!
