use vstd::prelude::*;

use crate::utils::Key;

verus! {

/// File name of the manifest that holds the configuration.
pub const MANIFEST_CONFIG_NAME: &'static str = "thl.toml";

/// The key that quits the launcher from the common mode.
pub const EXIT_KEY: Key = Key::Esc;

} // verus!
