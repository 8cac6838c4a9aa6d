//! The part of the launcher's configuration file that names this module.

use vstd::prelude::*;

verus! {

/// One module entry of the configuration file.
#[derive(Debug, Default, Clone)]
pub struct Module {
    pub id: String,
}

/// The configuration file as far as this module reads it.
#[derive(Debug, Default, Clone)]
pub struct MainConfig {
    pub module: Module,
}

} // verus!
