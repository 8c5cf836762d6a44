//! The shape of one invocation of the tool: which action was asked for,
//! and with what argument.  Parsing the command line into this shape
//! happens outside; the engine only dispatches on it.

use vstd::prelude::*;

verus! {

/// One invocation of the tool.
#[derive(Debug)]
pub struct DotctlInvocation {
    pub action: DotctlActionWord,
}

/// The action words the tool answers to.
#[derive(Debug)]
pub enum DotctlActionWord {
    /// Link the given file into place as the configuration document.
    Use { config_path: String },
    /// Run setup for the named application's configuration entry.
    Setup { application: String },
    /// Remove the named application's configuration entry's links.
    Teardown { application: String },
}

} // verus!
