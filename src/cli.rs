use vstd::prelude::*;

verus! {

/// The parsed command line.
#[derive(Debug, Clone)]
pub struct Cli {
    pub command: Commands,
}

/// The operations a user can ask for.
#[derive(Debug, Clone)]
pub enum Commands {
    /// Add a new profile.
    Add { name: String, api_key: bool, oauth: bool, label: Option<String> },
    /// Switch to a profile.
    Use { name: String },
    /// List all profiles.
    List,
    /// Show the active profile.
    Current,
    /// Remove a profile.
    Remove { name: String, force: bool },
    /// Import the host application's current credentials as a profile.
    Import { name: String, label: Option<String> },
    /// Create the configuration directory.
    Init,
    /// Print the active API key, for the host application's key helper.
    EmitKey,
}

} // verus!
