use vstd::prelude::*;

verus! {

/// Every failure the broker reports to its caller.
#[derive(Debug, Clone, PartialEq, Eq)]
pub enum CswitchError {
    /// No profile of that name is registered.
    ProfileNotFound(String),
    /// A profile of that name is registered already.
    ProfileAlreadyExists(String),
    /// The registry has no active profile.
    NoActiveProfile,
    /// The secret store holds no secret in the requested slot.
    SecretNotFound(String),
    /// The secret store could not be read or written.
    Keychain(String),
    /// The registry could not be read, parsed or written.
    Config(String),
    /// The host settings document could not be read, parsed or written.
    ClaudeSettings(String),
    /// An API key was rejected.
    InvalidApiKey,
    /// A file operation failed.
    Io(String),
    /// A JSON document could not be handled.
    Json(String),
    /// The OAuth authorization flow failed.
    OAuth(String),
}

/// `e` reports that no profile called `name` is registered.
pub open spec fn is_not_found(e: CswitchError, name: Seq<char>) -> bool {
    e matches CswitchError::ProfileNotFound(n) && n@ == name
}

/// `e` reports a missing secret, in the words `text`.
pub open spec fn is_secret_not_found(e: CswitchError, text: Seq<char>) -> bool {
    e matches CswitchError::SecretNotFound(m) && m@ == text
}

/// The text shown to a user for an error.
pub open spec fn error_message(e: CswitchError) -> Seq<char> {
    match e {
        CswitchError::ProfileNotFound(n) => "Profile '"@ + n@ + "' not found"@,
        CswitchError::ProfileAlreadyExists(n) => "Profile '"@ + n@ + "' already exists"@,
        CswitchError::NoActiveProfile => "No active profile set"@,
        CswitchError::SecretNotFound(m) => "Secret not found: "@ + m@,
        CswitchError::Keychain(m) => "Keychain error: "@ + m@,
        CswitchError::Config(m) => "Failed to read/write config: "@ + m@,
        CswitchError::ClaudeSettings(m) => "Failed to read/write host settings: "@ + m@,
        CswitchError::InvalidApiKey => "Invalid API key format"@,
        CswitchError::Io(m) => "IO error: "@ + m@,
        CswitchError::Json(m) => "JSON error: "@ + m@,
        CswitchError::OAuth(m) => "OAuth error: "@ + m@,
    }
}

impl CswitchError {
    /// The user-facing description of this error.
    pub fn message(&self) -> (r: String)
        ensures
            r@ == error_message(*self),
    {
        match self {
            CswitchError::ProfileNotFound(n) => String::from_str("Profile '").concat(n.as_str()).concat(
                "' not found",
            ),
            CswitchError::ProfileAlreadyExists(n) => String::from_str("Profile '").concat(
                n.as_str(),
            ).concat("' already exists"),
            CswitchError::NoActiveProfile => String::from_str("No active profile set"),
            CswitchError::SecretNotFound(m) => String::from_str("Secret not found: ").concat(
                m.as_str(),
            ),
            CswitchError::Keychain(m) => String::from_str("Keychain error: ").concat(m.as_str()),
            CswitchError::Config(m) => String::from_str("Failed to read/write config: ").concat(
                m.as_str(),
            ),
            CswitchError::ClaudeSettings(m) => String::from_str(
                "Failed to read/write host settings: ",
            ).concat(m.as_str()),
            CswitchError::InvalidApiKey => String::from_str("Invalid API key format"),
            CswitchError::Io(m) => String::from_str("IO error: ").concat(m.as_str()),
            CswitchError::Json(m) => String::from_str("JSON error: ").concat(m.as_str()),
            CswitchError::OAuth(m) => String::from_str("OAuth error: ").concat(m.as_str()),
        }
    }
}

} // verus!
