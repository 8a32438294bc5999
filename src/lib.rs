//! Switch the active credentials of an AI coding assistant between named
//! profiles.
//!
//! The library holds the verified core: the profile registry, the secret
//! tables, the edits to the host application's settings document, the PKCE
//! pieces of the OAuth flow and the decisions that activate a profile. Reading
//! and writing files, prompting and networking are left to the caller.
pub mod clock;
pub mod error;
pub mod profile;
pub mod keychain;
pub mod keyed;
pub mod text;
pub mod claude_config;
pub mod oauth;
pub mod switch;
pub mod cli;
