use vstd::prelude::*;

use crate::claude_config::{
    disable_api_key_helper, enable_api_key_helper, object_fields, parsed_json, read_settings,
    with_helper, without_helper,
};
use crate::clock::Timestamp;
use crate::error::{is_not_found, CswitchError};
use crate::keychain::{
    delete_api_key, delete_oauth_token, get_api_key, get_oauth_token, set_api_key,
    set_oauth_token, CredentialStore,
};
use crate::text::{chars_of, starts_with_at};
use crate::profile::{after_add, after_remove, after_set_active, Profile, ProfileStore, ProfileType};
use serde_json::Value;

verus! {

/// The fields of the settings document held in the settings file's text
/// (`None`: no file), where it is a JSON object.
pub open spec fn settings_fields(contents: Option<String>) -> Option<Map<Seq<char>, Value>> {
    match contents {
        None => Some(Map::empty()),
        Some(t) => match parsed_json(t@) {
            Some(v) => object_fields(v),
            None => None,
        },
    }
}

/// What the host application must be given once a profile is activated.
pub struct Activation {
    /// The settings document to write back.
    pub settings: Value,
    /// The credentials to write into the host application's own store, for
    /// an OAuth profile.
    pub host_credentials: Option<String>,
}

/// Activates the profile called `name` at `now`: checks that its secret is
/// stored, computes the host application's new settings and credentials, and
/// records the profile as active. `settings_file` is the text of the host
/// settings file, `None` where there is none. On failure nothing changes.
pub fn activate(
    registry: &mut ProfileStore,
    secrets: &CredentialStore,
    settings_file: Option<String>,
    name: &str,
    now: Timestamp,
) -> (r: Result<Activation, CswitchError>)
    ensures
        r is Err ==> final(registry)@ == old(registry)@,
        !old(registry)@.profiles.contains_key(name@) ==> r is Err && is_not_found(r->Err_0, name@),
        old(registry)@.profiles.contains_key(name@) ==> ({
            let kind = old(registry)@.profiles[name@].profile_type;
            let slot = if kind == ProfileType::ApiKey {
                secrets.api_keys@
            } else {
                secrets.oauth_tokens@
            };
            &&& !slot.contains_key(name@) ==> r is Err && r->Err_0 is SecretNotFound
            &&& slot.contains_key(name@) && settings_fields(settings_file) is None ==> r is Err
                && r->Err_0 is ClaudeSettings
            &&& slot.contains_key(name@) && settings_fields(settings_file) is Some ==> {
                &&& r is Ok
                &&& final(registry)@ == after_set_active(old(registry)@, name@, now)
                &&& kind == ProfileType::ApiKey ==> object_fields(r->Ok_0.settings) == Some(
                    with_helper(settings_fields(settings_file)->Some_0),
                ) && r->Ok_0.host_credentials is None
                &&& kind == ProfileType::OAuth ==> object_fields(r->Ok_0.settings) == Some(
                    without_helper(settings_fields(settings_file)->Some_0),
                ) && r->Ok_0.host_credentials is Some && r->Ok_0.host_credentials->Some_0@
                    == secrets.oauth_tokens@[name@]
            }
        }),
{
    let kind = match registry.get_profile(name) {
        Ok(p) => p.profile_type,
        Err(e) => {
            return Err(e);
        },
    };
    let activation = match kind {
        ProfileType::ApiKey => {
            match get_api_key(secrets, name) {
                Ok(_) => {},
                Err(e) => {
                    return Err(e);
                },
            }
            let settings = read_settings(settings_file)?;
            let settings = enable_api_key_helper(settings)?;
            Activation { settings, host_credentials: None }
        },
        ProfileType::OAuth => {
            let token = get_oauth_token(secrets, name)?;
            let settings = read_settings(settings_file)?;
            let settings = disable_api_key_helper(settings)?;
            Activation { settings, host_credentials: Some(token) }
        },
    };
    match registry.set_active_at(name, now) {
        Ok(()) => Ok(activation),
        Err(e) => Err(e),
    }
}

/// Registers `profile` and stores `secret` in the slot of its kind: the API
/// key slot or the OAuth token slot. Fails, changing nothing, where the name
/// is taken.
pub fn add_with_secret(
    registry: &mut ProfileStore,
    secrets: &mut CredentialStore,
    profile: Profile,
    secret: &str,
) -> (r: Result<(), CswitchError>)
    ensures
        old(registry)@.profiles.contains_key(profile.name@) ==> r is Err
            && r->Err_0 is ProfileAlreadyExists && final(registry)@ == old(registry)@
            && final(secrets).api_keys@ == old(secrets).api_keys@ && final(secrets).oauth_tokens@
            == old(secrets).oauth_tokens@,
        !old(registry)@.profiles.contains_key(profile.name@) ==> r is Ok && final(registry)@
            == after_add(old(registry)@, profile@) && (profile.profile_type == ProfileType::ApiKey
            ==> final(secrets).api_keys@ == old(secrets).api_keys@.insert(profile.name@, secret@)
            && final(secrets).oauth_tokens@ == old(secrets).oauth_tokens@) && (profile.profile_type
            == ProfileType::OAuth ==> final(secrets).oauth_tokens@ == old(
            secrets,
        ).oauth_tokens@.insert(profile.name@, secret@) && final(secrets).api_keys@ == old(
            secrets,
        ).api_keys@),
{
    if registry.has_profile(profile.name.as_str()) {
        return Err(CswitchError::ProfileAlreadyExists(profile.name));
    }
    match profile.profile_type {
        ProfileType::ApiKey => set_api_key(secrets, profile.name.as_str(), secret),
        ProfileType::OAuth => set_oauth_token(secrets, profile.name.as_str(), secret),
    }
    registry.add_profile(profile)
}

/// Removes the profile called `name` together with the secret in the slot of
/// its kind, and hands the profile back. Fails, changing nothing, where no
/// such profile is registered.
pub fn forget_profile(registry: &mut ProfileStore, secrets: &mut CredentialStore, name: &str) -> (r:
    Result<Profile, CswitchError>)
    ensures
        !old(registry)@.profiles.contains_key(name@) ==> r is Err && is_not_found(r->Err_0, name@)
            && final(registry)@ == old(registry)@ && final(secrets).api_keys@ == old(
            secrets,
        ).api_keys@ && final(secrets).oauth_tokens@ == old(secrets).oauth_tokens@,
        old(registry)@.profiles.contains_key(name@) ==> r is Ok && r->Ok_0@ == old(
            registry,
        )@.profiles[name@] && final(registry)@ == after_remove(old(registry)@, name@) && (
        r->Ok_0.profile_type == ProfileType::ApiKey ==> final(secrets).api_keys@ == old(
            secrets,
        ).api_keys@.remove(name@) && final(secrets).oauth_tokens@ == old(secrets).oauth_tokens@)
            && (r->Ok_0.profile_type == ProfileType::OAuth ==> final(secrets).oauth_tokens@ == old(
            secrets,
        ).oauth_tokens@.remove(name@) && final(secrets).api_keys@ == old(secrets).api_keys@),
{
    let kind = match registry.get_profile(name) {
        Ok(p) => p.profile_type,
        Err(e) => {
            return Err(e);
        },
    };
    match kind {
        ProfileType::ApiKey => delete_api_key(secrets, name),
        ProfileType::OAuth => delete_oauth_token(secrets, name),
    }
    registry.remove_profile(name)
}

/// The API key of the active profile, as the key-helper command prints it.
pub fn active_api_key(registry: &ProfileStore, secrets: &CredentialStore) -> (r: Result<
    String,
    CswitchError,
>)
    ensures
        registry@.active is None ==> r is Err && r->Err_0 is NoActiveProfile,
        registry@.active is Some && !registry@.profiles.contains_key(registry@.active->Some_0)
            ==> r is Err && is_not_found(r->Err_0, registry@.active->Some_0),
        registry@.active is Some && registry@.profiles.contains_key(registry@.active->Some_0) ==> (
        r is Ok <==> secrets.api_keys@.contains_key(registry@.active->Some_0)),
        registry@.active is Some && registry@.profiles.contains_key(registry@.active->Some_0)
            && !secrets.api_keys@.contains_key(registry@.active->Some_0) ==> r is Err
            && r->Err_0 is SecretNotFound,
        r is Ok ==> registry@.active is Some && r->Ok_0@ == secrets.api_keys@[registry@.active->Some_0],
{
    let profile = registry.get_active()?;
    get_api_key(secrets, profile.name.as_str())
}

/// Whether `key` has the prefix of an Anthropic API key, `sk-ant-`. A key
/// without it is stored all the same, with a warning.
pub fn has_api_key_prefix(key: &str) -> (r: bool)
    ensures
        r == (key@.len() >= "sk-ant-"@.len() && key@.subrange(0, "sk-ant-"@.len() as int)
            == "sk-ant-"@),
{
    let v = chars_of(key);
    starts_with_at(&v, 0, v.len(), "sk-ant-")
}

/// How a stored API key is shown: its first seven and last four characters
/// around `...` where it is longer than ten characters, `***` otherwise.
pub open spec fn masked_of(key: Seq<char>) -> Seq<char> {
    if key.len() > 10 {
        key.subrange(0, 7) + "..."@ + key.subrange(key.len() - 4, key.len() as int)
    } else {
        "***"@
    }
}

/// The API key `key` masked for display.
pub fn mask_key(key: &str) -> (r: String)
    ensures
        r@ == masked_of(key@),
{
    let n = key.unicode_len();
    if n > 10 {
        String::from_str(key.substring_char(0, 7)).concat("...").concat(key.substring_char(n - 4, n))
    } else {
        String::from_str("***")
    }
}

} // verus!
