use cswitch::claude_config::{has_api_key_helper, render_settings};
use cswitch::clock::Timestamp;
use cswitch::error::CswitchError;
use cswitch::keychain::{get_api_key, get_oauth_token, set_api_key, CredentialStore};
use cswitch::profile::{Profile, ProfileStore, ProfileType};
use cswitch::switch::{
    activate, active_api_key, add_with_secret, forget_profile, has_api_key_prefix, mask_key,
};
use serde_json::Value;

fn at(seconds: i64) -> Timestamp {
    Timestamp { seconds, nanos: 0 }
}

fn profile(name: &str, kind: ProfileType) -> Profile {
    Profile::new(name.to_string(), kind, String::new(), at(100))
}

fn parse(text: &str) -> Value {
    serde_json::from_str(text).unwrap()
}

#[test]
fn end_to_end_switching() {
    let mut registry = ProfileStore::new();
    let mut secrets = CredentialStore::new();
    add_with_secret(&mut registry, &mut secrets, profile("work", ProfileType::ApiKey), "sk-ant-XXXX")
        .unwrap();
    let first = activate(&mut registry, &secrets, Some("{\"foo\": 1}".to_string()), "work", at(200))
        .unwrap();
    assert_eq!(registry.active().as_deref(), Some("work"));
    assert!(has_api_key_helper(&first.settings));
    assert!(first.host_credentials.is_none());
    assert_eq!(active_api_key(&registry, &secrets).unwrap(), "sk-ant-XXXX");

    let token = "{\"accessToken\":\"personal-token\"}";
    add_with_secret(&mut registry, &mut secrets, profile("personal", ProfileType::OAuth), token)
        .unwrap();
    let written = render_settings(&first.settings).unwrap();
    let second = activate(&mut registry, &secrets, Some(written), "personal", at(300)).unwrap();
    assert!(!has_api_key_helper(&second.settings));
    assert_eq!(second.settings, parse("{\"foo\": 1}"));
    assert_eq!(second.host_credentials.as_deref(), Some(token));
    assert_eq!(registry.active().as_deref(), Some("personal"));
    assert_eq!(registry.get_active().unwrap().last_used, Some(at(300)));
}

#[test]
fn activate_unknown_profile_fails() {
    let mut registry = ProfileStore::new();
    let secrets = CredentialStore::new();
    let err = activate(&mut registry, &secrets, None, "nobody", at(1)).err().unwrap();
    assert_eq!(err, CswitchError::ProfileNotFound("nobody".to_string()));
    assert!(registry.active().is_none());
}

#[test]
fn activate_without_secret_fails_and_keeps_registry() {
    let mut registry = ProfileStore::new();
    let mut secrets = CredentialStore::new();
    registry.add_profile(profile("k", ProfileType::ApiKey)).unwrap();
    registry.add_profile(profile("o", ProfileType::OAuth)).unwrap();
    let e1 = activate(&mut registry, &secrets, None, "k", at(1)).err().unwrap();
    assert!(matches!(e1, CswitchError::SecretNotFound(_)));
    let e2 = activate(&mut registry, &secrets, None, "o", at(1)).err().unwrap();
    assert!(matches!(e2, CswitchError::SecretNotFound(_)));
    assert!(registry.active().is_none());
    set_api_key(&mut secrets, "k", "sk-ant-1");
    let e3 = activate(&mut registry, &secrets, Some("[]".to_string()), "k", at(1)).err().unwrap();
    assert!(matches!(e3, CswitchError::ClaudeSettings(_)));
    assert!(registry.active().is_none());
    assert!(registry.get_profile("k").unwrap().last_used.is_none());
}

#[test]
fn add_with_taken_name_stores_nothing() {
    let mut registry = ProfileStore::new();
    let mut secrets = CredentialStore::new();
    add_with_secret(&mut registry, &mut secrets, profile("w", ProfileType::ApiKey), "one").unwrap();
    let err = add_with_secret(&mut registry, &mut secrets, profile("w", ProfileType::ApiKey), "two")
        .unwrap_err();
    assert_eq!(err, CswitchError::ProfileAlreadyExists("w".to_string()));
    assert_eq!(get_api_key(&secrets, "w").unwrap(), "one");
}

#[test]
fn forget_removes_profile_and_secret() {
    let mut registry = ProfileStore::new();
    let mut secrets = CredentialStore::new();
    add_with_secret(&mut registry, &mut secrets, profile("o", ProfileType::OAuth), "tok").unwrap();
    registry.set_active_at("o", at(5)).unwrap();
    let gone = forget_profile(&mut registry, &mut secrets, "o").unwrap();
    assert_eq!(gone.name, "o");
    assert!(get_oauth_token(&secrets, "o").is_err());
    assert_eq!(registry.get_active().unwrap_err(), CswitchError::NoActiveProfile);
    let err = forget_profile(&mut registry, &mut secrets, "o").unwrap_err();
    assert_eq!(err, CswitchError::ProfileNotFound("o".to_string()));
}

#[test]
fn emit_key_needs_an_active_api_key() {
    let mut registry = ProfileStore::new();
    let mut secrets = CredentialStore::new();
    assert_eq!(active_api_key(&registry, &secrets).unwrap_err(), CswitchError::NoActiveProfile);
    add_with_secret(&mut registry, &mut secrets, profile("o", ProfileType::OAuth), "tok").unwrap();
    registry.set_active_at("o", at(5)).unwrap();
    assert!(matches!(active_api_key(&registry, &secrets), Err(CswitchError::SecretNotFound(_))));
}

#[test]
fn api_key_prefix() {
    assert!(has_api_key_prefix("sk-ant-abc"));
    assert!(has_api_key_prefix("sk-ant-"));
    assert!(!has_api_key_prefix("sk-an"));
    assert!(!has_api_key_prefix("xsk-ant-abc"));
}

#[test]
fn masking() {
    assert_eq!(mask_key("sk-ant-api03-abcdefWXYZ"), "sk-ant-...WXYZ");
    assert_eq!(mask_key("0123456789"), "***");
    assert_eq!(mask_key("0123456789A"), "0123456...789A");
    assert_eq!(mask_key(""), "***");
}

#[test]
fn emit_key_without_stored_key_is_secret_not_found() {
    let mut registry = ProfileStore::new();
    let secrets = CredentialStore::new();
    registry.add_profile(profile("k", ProfileType::ApiKey)).unwrap();
    registry.set_active_at("k", at(5)).unwrap();
    assert!(matches!(active_api_key(&registry, &secrets), Err(CswitchError::SecretNotFound(_))));
}
