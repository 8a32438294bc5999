use cswitch::error::CswitchError;
use cswitch::keychain::{
    credentials_from_output, delete_api_key, delete_oauth_token, get_api_key, get_oauth_token,
    set_api_key, set_oauth_token, CredentialStore, SecretTable,
};

#[test]
fn api_key_round_trip() {
    let mut store = CredentialStore::new();
    set_api_key(&mut store, "p", "sk-ant-abc");
    assert_eq!(get_api_key(&store, "p").unwrap(), "sk-ant-abc");
    delete_api_key(&mut store, "p");
    let err = get_api_key(&store, "p").unwrap_err();
    assert_eq!(err, CswitchError::SecretNotFound("No API key found for profile 'p'".to_string()));
}

#[test]
fn api_key_overwrite_keeps_latest() {
    let mut store = CredentialStore::new();
    set_api_key(&mut store, "p", "first");
    set_api_key(&mut store, "p", "second");
    assert_eq!(get_api_key(&store, "p").unwrap(), "second");
    assert_eq!(store.api_keys.entries().len(), 1);
}

#[test]
fn delete_missing_api_key_is_harmless() {
    let mut store = CredentialStore::new();
    set_api_key(&mut store, "q", "k");
    delete_api_key(&mut store, "p");
    assert_eq!(get_api_key(&store, "q").unwrap(), "k");
}

#[test]
fn oauth_token_round_trip_and_separate_namespace() {
    let mut store = CredentialStore::new();
    set_oauth_token(&mut store, "p", "{\"access\":\"t\"}");
    assert_eq!(get_oauth_token(&store, "p").unwrap(), "{\"access\":\"t\"}");
    assert!(matches!(get_api_key(&store, "p"), Err(CswitchError::SecretNotFound(_))));
    set_api_key(&mut store, "p", "sk-ant-1");
    delete_oauth_token(&mut store, "p");
    let err = get_oauth_token(&store, "p").unwrap_err();
    assert_eq!(
        err,
        CswitchError::SecretNotFound("No OAuth token found for profile 'p'".to_string())
    );
    assert_eq!(get_api_key(&store, "p").unwrap(), "sk-ant-1");
}

#[test]
fn secret_table_from_entries() {
    let t = SecretTable::from_entries(vec![
        ("a".to_string(), "1".to_string()),
        ("b".to_string(), "2".to_string()),
    ])
    .unwrap();
    assert_eq!(t.get("b").as_deref(), Some("2"));
    assert!(t.get("c").is_none());
    let dup = SecretTable::from_entries(vec![
        ("a".to_string(), "1".to_string()),
        ("a".to_string(), "2".to_string()),
    ]);
    assert!(matches!(dup, Err(CswitchError::Keychain(_))));
}

#[test]
fn credentials_output_drops_only_the_line_ending() {
    let r = credentials_from_output(true, b"{\"token\":1}\n".to_vec()).unwrap();
    assert_eq!(r, "{\"token\":1}");
    let r = credentials_from_output(true, b"  {\"token\":1} \n\n".to_vec()).unwrap();
    assert_eq!(r, "  {\"token\":1} \n");
    assert_eq!(credentials_from_output(true, b"abc".to_vec()).unwrap(), "abc");
}

#[test]
fn credentials_output_failure_and_bad_encoding() {
    assert!(matches!(
        credentials_from_output(false, b"x".to_vec()),
        Err(CswitchError::Keychain(_))
    ));
    assert!(matches!(
        credentials_from_output(true, vec![0xff, 0xfe]),
        Err(CswitchError::Keychain(_))
    ));
}

#[test]
fn credentials_output_keeps_surrounding_space() {
    let r = credentials_from_output(true, "\u{3000}\t a b \r\n".as_bytes().to_vec()).unwrap();
    assert_eq!(r, "\u{3000}\t a b \r");
    assert_eq!(credentials_from_output(true, b"\n".to_vec()).unwrap(), "");
    assert_eq!(credentials_from_output(true, Vec::new()).unwrap(), "");
}
