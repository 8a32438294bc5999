use cswitch::error::CswitchError;
use cswitch::oauth::{
    authorization_url, begin_oauth_flow, callback_code, generate_pkce, pkce_challenge,
    pkce_from_bytes, step_oauth_flow, token_form, urlencoding_encode, FlowAction, FlowEvent,
    FlowState, REDIRECT_URI,
};
use std::collections::HashSet;

#[test]
fn challenge_matches_known_vector() {
    let verifier = "dBjftJeZ4CVP-mB92K27uhbUJU1p1r_wW1gFWFOEjXk";
    assert_eq!(pkce_challenge(verifier), "E9Melhoa2OwvFrEMTJguCHaoeK1t8URWbuGJSstw-cM");
}

#[test]
fn challenge_is_deterministic() {
    let (verifier, challenge) = generate_pkce();
    assert_eq!(pkce_challenge(&verifier), challenge);
    assert_eq!(pkce_challenge(&verifier), pkce_challenge(&verifier.clone()));
}

#[test]
fn verifier_from_bytes_is_unpadded_url_safe_base64() {
    let bytes: Vec<u8> = (0u8..32).collect();
    let (verifier, challenge) = pkce_from_bytes(&bytes);
    assert_eq!(verifier, "AAECAwQFBgcICQoLDA0ODxAREhMUFRYXGBkaGxwdHh8");
    assert_eq!(challenge, pkce_challenge(&verifier));
    let (v2, _) = pkce_from_bytes(&[0xfb, 0xff]);
    assert_eq!(v2, "-_8");
}

#[test]
fn generated_verifiers_have_expected_length() {
    let (verifier, challenge) = generate_pkce();
    assert_eq!(verifier.len(), 43);
    assert_eq!(challenge.len(), 43);
    assert!(verifier.bytes().all(|b| b.is_ascii_alphanumeric() || b == b'-' || b == b'_'));
    assert!(challenge.bytes().all(|b| b.is_ascii_alphanumeric() || b == b'-' || b == b'_'));
}

#[test]
fn verifiers_do_not_repeat() {
    let mut seen = HashSet::new();
    for _ in 0..10_000 {
        let (verifier, _) = generate_pkce();
        assert!(seen.insert(verifier));
    }
}

#[test]
fn url_encoding() {
    assert_eq!(
        urlencoding_encode("http://localhost:19832/callback"),
        "http%3A%2F%2Flocalhost%3A19832%2Fcallback"
    );
    assert_eq!(urlencoding_encode("aZ09-_.~"), "aZ09-_.~");
    assert_eq!(urlencoding_encode("a b&é"), "a%20b%26%C3%A9");
    assert_eq!(urlencoding_encode(""), "");
}

#[test]
fn authorization_url_layout() {
    let url = authorization_url("test-client", "CHAL");
    assert_eq!(
        url,
        "https://console.anthropic.com/oauth/authorize?response_type=code&client_id=test-client\
         &redirect_uri=http%3A%2F%2Flocalhost%3A19832%2Fcallback&code_challenge=CHAL\
         &code_challenge_method=S256&scope=user:inference"
    );
}

#[test]
fn token_form_fields() {
    let form = token_form("test-client", "the-code", "the-verifier");
    let expected = vec![
        ("grant_type".to_string(), "authorization_code".to_string()),
        ("client_id".to_string(), "test-client".to_string()),
        ("code".to_string(), "the-code".to_string()),
        ("redirect_uri".to_string(), REDIRECT_URI.to_string()),
        ("code_verifier".to_string(), "the-verifier".to_string()),
    ];
    assert_eq!(form, expected);
}

#[test]
fn callback_code_extracted() {
    assert_eq!(callback_code("GET /callback?code=abc123 HTTP/1.1\r\n").unwrap(), "abc123");
    assert_eq!(
        callback_code("GET /callback?state=s&code=xyz&other=1 HTTP/1.1\r\n").unwrap(),
        "xyz"
    );
    assert_eq!(callback_code("  GET   /callback?code=q?tail HTTP/1.1").unwrap(), "q");
    assert_eq!(callback_code("GET /callback?code= HTTP/1.1").unwrap(), "");
}

#[test]
fn callback_without_code_fails() {
    for line in [
        "GET /callback HTTP/1.1\r\n",
        "GET /callback?state=1 HTTP/1.1\r\n",
        "GET /other?code=abc HTTP/1.1\r\n",
        "GET /callback?xcode=abc HTTP/1.1\r\n",
        "GET",
        "",
    ] {
        assert!(matches!(callback_code(line), Err(CswitchError::OAuth(_))), "{line:?}");
    }
}

#[test]
fn flow_succeeds_through_exchange() {
    let (state, url) = begin_oauth_flow("test-client");
    let verifier = match &state {
        FlowState::AwaitingCallback { client_id, verifier } => {
            assert_eq!(client_id, "test-client");
            verifier.clone()
        }
        _ => panic!("flow did not start waiting for the callback"),
    };
    assert_eq!(url, authorization_url("test-client", &pkce_challenge(&verifier)));
    let (state, action) =
        step_oauth_flow(state, FlowEvent::Request { line: "GET /callback?code=c0de HTTP/1.1\r\n".to_string() });
    assert!(matches!(state, FlowState::Exchanging));
    match action {
        FlowAction::RespondAndExchange { form } => {
            assert_eq!(form, token_form("test-client", "c0de", &verifier));
        }
        _ => panic!("expected the token exchange"),
    }
    let (state, action) =
        step_oauth_flow(state, FlowEvent::TokenBody { body: "{\"access_token\":\"t\"}".to_string() });
    assert!(matches!(&state, FlowState::Done { token } if token == "{\"access_token\":\"t\"}"));
    assert!(matches!(action, FlowAction::Persist { token } if token == "{\"access_token\":\"t\"}"));
    let (state, action) = step_oauth_flow(state, FlowEvent::TokenBody { body: "again".to_string() });
    assert!(matches!(&state, FlowState::Done { token } if token == "{\"access_token\":\"t\"}"));
    assert!(matches!(action, FlowAction::Stop));
}

#[test]
fn flow_fails_without_code() {
    let (state, _) = begin_oauth_flow("c");
    let (state, action) =
        step_oauth_flow(state, FlowEvent::Request { line: "GET /callback?error=denied HTTP/1.1".to_string() });
    assert!(matches!(state, FlowState::Failed { error: CswitchError::OAuth(_) }));
    assert!(matches!(action, FlowAction::Stop));
}

#[test]
fn flow_fails_on_listener_or_exchange_error() {
    let (state, _) = begin_oauth_flow("c");
    let (state, action) =
        step_oauth_flow(state, FlowEvent::ListenerFailed { reason: "port in use".to_string() });
    assert!(matches!(&state, FlowState::Failed { error: CswitchError::OAuth(m) } if m == "port in use"));
    assert!(matches!(action, FlowAction::Stop));

    let (state, _) = begin_oauth_flow("c");
    let (state, _) =
        step_oauth_flow(state, FlowEvent::Request { line: "GET /callback?code=x HTTP/1.1".to_string() });
    let (state, action) =
        step_oauth_flow(state, FlowEvent::ExchangeFailed { reason: "timeout".to_string() });
    assert!(matches!(&state, FlowState::Failed { error: CswitchError::OAuth(m) } if m == "timeout"));
    assert!(matches!(action, FlowAction::Stop));
}

#[test]
fn flow_rejects_out_of_order_event() {
    let (state, _) = begin_oauth_flow("c");
    let (state, action) = step_oauth_flow(state, FlowEvent::TokenBody { body: "x".to_string() });
    assert!(matches!(state, FlowState::Failed { error: CswitchError::OAuth(_) }));
    assert!(matches!(action, FlowAction::Stop));
}

#[test]
fn flows_draw_fresh_verifiers() {
    let (a, _) = begin_oauth_flow("c");
    let (b, _) = begin_oauth_flow("c");
    match (a, b) {
        (
            FlowState::AwaitingCallback { verifier: va, .. },
            FlowState::AwaitingCallback { verifier: vb, .. },
        ) => assert_ne!(va, vb),
        _ => panic!("flows did not start"),
    }
}

#[test]
fn verifier_length_follows_byte_count() {
    for n in 0..10usize {
        let bytes = vec![0xa5u8; n];
        let (verifier, _) = pkce_from_bytes(&bytes);
        assert_eq!(verifier.chars().count(), (4 * n + 2) / 3);
    }
}
