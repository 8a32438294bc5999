use vstd::prelude::*;

use crate::error::CswitchError;
use crate::text::{chars_of, is_white_space, push_char, starts_with_at, white_space};
use base64::Engine;
use sha2::Digest;
use vstd::utf8::encode_utf8;

verus! {

/// The authorization endpoint the browser is sent to.
pub const AUTH_URL: &'static str = "https://console.anthropic.com/oauth/authorize";

/// The endpoint that exchanges an authorization code for a token bundle.
pub const TOKEN_URL: &'static str = "https://console.anthropic.com/oauth/token";

/// The loopback port the callback listener binds.
pub const REDIRECT_PORT: u16 = 19832;

/// The redirect URI registered for the callback listener.
pub const REDIRECT_URI: &'static str = "http://localhost:19832/callback";

/// The whole HTTP response sent back to the browser once a code arrived.
pub const CALLBACK_RESPONSE: &'static str = "HTTP/1.1 200 OK\r\nContent-Type: text/html\r\n\r\n<html><body><h2>Authentication successful!</h2><p>You can close this tab.</p></body></html>";

/// The number of random bytes behind a PKCE verifier.
pub const VERIFIER_BYTES: usize = 32;

/// The SHA-256 digest of `data`.
pub uninterp spec fn sha256_of(data: Seq<u8>) -> Seq<u8>;

/// The URL-safe base64 text of `data`, without padding.
pub uninterp spec fn base64url_of(data: Seq<u8>) -> Seq<char>;

/// Relies on sha2::Sha256 (through `Digest::digest`): the SHA-256 digest of
/// `data`, 32 bytes long.
#[verifier::external_body]
fn sha256_digest(data: &[u8]) -> (r: Vec<u8>)
    ensures
        r@ == sha256_of(data@),
        r@.len() == 32,
{
    sha2::Sha256::digest(data).to_vec()
}

/// A character of the URL-safe base64 alphabet: a letter, a digit, `-` or `_`.
pub open spec fn is_url_safe_char(c: char) -> bool {
    let u = c as u32;
    ||| 0x41 <= u <= 0x5A
    ||| 0x61 <= u <= 0x7A
    ||| 0x30 <= u <= 0x39
    ||| u == 0x2D
    ||| u == 0x5F
}

/// Every character of `s` is of the URL-safe base64 alphabet; in particular
/// `s` holds no padding `=`.
pub open spec fn url_safe_text(s: Seq<char>) -> bool {
    forall|i: int| 0 <= i < s.len() ==> is_url_safe_char(#[trigger] s[i])
}

/// Relies on base64's URL_SAFE_NO_PAD engine (`Engine::encode`): the
/// URL-safe base64 text of `data`, without padding, written in the alphabet
/// `alphabet::URL_SAFE`, whose length `encoded_len` gives as four characters
/// for each three bytes and two or three for a last one or two. That length
/// must fit in `usize`.
#[verifier::external_body]
fn base64url_encode(data: &[u8]) -> (r: String)
    requires
        data@.len() <= usize::MAX / 2,
    ensures
        r@ == base64url_of(data@),
        r@.len() == (4 * data@.len() + 2) / 3,
        url_safe_text(r@),
{
    base64::engine::general_purpose::URL_SAFE_NO_PAD.encode(data)
}

/// Relies on rand's `thread_rng` and `Rng::fill`: `n` bytes drawn from a
/// cryptographically secure generator.
#[verifier::external_body]
fn random_bytes(n: usize) -> (r: Vec<u8>)
    ensures
        r@.len() == n,
{
    let mut bytes = vec![0u8; n];
    rand::Rng::fill(&mut rand::thread_rng(), &mut bytes[..]);
    bytes
}

/// The PKCE challenge of a verifier: the URL-safe, unpadded base64 text of the
/// SHA-256 digest of its UTF-8 bytes.
pub open spec fn challenge_of(verifier: Seq<char>) -> Seq<char> {
    base64url_of(sha256_of(encode_utf8(verifier)))
}

/// The PKCE challenge derived from `verifier`.
pub fn pkce_challenge(verifier: &str) -> (r: String)
    ensures
        r@ == challenge_of(verifier@),
        r@.len() == 43,
        url_safe_text(r@),
{
    let digest = sha256_digest(verifier.as_bytes());
    base64url_encode(digest.as_slice())
}

/// The PKCE verifier made of the random bytes `bytes`, and its challenge.
/// The length bound is that of any slice of bytes in memory.
pub fn pkce_from_bytes(bytes: &[u8]) -> (r: (String, String))
    requires
        bytes@.len() <= usize::MAX / 2,
    ensures
        r.0@ == base64url_of(bytes@),
        r.0@.len() == (4 * bytes@.len() + 2) / 3,
        url_safe_text(r.0@),
        r.1@ == challenge_of(r.0@),
        r.1@.len() == 43,
        url_safe_text(r.1@),
{
    let verifier = base64url_encode(bytes);
    let challenge = pkce_challenge(verifier.as_str());
    (verifier, challenge)
}

/// A fresh PKCE verifier, made of newly drawn random bytes, and its challenge.
pub fn generate_pkce() -> (r: (String, String))
    ensures
        exists|b: Seq<u8>| b.len() == VERIFIER_BYTES && r.0@ == base64url_of(b),
        r.0@.len() == 43,
        url_safe_text(r.0@),
        r.1@.len() == 43,
        url_safe_text(r.1@),
        r.1@ == challenge_of(r.0@),
{
    let bytes = random_bytes(VERIFIER_BYTES);
    pkce_from_bytes(bytes.as_slice())
}

/// The challenge depends on the verifier alone: deriving it twice from the
/// same verifier gives the same text, so the challenge that comes with a
/// generated verifier can be reproduced from the verifier.
pub proof fn law_challenge_reproducible(verifier: Seq<char>, again: Seq<char>)
    requires
        verifier == again,
    ensures
        challenge_of(verifier) == challenge_of(again),
        challenge_of(verifier) == base64url_of(sha256_of(encode_utf8(again))),
{
}

/// A byte that stands for itself in a URL component.
pub open spec fn is_unreserved(b: u8) -> bool {
    ||| 0x41 <= b <= 0x5A
    ||| 0x61 <= b <= 0x7A
    ||| 0x30 <= b <= 0x39
    ||| b == 0x2D
    ||| b == 0x5F
    ||| b == 0x2E
    ||| b == 0x7E
}

/// The upper-case hexadecimal digit of `n`, below 16.
pub open spec fn hex_digit(n: u8) -> char {
    if n < 10 {
        ((0x30 + n) as u8) as char
    } else {
        ((0x37 + n) as u8) as char
    }
}

/// How one byte is written in a URL component.
pub open spec fn encode_byte(b: u8) -> Seq<char> {
    if is_unreserved(b) {
        seq![b as char]
    } else {
        seq!['%', hex_digit(b / 16), hex_digit(b % 16)]
    }
}

/// The percent-encoding of `bytes`, byte after byte.
pub open spec fn url_encoded(bytes: Seq<u8>) -> Seq<char>
    decreases bytes.len(),
{
    if bytes.len() == 0 {
        Seq::empty()
    } else {
        url_encoded(bytes.drop_last()) + encode_byte(bytes.last())
    }
}

fn hex_digit_char(n: u8) -> (r: char)
    requires
        n < 16,
    ensures
        r == hex_digit(n),
{
    if n < 10 {
        (0x30 + n) as char
    } else {
        (0x37 + n) as char
    }
}

/// `s` percent-encoded for use in a URL: letters, digits and `-_.~` stay as
/// they are, every other byte of its UTF-8 form becomes `%` and two
/// upper-case hexadecimal digits.
pub fn urlencoding_encode(s: &str) -> (r: String)
    ensures
        r@ == url_encoded(encode_utf8(s@)),
{
    let bytes = s.as_bytes();
    let mut r = String::new();
    let mut i: usize = 0;
    while i < bytes.len()
        invariant
            bytes@ == encode_utf8(s@),
            i <= bytes@.len(),
            r@ == url_encoded(bytes@.subrange(0, i as int)),
        decreases bytes@.len() - i,
    {
        let b = bytes[i];
        proof {
            let next = bytes@.subrange(0, i + 1);
            assert(next.drop_last() =~= bytes@.subrange(0, i as int));
            assert(next.last() == b);
        }
        if (0x41 <= b && b <= 0x5A) || (0x61 <= b && b <= 0x7A) || (0x30 <= b && b <= 0x39) || b
            == 0x2D || b == 0x5F || b == 0x2E || b == 0x7E {
            push_char(&mut r, b as char);
            proof {
                assert(r@ =~= url_encoded(bytes@.subrange(0, i + 1)));
            }
        } else {
            push_char(&mut r, '%');
            push_char(&mut r, hex_digit_char(b / 16));
            push_char(&mut r, hex_digit_char(b % 16));
            proof {
                assert(r@ =~= url_encoded(bytes@.subrange(0, i + 1)));
            }
        }
        i = i + 1;
    }
    proof {
        assert(bytes@.subrange(0, i as int) =~= bytes@);
    }
    r
}

/// The URL the browser is sent to, asking on behalf of the OAuth client
/// `client_id` for a code bound to `challenge`.
pub open spec fn authorization_url_of(client_id: Seq<char>, challenge: Seq<char>) -> Seq<char> {
    AUTH_URL@ + "?response_type=code&client_id="@ + client_id + "&redirect_uri="@ + url_encoded(
        encode_utf8(REDIRECT_URI@),
    ) + "&code_challenge="@ + challenge + "&code_challenge_method=S256&scope=user:inference"@
}

/// The authorization URL for the OAuth client `client_id` and the PKCE
/// challenge `challenge`.
pub fn authorization_url(client_id: &str, challenge: &str) -> (r: String)
    ensures
        r@ == authorization_url_of(client_id@, challenge@),
{
    let redirect = urlencoding_encode(REDIRECT_URI);
    String::from_str(AUTH_URL).concat("?response_type=code&client_id=").concat(client_id).concat(
        "&redirect_uri=",
    ).concat(redirect.as_str()).concat("&code_challenge=").concat(challenge).concat(
        "&code_challenge_method=S256&scope=user:inference",
    )
}

/// The names and values of form fields.
pub open spec fn form_view(f: Seq<(String, String)>) -> Seq<(Seq<char>, Seq<char>)> {
    f.map_values(|p: (String, String)| (p.0@, p.1@))
}

/// The form fields of the token request, in order.
pub open spec fn token_form_of(client_id: Seq<char>, code: Seq<char>, verifier: Seq<char>) -> Seq<
    (Seq<char>, Seq<char>),
> {
    seq![
        ("grant_type"@, "authorization_code"@),
        ("client_id"@, client_id),
        ("code"@, code),
        ("redirect_uri"@, REDIRECT_URI@),
        ("code_verifier"@, verifier),
    ]
}

/// The form with which the OAuth client `client_id` exchanges the
/// authorization code `code` for a token bundle, proving possession of
/// `verifier`.
pub fn token_form(client_id: &str, code: &str, verifier: &str) -> (r: Vec<(String, String)>)
    ensures
        form_view(r@) == token_form_of(client_id@, code@, verifier@),
{
    let mut r: Vec<(String, String)> = Vec::new();
    r.push((String::from_str("grant_type"), String::from_str("authorization_code")));
    r.push((String::from_str("client_id"), String::from_str(client_id)));
    r.push((String::from_str("code"), String::from_str(code)));
    r.push((String::from_str("redirect_uri"), String::from_str(REDIRECT_URI)));
    r.push((String::from_str("code_verifier"), String::from_str(verifier)));
    proof {
        assert(r@.map_values(|f: (String, String)| (f.0@, f.1@)) =~= token_form_of(
            client_id@,
            code@,
            verifier@,
        ));
    }
    r
}

/// The index of the first character of `s` at or after `i` that is not
/// white space, or the length of `s`.
pub open spec fn skip_space(s: Seq<char>, i: int) -> int
    decreases s.len() - i,
{
    if 0 <= i < s.len() && is_white_space(s[i]) {
        skip_space(s, i + 1)
    } else {
        i
    }
}

/// The index of the first white space character of `s` at or after `i`, or
/// the length of `s`.
pub open spec fn word_end(s: Seq<char>, i: int) -> int
    decreases s.len() - i,
{
    if 0 <= i < s.len() && !is_white_space(s[i]) {
        word_end(s, i + 1)
    } else {
        i
    }
}

/// The index of the first `c` in `s` from `i` up to `end`, or `end`.
pub open spec fn find_from(s: Seq<char>, c: char, i: int, end: int) -> int
    decreases end - i,
{
    if i < end {
        if s[i] == c {
            i
        } else {
            find_from(s, c, i + 1, end)
        }
    } else {
        end
    }
}

/// Where, in the query `s[i..end]`, the value of the first `&`-separated
/// parameter that starts with `code=` lies.
pub open spec fn code_from(s: Seq<char>, i: int, end: int) -> Option<(int, int)>
    decreases end - i,
{
    let e = find_from(s, '&', i, end);
    if e - i >= "code="@.len() && s.subrange(i, i + "code="@.len()) == "code="@ {
        Some((i + "code="@.len(), e))
    } else if i <= e < end {
        code_from(s, e + 1, end)
    } else {
        None
    }
}

/// Where the authorization code lies in an HTTP request line. The request
/// target is the second white-space separated word; its path must be
/// `/callback`, and its query runs from the first `?` to the next `?` or the
/// end of the target.
pub open spec fn code_span(s: Seq<char>) -> Option<(int, int)> {
    let a = skip_space(s, 0);
    let b = word_end(s, a);
    let c = skip_space(s, b);
    let d = word_end(s, c);
    let q = find_from(s, '?', c, d);
    if c < d && q < d && s.subrange(c, q) == "/callback"@ {
        code_from(s, q + 1, find_from(s, '?', q + 1, d))
    } else {
        None
    }
}

/// The authorization code carried by the HTTP request line `line`, if any.
pub open spec fn callback_code_of(line: Seq<char>) -> Option<Seq<char>> {
    match code_span(line) {
        Some(span) => Some(line.subrange(span.0, span.1)),
        None => None,
    }
}

fn skip_space_at(v: &Vec<char>, i: usize) -> (r: usize)
    requires
        i <= v@.len(),
    ensures
        r == skip_space(v@, i as int),
        i <= r <= v@.len(),
{
    let mut j = i;
    while j < v.len() && white_space(v[j])
        invariant
            i <= j <= v@.len(),
            skip_space(v@, j as int) == skip_space(v@, i as int),
        decreases v@.len() - j,
    {
        j = j + 1;
    }
    j
}

fn word_end_at(v: &Vec<char>, i: usize) -> (r: usize)
    requires
        i <= v@.len(),
    ensures
        r == word_end(v@, i as int),
        i <= r <= v@.len(),
{
    let mut j = i;
    while j < v.len() && !white_space(v[j])
        invariant
            i <= j <= v@.len(),
            word_end(v@, j as int) == word_end(v@, i as int),
        decreases v@.len() - j,
    {
        j = j + 1;
    }
    j
}

fn find_at(v: &Vec<char>, c: char, i: usize, end: usize) -> (r: usize)
    requires
        i <= end <= v@.len(),
    ensures
        r == find_from(v@, c, i as int, end as int),
        i <= r <= end,
{
    let mut j = i;
    while j < end && v[j] != c
        invariant
            i <= j <= end,
            end <= v@.len(),
            find_from(v@, c, j as int, end as int) == find_from(v@, c, i as int, end as int),
        decreases end - j,
    {
        j = j + 1;
    }
    j
}

fn code_in_query(v: &Vec<char>, start: usize, end: usize) -> (r: Option<(usize, usize)>)
    requires
        start <= end <= v@.len(),
    ensures
        match r {
            Some(span) => code_from(v@, start as int, end as int) == Some(
                (span.0 as int, span.1 as int),
            ) && span.0 <= span.1 <= end,
            None => code_from(v@, start as int, end as int) is None,
        },
{
    let prefix_len = "code=".unicode_len();
    let mut i = start;
    loop
        invariant
            start <= i <= end <= v@.len(),
            prefix_len == "code="@.len(),
            code_from(v@, i as int, end as int) == code_from(v@, start as int, end as int),
        decreases end - i,
    {
        let e = find_at(v, '&', i, end);
        if starts_with_at(v, i, e, "code=") {
            return Some((i + prefix_len, e));
        }
        if e < end {
            i = e + 1;
        } else {
            return None;
        }
    }
}

/// The authorization code in the HTTP request line that the browser sent to
/// the callback listener. Fails where the target is not `/callback` or its
/// query carries no `code` parameter.
pub fn callback_code(request_line: &str) -> (r: Result<String, CswitchError>)
    ensures
        r is Ok <==> callback_code_of(request_line@) is Some,
        r is Ok ==> r->Ok_0@ == callback_code_of(request_line@)->Some_0,
        r is Err ==> r->Err_0 is OAuth,
{
    let v = chars_of(request_line);
    let a = skip_space_at(&v, 0);
    let b = word_end_at(&v, a);
    let c = skip_space_at(&v, b);
    let d = word_end_at(&v, c);
    let q = find_at(&v, '?', c, d);
    let span = if c < d && q < d && starts_with_at(&v, c, q, "/callback") && q - c
        == "/callback".unicode_len() {
        proof {
            assert(v@.subrange(c as int, q as int) =~= v@.subrange(
                c as int,
                c + "/callback"@.len(),
            ));
        }
        let e = find_at(&v, '?', q + 1, d);
        code_in_query(&v, q + 1, e)
    } else {
        proof {
            if c < d && q < d && v@.subrange(c as int, q as int) == "/callback"@ {
                assert(v@.subrange(c as int, c + "/callback"@.len()) =~= v@.subrange(
                    c as int,
                    q as int,
                ));
            }
        }
        None
    };
    match span {
        Some((x, y)) => Ok(String::from_str(request_line.substring_char(x, y))),
        None => Err(CswitchError::OAuth(String::from_str("No authorization code received"))),
    }
}

/// Where an OAuth authorization stands. A flow is never retried: it ends in
/// `Done` or `Failed`, and a new flow draws a new verifier.
pub enum FlowState {
    /// The browser was sent to the authorization URL; the listener waits for
    /// the redirect that carries the code.
    AwaitingCallback { client_id: String, verifier: String },
    /// The code arrived and the token request is under way.
    Exchanging,
    /// The token bundle arrived.
    Done { token: String },
    /// The flow stopped on this error.
    Failed { error: CswitchError },
}

/// What the caller observed while performing the last action.
pub enum FlowEvent {
    /// The listener read this HTTP request line.
    Request { line: String },
    /// The listener could not bind, accept or read.
    ListenerFailed { reason: String },
    /// The token endpoint answered with this body.
    TokenBody { body: String },
    /// The token request could not be made or answered.
    ExchangeFailed { reason: String },
}

/// What the caller is to do next.
pub enum FlowAction {
    /// Send `CALLBACK_RESPONSE` to the browser, close the listener, then post
    /// `form` to `TOKEN_URL`.
    RespondAndExchange { form: Vec<(String, String)> },
    /// Store `token` in the profile's OAuth slot.
    Persist { token: String },
    /// Nothing more: the flow has ended.
    Stop,
}

/// `e` is an OAuth error with the message `m`.
pub open spec fn is_oauth_error(e: CswitchError, m: Seq<char>) -> bool {
    e matches CswitchError::OAuth(t) && t@ == m
}

/// Starts a flow for the OAuth client `client_id` with a fresh verifier. The
/// caller opens the returned URL in a browser and waits for the callback.
pub fn begin_oauth_flow(client_id: &str) -> (r: (FlowState, String))
    ensures
        r.0 is AwaitingCallback,
        r.0->client_id@ == client_id@,
        exists|b: Seq<u8>| b.len() == VERIFIER_BYTES && r.0->verifier@ == base64url_of(b),
        r.0->verifier@.len() == 43,
        url_safe_text(r.0->verifier@),
        r.1@ == authorization_url_of(client_id@, challenge_of(r.0->verifier@)),
{
    let (verifier, challenge) = generate_pkce();
    let url = authorization_url(client_id, challenge.as_str());
    (FlowState::AwaitingCallback { client_id: String::from_str(client_id), verifier }, url)
}

/// The next state of a flow in `state` once `event` was observed, and what to
/// do then. The code in the callback is exchanged together with the flow's
/// own verifier; any failure ends the flow; an ended flow stays as it is; an
/// event that does not fit the state ends the flow.
pub fn step_oauth_flow(state: FlowState, event: FlowEvent) -> (r: (FlowState, FlowAction))
    ensures
        match (state, event) {
            (FlowState::AwaitingCallback { client_id, verifier }, FlowEvent::Request { line }) => {
                match callback_code_of(line@) {
                    Some(code) => r.0 is Exchanging && r.1 is RespondAndExchange && form_view(
                        r.1->form@,
                    ) == token_form_of(client_id@, code, verifier@),
                    None => r.0 is Failed && r.0->error is OAuth && r.1 is Stop,
                }
            },
            (FlowState::AwaitingCallback { .. }, FlowEvent::ListenerFailed { reason }) => r.0 is Failed
                && is_oauth_error(r.0->error, reason@) && r.1 is Stop,
            (FlowState::Exchanging, FlowEvent::TokenBody { body }) => r.0 is Done && r.0->token@
                == body@ && r.1 is Persist && r.1->token@ == body@,
            (FlowState::Exchanging, FlowEvent::ExchangeFailed { reason }) => r.0 is Failed
                && is_oauth_error(r.0->error, reason@) && r.1 is Stop,
            (FlowState::Done { .. }, _) => r.0 == state && r.1 is Stop,
            (FlowState::Failed { .. }, _) => r.0 == state && r.1 is Stop,
            _ => r.0 is Failed && r.0->error is OAuth && r.1 is Stop,
        },
{
    match state {
        FlowState::AwaitingCallback { client_id, verifier } => match event {
            FlowEvent::Request { line } => match callback_code(line.as_str()) {
                Ok(code) => {
                    let form = token_form(client_id.as_str(), code.as_str(), verifier.as_str());
                    (FlowState::Exchanging, FlowAction::RespondAndExchange { form })
                },
                Err(error) => (FlowState::Failed { error }, FlowAction::Stop),
            },
            FlowEvent::ListenerFailed { reason } => (
                FlowState::Failed { error: CswitchError::OAuth(reason) },
                FlowAction::Stop,
            ),
            _ => (FlowState::Failed { error: unexpected_event() }, FlowAction::Stop),
        },
        FlowState::Exchanging => match event {
            FlowEvent::TokenBody { body } => {
                let token = body.clone();
                (FlowState::Done { token: body }, FlowAction::Persist { token })
            },
            FlowEvent::ExchangeFailed { reason } => (
                FlowState::Failed { error: CswitchError::OAuth(reason) },
                FlowAction::Stop,
            ),
            _ => (FlowState::Failed { error: unexpected_event() }, FlowAction::Stop),
        },
        FlowState::Done { token } => (FlowState::Done { token }, FlowAction::Stop),
        FlowState::Failed { error } => (FlowState::Failed { error }, FlowAction::Stop),
    }
}

fn unexpected_event() -> (r: CswitchError)
    ensures
        r is OAuth,
{
    CswitchError::OAuth(String::from_str("unexpected event in the authorization flow"))
}

} // verus!
