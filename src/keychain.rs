use vstd::prelude::*;

use crate::error::{is_secret_not_found, CswitchError};
use crate::keyed::{
    keyed_map, lemma_keyed_map_at, lemma_keyed_map_push, lemma_keyed_map_remove, position_of_key,
    unique_keys, Keyed,
};
use crate::text::string_from_utf8;
use vstd::utf8::{decode_utf8, valid_utf8};

verus! {

impl Keyed for (String, String) {
    type Mapped = Seq<char>;

    open spec fn key_of(&self) -> Seq<char> {
        self.0@
    }

    open spec fn value_of(&self) -> Seq<char> {
        self.1@
    }

    fn key(&self) -> (r: &String) {
        &self.0
    }
}

/// The entries of `s` as a map from key to secret.
pub open spec fn secret_map(s: Seq<(String, String)>) -> Map<Seq<char>, Seq<char>> {
    keyed_map(s)
}

/// Secrets keyed by profile name, each name at most once.
pub struct SecretTable {
    entries: Vec<(String, String)>,
}

impl View for SecretTable {
    type V = Map<Seq<char>, Seq<char>>;

    closed spec fn view(&self) -> Map<Seq<char>, Seq<char>> {
        secret_map(self.entries@)
    }
}

impl SecretTable {
    #[verifier::type_invariant]
    spec fn keys_unique(&self) -> bool {
        unique_keys(self.entries@)
    }

    /// A table that holds nothing.
    pub fn new() -> (r: SecretTable)
        ensures
            r@ == Map::<Seq<char>, Seq<char>>::empty(),
    {
        let r = SecretTable { entries: Vec::new() };
        assert(r@ =~= Map::<Seq<char>, Seq<char>>::empty());
        r
    }

    /// A table read back from storage. Fails where two entries share a key.
    pub fn from_entries(entries: Vec<(String, String)>) -> (r: Result<SecretTable, CswitchError>)
        ensures
            r is Ok <==> unique_keys(entries@),
            r is Ok ==> r->Ok_0@ == secret_map(entries@),
            r is Err ==> r->Err_0 is Keychain,
    {
        let mut i: usize = 0;
        while i < entries.len()
            invariant
                i <= entries@.len(),
                forall|a: int, b: int| 0 <= a < b < i ==> entries@[a].0@ != entries@[b].0@,
            decreases entries@.len() - i,
        {
            let mut j: usize = 0;
            while j < i
                invariant
                    i < entries@.len(),
                    j <= i,
                    forall|a: int| 0 <= a < j ==> entries@[a].0@ != entries@[i as int].0@,
                decreases i - j,
            {
                if entries[j].0 == entries[i].0 {
                    return Err(
                        CswitchError::Keychain(String::from_str("credentials file lists a profile twice")),
                    );
                }
                j = j + 1;
            }
            i = i + 1;
        }
        Ok(SecretTable { entries })
    }

    /// The stored entries, each key once.
    pub fn entries(&self) -> (r: &Vec<(String, String)>)
        ensures
            unique_keys(r@),
            secret_map(r@) == self@,
    {
        proof {
            use_type_invariant(self);
        }
        &self.entries
    }

    /// The secret stored under `key`.
    pub fn get(&self, key: &str) -> (r: Option<String>)
        ensures
            r is Some <==> self@.contains_key(key@),
            r is Some ==> r->Some_0@ == self@[key@],
    {
        proof {
            use_type_invariant(self);
        }
        match position_of_key(&self.entries, key) {
            Some(i) => {
                proof {
                    lemma_keyed_map_at(self.entries@, i as int);
                }
                Some(self.entries[i].1.clone())
            },
            None => None,
        }
    }

    /// Stores `value` under `key`, replacing what was there.
    pub fn insert(&mut self, key: &str, value: &str)
        ensures
            final(self)@ == old(self)@.insert(key@, value@),
    {
        proof {
            use_type_invariant(&*self);
        }
        let mut entries = Vec::new();
        std::mem::swap(&mut entries, &mut self.entries);
        match position_of_key(&entries, key) {
            Some(i) => {
                proof {
                    lemma_keyed_map_remove(entries@, i as int);
                }
                entries.remove(i);
            },
            None => {},
        }
        let e = (String::from_str(key), String::from_str(value));
        proof {
            lemma_keyed_map_push(entries@, e);
        }
        entries.push(e);
        self.entries = entries;
    }

    /// Drops the secret stored under `key`, if any.
    pub fn remove(&mut self, key: &str)
        ensures
            final(self)@ == old(self)@.remove(key@),
    {
        proof {
            use_type_invariant(&*self);
        }
        let mut entries = Vec::new();
        std::mem::swap(&mut entries, &mut self.entries);
        match position_of_key(&entries, key) {
            Some(i) => {
                proof {
                    lemma_keyed_map_remove(entries@, i as int);
                }
                entries.remove(i);
            },
            None => {
                proof {
                    assert(secret_map(entries@) =~= secret_map(entries@).remove(key@));
                }
            },
        }
        self.entries = entries;
    }
}

/// The secret store: API keys and OAuth token bundles, each keyed by profile
/// name in a namespace of its own.
pub struct CredentialStore {
    pub api_keys: SecretTable,
    pub oauth_tokens: SecretTable,
}

impl CredentialStore {
    /// A store that holds no secret.
    pub fn new() -> (r: CredentialStore)
        ensures
            r.api_keys@ == Map::<Seq<char>, Seq<char>>::empty(),
            r.oauth_tokens@ == Map::<Seq<char>, Seq<char>>::empty(),
    {
        CredentialStore { api_keys: SecretTable::new(), oauth_tokens: SecretTable::new() }
    }
}

/// The text of the error for a missing API key.
pub open spec fn no_api_key_text(profile_name: Seq<char>) -> Seq<char> {
    "No API key found for profile '"@ + profile_name + "'"@
}

/// The text of the error for a missing OAuth token.
pub open spec fn no_oauth_token_text(profile_name: Seq<char>) -> Seq<char> {
    "No OAuth token found for profile '"@ + profile_name + "'"@
}

/// Stores `api_key` as the API key of `profile_name`, replacing any earlier one.
pub fn set_api_key(store: &mut CredentialStore, profile_name: &str, api_key: &str)
    ensures
        final(store).api_keys@ == old(store).api_keys@.insert(profile_name@, api_key@),
        final(store).oauth_tokens@ == old(store).oauth_tokens@,
{
    store.api_keys.insert(profile_name, api_key);
}

/// The API key of `profile_name`. Fails where none is stored.
pub fn get_api_key(store: &CredentialStore, profile_name: &str) -> (r: Result<String, CswitchError>)
    ensures
        r is Ok <==> store.api_keys@.contains_key(profile_name@),
        r is Ok ==> r->Ok_0@ == store.api_keys@[profile_name@],
        r is Err ==> is_secret_not_found(r->Err_0, no_api_key_text(profile_name@)),
{
    match store.api_keys.get(profile_name) {
        Some(k) => Ok(k),
        None => Err(
            CswitchError::SecretNotFound(
                String::from_str("No API key found for profile '").concat(profile_name).concat("'"),
            ),
        ),
    }
}

/// Drops the API key of `profile_name`; nothing happens where none is stored.
pub fn delete_api_key(store: &mut CredentialStore, profile_name: &str)
    ensures
        final(store).api_keys@ == old(store).api_keys@.remove(profile_name@),
        final(store).oauth_tokens@ == old(store).oauth_tokens@,
{
    store.api_keys.remove(profile_name);
}

/// Stores `token_json` as the OAuth token bundle of `profile_name`, replacing
/// any earlier one.
pub fn set_oauth_token(store: &mut CredentialStore, profile_name: &str, token_json: &str)
    ensures
        final(store).oauth_tokens@ == old(store).oauth_tokens@.insert(profile_name@, token_json@),
        final(store).api_keys@ == old(store).api_keys@,
{
    store.oauth_tokens.insert(profile_name, token_json);
}

/// The OAuth token bundle of `profile_name`. Fails where none is stored.
pub fn get_oauth_token(store: &CredentialStore, profile_name: &str) -> (r: Result<
    String,
    CswitchError,
>)
    ensures
        r is Ok <==> store.oauth_tokens@.contains_key(profile_name@),
        r is Ok ==> r->Ok_0@ == store.oauth_tokens@[profile_name@],
        r is Err ==> is_secret_not_found(r->Err_0, no_oauth_token_text(profile_name@)),
{
    match store.oauth_tokens.get(profile_name) {
        Some(t) => Ok(t),
        None => Err(
            CswitchError::SecretNotFound(
                String::from_str("No OAuth token found for profile '").concat(profile_name).concat(
                    "'",
                ),
            ),
        ),
    }
}

/// Drops the OAuth token bundle of `profile_name`; nothing happens where none
/// is stored.
pub fn delete_oauth_token(store: &mut CredentialStore, profile_name: &str)
    ensures
        final(store).oauth_tokens@ == old(store).oauth_tokens@.remove(profile_name@),
        final(store).api_keys@ == old(store).api_keys@,
{
    store.oauth_tokens.remove(profile_name);
}

/// A secret stored under a name can be read back exactly, in its own slot;
/// once deleted it can no longer be read.
pub proof fn law_secret_round_trip(
    slot: Map<Seq<char>, Seq<char>>,
    profile_name: Seq<char>,
    secret: Seq<char>,
)
    ensures
        slot.insert(profile_name, secret).contains_key(profile_name),
        slot.insert(profile_name, secret)[profile_name] == secret,
        !slot.insert(profile_name, secret).remove(profile_name).contains_key(profile_name),
        !slot.remove(profile_name).contains_key(profile_name),
{
}

/// The output of a credential tool without the line ending it appends.
pub open spec fn without_line_end(out: Seq<char>) -> Seq<char> {
    if out.len() > 0 && out.last() == '\n' {
        out.drop_last()
    } else {
        out
    }
}

/// The host application's credentials, as a credential tool printed them:
/// its whole output, less the one line ending the tool appends. Fails where
/// the tool reported failure or printed bytes that are not UTF-8.
pub fn credentials_from_output(succeeded: bool, stdout: Vec<u8>) -> (r: Result<String, CswitchError>)
    ensures
        r is Ok <==> succeeded && valid_utf8(stdout@),
        r is Ok ==> r->Ok_0@ == without_line_end(decode_utf8(stdout@)),
        r is Err ==> r->Err_0 is Keychain,
{
    if !succeeded {
        return Err(
            CswitchError::Keychain(String::from_str("No host application credentials found in the keychain")),
        );
    }
    match string_from_utf8(stdout) {
        Some(text) => {
            let n = text.as_str().unicode_len();
            if n > 0 && text.as_str().get_char(n - 1) == '\n' {
                proof {
                    assert(text@.drop_last() =~= text@.subrange(0, n - 1));
                }
                Ok(String::from_str(text.as_str().substring_char(0, n - 1)))
            } else {
                Ok(text)
            }
        },
        None => Err(CswitchError::Keychain(String::from_str("Invalid credentials encoding"))),
    }
}

} // verus!
