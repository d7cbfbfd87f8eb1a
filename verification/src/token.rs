//! The outcome of the last authorization, kept for the host to read.

use crate::item::{copy_text, text_of};
use crate::resolve::texts;
use vstd::prelude::*;
use vstd::string::*;

verus! {

/// What an authorization granted.
#[derive(Debug, PartialEq, Eq)]
pub struct OAuthResult {
    pub access_token: String,
    pub refresh_token: Option<String>,
    /// The seconds for which the access token was valid when it was granted.
    pub expires_in: u64,
    pub scopes: Vec<String>,
}

/// What an authorization granted, as plain values.
pub struct GrantModel {
    pub access_token: Seq<char>,
    pub refresh_token: Option<Seq<char>>,
    pub expires_in: nat,
    pub scopes: Seq<Seq<char>>,
}

impl View for OAuthResult {
    type V = GrantModel;

    open spec fn view(&self) -> GrantModel {
        GrantModel {
            access_token: self.access_token@,
            refresh_token: text_of(self.refresh_token),
            expires_in: self.expires_in as nat,
            scopes: texts(self.scopes@),
        }
    }
}

/// The whole seconds in a time given in milliseconds.
pub open spec fn whole_seconds(ms: nat) -> nat {
    ms / 1000
}

/// The whole seconds for which a token is valid that expires in `valid_ms`
/// milliseconds; a token that has expired is valid for zero milliseconds.
pub fn seconds_left(valid_ms: u64) -> (seconds: u64)
    ensures
        seconds == whole_seconds(valid_ms as nat),
{
    valid_ms / 1000
}

/// The permissions that the player asks for when the user authorizes it.
pub open spec fn scope_names() -> Seq<Seq<char>> {
    seq![
        "user-read-private"@,
        "user-read-email"@,
        "streaming"@,
        "user-read-playback-state"@,
        "user-modify-playback-state"@,
        "user-read-currently-playing"@,
    ]
}

/// The permissions that the player asks for when the user authorizes it.
pub fn oauth_scopes() -> (scopes: Vec<String>)
    ensures
        texts(scopes@) == scope_names(),
{
    let mut scopes: Vec<String> = Vec::new();
    scopes.push(String::from_str("user-read-private"));
    scopes.push(String::from_str("user-read-email"));
    scopes.push(String::from_str("streaming"));
    scopes.push(String::from_str("user-read-playback-state"));
    scopes.push(String::from_str("user-modify-playback-state"));
    scopes.push(String::from_str("user-read-currently-playing"));
    scopes
}

impl OAuthResult {
    /// What was granted by a token that is valid for another `valid_ms`
    /// milliseconds.
    pub fn granted(
        access_token: String,
        refresh_token: String,
        valid_ms: u64,
        scopes: Vec<String>,
    ) -> (grant: OAuthResult)
        ensures
            grant@ == (GrantModel {
                access_token: access_token@,
                refresh_token: Some(refresh_token@),
                expires_in: whole_seconds(valid_ms as nat),
                scopes: texts(scopes@),
            }),
    {
        OAuthResult {
            access_token,
            refresh_token: Some(refresh_token),
            expires_in: seconds_left(valid_ms),
            scopes,
        }
    }
}

/// The grant of a stored result, if there is one.
pub open spec fn grant_of(result: Option<OAuthResult>) -> Option<GrantModel> {
    match result {
        Some(grant) => Some(grant@),
        None => None,
    }
}

/// Keeps the outcome of the last authorization.
pub struct TokenStore {
    result: Option<OAuthResult>,
}

impl View for TokenStore {
    type V = Option<GrantModel>;

    closed spec fn view(&self) -> Option<GrantModel> {
        grant_of(self.result)
    }
}

impl TokenStore {
    /// A store that holds nothing.
    pub fn new() -> (store: TokenStore)
        ensures
            store@ is None,
    {
        TokenStore { result: None }
    }

    /// Keeps `grant` in the place of what the store held.
    pub fn store(&mut self, grant: OAuthResult)
        ensures
            final(self)@ == Some(grant@),
    {
        self.result = Some(grant);
    }

    /// The access token, if a grant is held.
    pub fn get_access_token(&self) -> (token: Option<String>)
        ensures
            text_of(token) == match self@ {
                Some(grant) => Some(grant.access_token),
                None => None,
            },
    {
        match &self.result {
            Some(grant) => Some(grant.access_token.clone()),
            None => None,
        }
    }

    /// The refresh token, if a grant is held and carries one.
    pub fn get_refresh_token(&self) -> (token: Option<String>)
        ensures
            text_of(token) == match self@ {
                Some(grant) => grant.refresh_token,
                None => None,
            },
    {
        match &self.result {
            Some(grant) => copy_text(&grant.refresh_token),
            None => None,
        }
    }

    /// The seconds for which the access token was granted; zero where no
    /// grant is held.
    pub fn get_token_expires_in(&self) -> (seconds: u64)
        ensures
            seconds == match self@ {
                Some(grant) => grant.expires_in,
                None => 0,
            },
    {
        match &self.result {
            Some(grant) => grant.expires_in,
            None => 0,
        }
    }

    /// Whether a grant is held.
    pub fn has_oauth_result(&self) -> (held: bool)
        ensures
            held == self@ is Some,
    {
        self.result.is_some()
    }

    /// Forgets the grant.
    pub fn clear_oauth_result(&mut self)
        ensures
            final(self)@ is None,
    {
        self.result = None;
    }
}

} // verus!
