use vstd::prelude::*;
use vstd::string::*;

verus! {

/// `token` is one of `tokens`.
pub open spec fn token_in(tokens: Seq<Seq<char>>, token: Seq<char>) -> bool {
    exists|i: int| 0 <= i < tokens.len() && tokens[i] == token
}

/// Whether `token` occurs in `tokens`.
fn any_token_matches(tokens: &Vec<String>, token: &str) -> (r: bool)
    ensures
        r == token_in(tokens.deep_view(), token@),
{
    let needle = String::from_str(token);
    let mut i: usize = 0;
    while i < tokens.len()
        invariant
            i <= tokens@.len(),
            needle@ == token@,
            forall|k: int| 0 <= k < i ==> tokens.deep_view()[k] != token@,
        decreases tokens@.len() - i,
    {
        if tokens[i] == needle {
            assert(tokens.deep_view()[i as int] == token@);
            return true;
        }
        i += 1;
    }
    false
}

/// The outcome of checking a bearer token.
#[derive(PartialEq, Eq, Structural)]
pub enum AuthenticationState {
    Valid,
    Invalid,
}

impl AuthenticationState {
    /// Whether this state grants access.
    pub fn is_valid(&self) -> (r: bool)
        ensures
            r == (self is Valid),
    {
        match self {
            AuthenticationState::Valid => true,
            AuthenticationState::Invalid => false,
        }
    }
}

/// Bearer-token authentication over a fixed set of configured tokens.
#[derive(Debug)]
pub struct Authentication {
    valid_tokens: Vec<String>,
}

impl Authentication {
    /// The configured tokens.
    pub closed spec fn spec_tokens(&self) -> Seq<Seq<char>> {
        self.valid_tokens.deep_view()
    }

    /// An authenticator accepting exactly `valid_tokens`.
    pub fn new(valid_tokens: Vec<String>) -> (r: Self)
        ensures
            r.spec_tokens() == valid_tokens.deep_view(),
    {
        Self { valid_tokens }
    }

    /// `Valid` exactly when `token` is one of the configured tokens.
    pub fn state_for_token(&self, token: &str) -> (r: AuthenticationState)
        ensures
            (r is Valid) == token_in(self.spec_tokens(), token@),
    {
        match any_token_matches(&self.valid_tokens, token) {
            true => AuthenticationState::Valid,
            false => AuthenticationState::Invalid,
        }
    }
}

/// The outcome of checking a bearer token at the request layer.
#[derive(PartialEq, Eq, Structural)]
pub enum AuthState {
    Valid,
    Invalid,
}

/// Bearer-token authentication as the request layer consumes it.
#[derive(Debug)]
pub struct AuthProvider {
    valid_tokens: Vec<String>,
}

impl AuthProvider {
    /// The configured tokens.
    pub closed spec fn spec_tokens(&self) -> Seq<Seq<char>> {
        self.valid_tokens.deep_view()
    }

    /// A provider accepting exactly `valid_tokens`.
    pub fn new(valid_tokens: Vec<String>) -> (r: Self)
        ensures
            r.spec_tokens() == valid_tokens.deep_view(),
    {
        Self { valid_tokens }
    }

    /// `Valid` exactly when `token` is one of the configured tokens.
    pub fn state_for_token(&self, token: &str) -> (r: AuthState)
        ensures
            (r is Valid) == token_in(self.spec_tokens(), token@),
    {
        match any_token_matches(&self.valid_tokens, token) {
            true => AuthState::Valid,
            false => AuthState::Invalid,
        }
    }
}

/// Whether `bearer_token` is one of `configured_tokens`.
pub fn authentication_valid(bearer_token: &str, configured_tokens: &Vec<String>) -> (r: bool)
    ensures
        r == token_in(configured_tokens.deep_view(), bearer_token@),
{
    any_token_matches(configured_tokens, bearer_token)
}

} // verus!
