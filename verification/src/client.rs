//! The configuration of the swarmd API client.
use vstd::prelude::*;

verus! {

#[verifier::external_type_specification]
#[verifier::external_body]
pub struct ExClient(reqwest::Client);

/// `Clone::clone` of `reqwest::Client`, which copies the `Arc` that holds
/// the client: the copy is the same client.
pub assume_specification[ <reqwest::Client as Clone>::clone ](c: &reqwest::Client) -> (r: reqwest::Client)
    ensures
        r == *c,
;

/// An API key sent in the `Authorization` header, after its prefix.
#[derive(Debug, Clone)]
pub struct ApiKey {
    pub prefix: Option<String>,
    pub key: String,
}

/// How the API is reached.
#[derive(Debug, Clone)]
pub struct Configuration {
    pub base_path: String,
    pub user_agent: Option<String>,
    pub client: reqwest::Client,
    pub api_key: Option<ApiKey>,
}

/// The value of the `Authorization` header for an API key:
/// `prefix key`, or the bare key without a prefix.
pub open spec fn authorization_of(k: ApiKey) -> Seq<char> {
    match k.prefix {
        Some(p) => p@ + " "@ + k.key@,
        None => k.key@,
    }
}

impl Configuration {
    /// The `Authorization` header to send, if an API key is configured.
    pub fn authorization(&self) -> (r: Option<String>)
        ensures
            match self.api_key {
                Some(k) => r matches Some(v) && v@ == authorization_of(k),
                None => r is None,
            },
    {
        match &self.api_key {
            Some(k) => {
                let key = k.key.clone();
                match &k.prefix {
                    Some(p) => {
                        let mut v = p.clone();
                        v.append(" ");
                        v.append(key.as_str());
                        Some(v)
                    },
                    None => Some(key),
                }
            },
            None => None,
        }
    }
}

/// The API client: a configuration that authenticates with the user's token.
#[derive(Debug, Clone)]
pub struct SwarmdClient {
    config: Configuration,
}

impl SwarmdClient {
    pub closed spec fn config_value(&self) -> Configuration {
        self.config
    }

    /// A client of the API at `base` that sends `user_agent` and authenticates
    /// with `Bearer token`, over the connections of `client` (the same client).
    pub fn new(base: String, client: &reqwest::Client, token: String, user_agent: String) -> (r: SwarmdClient)
        ensures
            r.config_value().base_path == base,
            r.config_value().user_agent == Some(user_agent),
            r.config_value().client == *client,
            r.config_value().api_key matches Some(k) && (k.key == token && (k.prefix matches Some(
                p) && p@ == "Bearer"@)),
    {
        let config = Configuration {
            base_path: base,
            user_agent: Some(user_agent),
            client: client.clone(),
            api_key: Some(ApiKey { prefix: Some("Bearer".to_owned()), key: token }),
        };
        SwarmdClient { config }
    }

    /// The configuration of the client.
    pub fn as_ref(&self) -> (r: &Configuration)
        ensures
            *r == self.config_value(),
    {
        &self.config
    }
}

/// The client sends the token it was made with: `Authorization: Bearer <token>`.
pub proof fn lemma_client_sends_bearer_token(k: ApiKey, token: String)
    requires
        k.key == token,
        k.prefix matches Some(p) && p@ == "Bearer"@,
    ensures
        authorization_of(k) == "Bearer "@ + token@,
{
    reveal_strlit("Bearer");
    reveal_strlit(" ");
    reveal_strlit("Bearer ");
    assert(authorization_of(k) =~= "Bearer "@ + token@);
}

} // verus!
