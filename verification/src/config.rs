//! The configuration read from the environment and the URLs derived from it.
use vstd::prelude::*;

verus! {

/// The API the tool talks to unless the environment names another.
pub const PROD_URL: &'static str = "https://api.swarmd.io";

/// Configuration read from the `SWARMD_*` environment.
#[derive(Debug, Clone)]
pub struct Cfg {
    /// The API base URL (`SWARMD_API`).
    pub api: Option<String>,
}

impl Cfg {
    /// The API base URL: the configured one, else [`PROD_URL`].
    pub fn into_http_url(self) -> (r: String)
        ensures
            match self.api {
                Some(api) => r@ == api@,
                None => r@ == PROD_URL@,
            },
    {
        match self.api {
            Some(api) => api,
            None => PROD_URL.to_owned(),
        }
    }
}

/// The character of a decimal digit.
pub open spec fn digit_char(d: nat) -> char {
    (48 + d) as char
}

/// The decimal notation of `n`, without leading zeros.
pub open spec fn decimal(n: nat) -> Seq<char>
    decreases n,
{
    if n < 10 {
        seq![digit_char(n)]
    } else {
        decimal(n / 10).push(digit_char(n % 10))
    }
}

/// `String::push` of std: appends one character.
#[verifier::external_body]
fn push_char(s: &mut String, c: char)
    ensures
        final(s)@ == old(s)@.push(c),
{
    s.push(c);
}

/// Appends the decimal notation of `n` to `s`.
pub fn push_decimal(s: &mut String, n: u64)
    ensures
        final(s)@ == old(s)@ + decimal(n as nat),
    decreases n,
{
    if n >= 10 {
        push_decimal(s, n / 10);
    }
    let d: u64 = n % 10;
    let c = ((48 + d) as u8) as char;
    assert(c == digit_char(d as nat));
    push_char(s, c);
    proof {
        if n >= 10 {
            assert(decimal(n as nat) == decimal((n / 10) as nat).push(digit_char((n % 10) as nat)));
        }
    }
}

/// The sign-in page of `base` that redirects to the local server on `port`.
pub fn sign_in_url(base: &str, port: u16) -> (r: String)
    ensures
        r@ == base@ + "/sign-in?port="@ + decimal(port as nat),
{
    let mut r = base.to_owned();
    r.append("/sign-in?port=");
    push_decimal(&mut r, port as u64);
    r
}

#[verifier::external_type_specification]
#[verifier::external_body]
pub struct ExUrl(reqwest::Url);

/// Whether the `url` crate (re-exported as `reqwest::Url`) parses a text as
/// an absolute URL.
pub uninterp spec fn url_parses(s: Seq<char>) -> bool;

/// Calls `reqwest::Url::parse` (`url::Url::parse`). Claimed of it: it
/// succeeds exactly when [`url_parses`] holds of the text. What the parsed
/// URL holds is left unsaid.
#[verifier::external_body]
fn parse_url(s: &str) -> (r: Option<reqwest::Url>)
    ensures
        r is Some <==> url_parses(s@),
{
    reqwest::Url::parse(s).ok()
}

/// The sign-in page of `base` that redirects to the local server on `port`,
/// parsed as a URL; `None` when that text is not a URL.
pub fn sign_in_page(base: &str, port: u16) -> (r: Option<reqwest::Url>)
    ensures
        r is Some <==> url_parses(base@ + "/sign-in?port="@ + decimal(port as nat)),
{
    let text = sign_in_url(base, port);
    parse_url(text.as_str())
}

} // verus!
