//! Authentication: the token of the command line tool and the claims it carries.
use base64::alphabet::URL_SAFE;
use base64::engine::{DecodePaddingMode, GeneralPurpose, GeneralPurposeConfig};
use base64::Engine;
use vstd::prelude::*;
use vstd::string::StringSliceAdditionalSpecFns;

pub mod claims;
pub mod file;

use self::claims::{Claims, ExtraClaims};

verus! {

/// The byte that separates the parts of a token (`.`).
pub const DOT: u8 = 46;

/// Index of the first `.` at or after `start` in `s`, or the length of `s`
/// when there is none: the end of the part that starts at `start`.
pub open spec fn part_end(s: Seq<u8>, start: int) -> int
    decreases s.len() - start,
{
    if start >= s.len() {
        s.len() as int
    } else if s[start] == DOT {
        start
    } else {
        part_end(s, start + 1)
    }
}

/// The payload of a token: its second `.`-separated part, or `None` when
/// the token holds no `.` at all.
pub open spec fn token_payload(t: Seq<u8>) -> Option<Seq<u8>> {
    let header_end = part_end(t, 0);
    if header_end >= t.len() {
        None
    } else {
        Some(t.subrange(header_end + 1, part_end(t, header_end + 1)))
    }
}

/// What the unpadded URL-safe base64 engine decodes a text to, `None` when it
/// refuses it.
pub uninterp spec fn url_safe_decoded(input: Seq<u8>) -> Option<Seq<u8>>;

#[verifier::external_type_specification]
#[verifier::external_body]
pub struct ExDecodeError(base64::DecodeError);

/// Calls `base64::Engine::decode` on the engine with the URL-safe alphabet,
/// no padding written, padding refused on input and trailing bits allowed.
/// Claimed of it: it succeeds exactly when [`url_safe_decoded`] is `Some`,
/// and then gives those bytes.
#[verifier::external_body]
fn decode_url_safe(input: &[u8]) -> (r: Result<Vec<u8>, base64::DecodeError>)
    ensures
        match r {
            Ok(v) => url_safe_decoded(input@) == Some(v@),
            Err(_) => url_safe_decoded(input@) is None,
        },
{
    let config = GeneralPurposeConfig::new().with_encode_padding(false).with_decode_padding_mode(
        DecodePaddingMode::RequireNone,
    ).with_decode_allow_trailing_bits(true);
    GeneralPurpose::new(&URL_SAFE, config).decode(input)
}

/// Calls the `Display` impl of `base64::DecodeError`: the decoder's own
/// description of why it refused the input. Nothing is claimed of the text.
#[verifier::external_body]
fn decode_error_text(e: &base64::DecodeError) -> String {
    e.to_string()
}

/// Why the claims of a token could not be read.
#[derive(Debug, Clone, PartialEq, Eq)]
pub enum TokenError {
    /// The token holds no payload part.
    MissingPayload,
    /// The payload is not unpadded URL-safe base64; the decoder's description.
    InvalidEncoding(String),
}

impl TokenError {
    /// The human readable message of the error.
    pub fn message(&self) -> (r: String)
        ensures
            match self {
                TokenError::MissingPayload => r@ == "Invalid token"@,
                TokenError::InvalidEncoding(m) => r@ == m@,
            },
    {
        match self {
            TokenError::MissingPayload => "Invalid token".to_owned(),
            TokenError::InvalidEncoding(m) => m.clone(),
        }
    }
}

/// Finds the end of the part of `bytes` that starts at `start`.
fn find_part_end(bytes: &[u8], start: usize) -> (r: usize)
    requires
        start <= bytes@.len(),
    ensures
        r as int == part_end(bytes@, start as int),
        start <= r <= bytes@.len(),
{
    let mut i = start;
    while i < bytes.len()
        invariant
            start <= i <= bytes@.len(),
            part_end(bytes@, i as int) == part_end(bytes@, start as int),
        decreases bytes@.len() - i,
    {
        if bytes[i] == DOT {
            return i;
        }
        i = i + 1;
    }
    i
}

/// The authentication of the user: the token and the claims it carries.
pub struct AuthContext {
    token: String,
    pub claims: Claims<ExtraClaims>,
}

impl AuthContext {
    /// The token text.
    pub closed spec fn token_text(&self) -> Seq<char> {
        self.token@
    }

    /// The claims.
    pub closed spec fn claims_value(&self) -> Claims<ExtraClaims> {
        self.claims
    }

    /// The claims carried by the token.
    pub fn claims(&self) -> (r: &Claims<ExtraClaims>)
        ensures
            *r == self.claims_value(),
    {
        &self.claims
    }

    /// The token.
    pub fn token(&self) -> (r: &String)
        ensures
            r@ == self.token_text(),
    {
        &self.token
    }

    /// The context of `token`, whose payload carries `claims`.
    pub fn new(token: String, claims: Claims<ExtraClaims>) -> (r: AuthContext)
        ensures
            r.token_text() == token@,
            r.claims_value() == claims,
    {
        AuthContext { token, claims }
    }

    /// The payload part of a token (`header.payload.signature`): the bytes
    /// between its first `.` and the next `.` or its end; `None` when the
    /// token holds no `.`.
    pub fn payload_part(token: &str) -> (r: Option<&[u8]>)
        ensures
            match r {
                None => token_payload(token.spec_bytes()) is None,
                Some(p) => token_payload(token.spec_bytes()) == Some(p@),
            },
    {
        let bytes = token.as_bytes();
        let header_end = find_part_end(bytes, 0);
        if header_end >= bytes.len() {
            return None;
        }
        let payload_end = find_part_end(bytes, header_end + 1);
        Some(&bytes[header_end + 1..payload_end])
    }

    /// The decoded payload of a token, which holds its claims as JSON.
    ///
    /// Fails with `MissingPayload` when the token holds no `.`, and with
    /// `InvalidEncoding` when its payload part is not unpadded URL-safe base64.
    pub fn claims_payload(token: &str) -> (r: Result<Vec<u8>, TokenError>)
        ensures
            match token_payload(token.spec_bytes()) {
                None => r == Err::<Vec<u8>, TokenError>(TokenError::MissingPayload),
                Some(p) => match url_safe_decoded(p) {
                    None => r matches Err(TokenError::InvalidEncoding(_)),
                    Some(d) => r matches Ok(v) && v@ == d,
                },
            },
    {
        match AuthContext::payload_part(token) {
            None => Err(TokenError::MissingPayload),
            Some(payload) => match decode_url_safe(payload) {
                Ok(v) => Ok(v),
                Err(e) => Err(TokenError::InvalidEncoding(decode_error_text(&e))),
            },
        }
    }
}

/// A part that holds no `.` and is followed by a `.` or by the end of the
/// text ends where that part stops.
pub proof fn lemma_part_end_at(s: Seq<u8>, start: int, end: int)
    requires
        0 <= start <= end <= s.len(),
        forall|i: int| start <= i < end ==> s[i] != DOT,
        end == s.len() || s[end] == DOT,
    ensures
        part_end(s, start) == end,
    decreases end - start,
{
    if start < end {
        lemma_part_end_at(s, start + 1, end);
    }
}

/// The payload of `header.payload.signature` is `payload`, whatever the
/// signature holds, when header and payload hold no `.`.
pub proof fn lemma_payload_of_token(header: Seq<u8>, payload: Seq<u8>, rest: Seq<u8>)
    requires
        forall|i: int| 0 <= i < header.len() ==> header[i] != DOT,
        forall|i: int| 0 <= i < payload.len() ==> payload[i] != DOT,
        rest.len() == 0 || rest[0] == DOT,
    ensures
        token_payload(header + seq![DOT] + payload + rest) == Some(payload),
{
    let t = header + seq![DOT] + payload + rest;
    let h = header.len() as int;
    lemma_part_end_at(t, 0, h);
    lemma_part_end_at(t, h + 1, h + 1 + payload.len());
    assert(t.subrange(h + 1, h + 1 + payload.len()) =~= payload);
}

} // verus!
