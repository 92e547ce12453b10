use swarmd::auth::claims::{Claims, ExtraClaims, OneOrMany};
use swarmd::auth::file::AuthFile;
use swarmd::auth::{AuthContext, TokenError};
use std::collections::HashMap;

const TOKEN: &str = "no_header.eyJjbGVya191c2VyX2lkIjoidXNlcl8yWG82c0dQU0JmMlVnS0hOeWRZMnBqVFNncXkiLCJjbGkiOnRydWUsImN1cnJlbnRfb3JnX2NsZXJrX2lkIjpudWxsLCJkZWZhdWx0X29yZyI6Im9yZ18yWG83TDRjbHZPSEp2a0hjSjZ1Y29JTE5JNkMiLCJleHAiOjE2OTk2OTk4ODgsImlhdCI6MTY5OTYxMzQ4OCwiaXNzIjoiaHR0cHM6Ly9ub3JtYWwta2lkLTM4LmNsZXJrLmFjY291bnRzLmRldiIsImp0aSI6ImQ2NTA1ZjkwYTk4OWUwMjg4ODE2IiwibmJmIjoxNjk5NjEzNDgzLCJvcmdfc2x1ZyI6bnVsbCwib3JncyI6eyJvcmdfMlhvN0w0Y2x2T0hKdmtIY0o2dWNvSUxOSTZDIjoiYWRtaW4ifSwic3ViIjoidXNlcl8yWG82c0dQU0JmMlVnS0hOeWRZMnBqVFNncXkiLCJ1c2VyX2lkIjpudWxsfQ.no_signin";

#[test]
fn test_token_snapshot() {
    let payload = AuthContext::claims_payload(TOKEN).unwrap();
    let claims: serde_json::Value = serde_json::from_slice(&payload).unwrap();
    assert_eq!(claims["clerk_user_id"], "user_2Xo6sGPSBf2UgKHNydY2pjTSgqy");
    assert_eq!(claims["cli"], true);
    assert!(claims["current_org_clerk_id"].is_null());
    assert_eq!(claims["default_org"], "org_2Xo7L4clvOHJvkHcJ6ucoILNI6C");
    assert_eq!(claims["exp"], 1699699888);
    assert_eq!(claims["iat"], 1699613488);
    assert_eq!(claims["nbf"], 1699613483);
    assert_eq!(claims["iss"], "https://normal-kid-38.clerk.accounts.dev");
    assert_eq!(claims["jti"], "d6505f90a989e0288816");
    assert_eq!(claims["sub"], "user_2Xo6sGPSBf2UgKHNydY2pjTSgqy");
    assert!(claims["org_slug"].is_null());
    assert_eq!(claims["orgs"]["org_2Xo7L4clvOHJvkHcJ6ucoILNI6C"], "admin");
}

#[test]
fn token_payload_is_the_second_part() {
    // "eyJhIjoxfQ" is {"a":1}
    assert_eq!(AuthContext::claims_payload("h.eyJhIjoxfQ.s").unwrap(), b"{\"a\":1}".to_vec());
    assert_eq!(AuthContext::claims_payload("h.eyJhIjoxfQ").unwrap(), b"{\"a\":1}".to_vec());
    assert_eq!(AuthContext::claims_payload("h.eyJhIjoxfQ.s.t").unwrap(), b"{\"a\":1}".to_vec());
    assert_eq!(AuthContext::claims_payload(".").unwrap(), Vec::<u8>::new());
}

#[test]
fn token_without_payload_is_refused() {
    assert_eq!(AuthContext::claims_payload("no-dot-at-all"), Err(TokenError::MissingPayload));
    assert_eq!(AuthContext::claims_payload(""), Err(TokenError::MissingPayload));
    assert_eq!(TokenError::MissingPayload.message(), "Invalid token");
}

#[test]
fn token_with_padding_or_bad_characters_is_refused() {
    for token in ["h.eyJhIjoxfQ==.s", "h.e+J/.s", "h.a.s"] {
        match AuthContext::claims_payload(token) {
            Err(err @ TokenError::InvalidEncoding(_)) => assert!(!err.message().is_empty()),
            other => panic!("unexpected {:?}", other),
        }
    }
    assert!(matches!(
        AuthContext::claims_payload("h.e+J.s"),
        Err(TokenError::InvalidEncoding(m)) if m.contains("43")
    ));
}

fn extra(default_org: &str) -> ExtraClaims {
    let mut orgs = HashMap::new();
    orgs.insert(default_org.to_string(), "admin".to_string());
    ExtraClaims::new("user".to_string(), true, None, default_org.to_string(), None, orgs)
}

#[test]
fn auth_context_keeps_token_and_claims() {
    let claims = Claims::new(None, None, None, None, None, OneOrMany::default(), None, extra("org_1"));
    let auth = AuthContext::new("a.b.c".to_string(), claims);
    assert_eq!(auth.token(), "a.b.c");
    assert_eq!(auth.claims().extra.default_org(), "org_1");
    let file = AuthFile::new(auth.token().clone());
    assert_eq!(file.token, "a.b.c");
}

#[test]
fn extra_claims_round_trip() {
    let (user, cli, current, default, slug, orgs) = extra("org_9").into_parts();
    assert_eq!(user, "user");
    assert!(cli);
    assert_eq!(current, None);
    assert_eq!(default, "org_9");
    assert_eq!(slug, None);
    assert_eq!(orgs.get("org_9").map(|s| s.as_str()), Some("admin"));
}

#[test]
fn one_or_many_emptiness() {
    assert!(OneOrMany::<String>::default().is_empty());
    assert!(!OneOrMany::One("aud".to_string()).is_empty());
    assert!(!OneOrMany::Vec(vec!["aud".to_string()]).is_empty());
    assert!(OneOrMany::<String>::Vec(vec![]).is_empty());
}

#[test]
fn payload_part_is_taken_between_the_dots() {
    assert_eq!(AuthContext::payload_part("hdr.pay.sig"), Some(&b"pay"[..]));
    assert_eq!(AuthContext::payload_part("hdr.pay"), Some(&b"pay"[..]));
    assert_eq!(AuthContext::payload_part("hdr..sig"), Some(&b""[..]));
    assert_eq!(AuthContext::payload_part("é.ü.x"), Some("ü".as_bytes()));
    assert_eq!(AuthContext::payload_part("hdr"), None);
}
