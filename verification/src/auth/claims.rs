//! The claims carried by the token of the command line tool.
use std::collections::HashMap;
use std::time::Duration;
use vstd::prelude::*;

verus! {

/// One value or a list of values.
#[derive(Clone, Debug, PartialEq)]
pub enum OneOrMany<T> {
    /// Single value
    One(T),
    /// Array of values
    Vec(Vec<T>),
}

impl<T> OneOrMany<T> {
    /// Holds no value: an empty list.
    pub open spec fn holds_nothing(&self) -> bool {
        match self {
            OneOrMany::One(_) => false,
            OneOrMany::Vec(v) => v@.len() == 0,
        }
    }

    /// Whether this is an empty list (a single value is never empty).
    pub fn is_empty(&self) -> (r: bool)
        ensures
            r == self.holds_nothing(),
    {
        match self {
            OneOrMany::One(_) => false,
            OneOrMany::Vec(v) => v.len() == 0,
        }
    }
}

impl<T> Default for OneOrMany<T> {
    /// The empty list.
    fn default() -> (r: Self)
        ensures
            r matches OneOrMany::Vec(v) && v@.len() == 0,
    {
        OneOrMany::Vec(Vec::new())
    }
}

/// The registered claims of a token, with the extra claims `T` flattened in.
#[non_exhaustive]
#[derive(Debug, Default)]
pub struct Claims<T> {
    pub exp: Option<Duration>,
    pub nbf: Option<Duration>,
    pub iat: Option<Duration>,
    pub iss: Option<String>,
    pub sub: Option<String>,
    pub aud: OneOrMany<String>,
    pub jti: Option<String>,
    pub extra: T,
}

impl<T> Claims<T> {
    /// Assembles claims from their parts.
    pub fn new(
        exp: Option<Duration>,
        nbf: Option<Duration>,
        iat: Option<Duration>,
        iss: Option<String>,
        sub: Option<String>,
        aud: OneOrMany<String>,
        jti: Option<String>,
        extra: T,
    ) -> (r: Self)
        ensures
            r.exp == exp,
            r.nbf == nbf,
            r.iat == iat,
            r.iss == iss,
            r.sub == sub,
            r.aud == aud,
            r.jti == jti,
            r.extra == extra,
    {
        Claims { exp, nbf, iat, iss, sub, aud, jti, extra }
    }
}

/// The claims that the token template of the command line tool adds.
#[derive(Debug)]
pub struct ExtraClaims {
    clerk_user_id: String,
    cli: bool,
    current_org_clerk_id: Option<String>,
    pub default_org: String,
    org_slug: Option<String>,
    // Org_id -> Role
    orgs: HashMap<String, String>,
}

impl ExtraClaims {
    /// Assembles the extra claims from their parts.
    pub fn new(
        clerk_user_id: String,
        cli: bool,
        current_org_clerk_id: Option<String>,
        default_org: String,
        org_slug: Option<String>,
        orgs: HashMap<String, String>,
    ) -> (r: Self)
        ensures
            r.clerk_user_id() == clerk_user_id,
            r.cli() == cli,
            r.current_org_clerk_id() == current_org_clerk_id,
            r.default_organization() == default_org,
            r.org_slug() == org_slug,
            r.orgs() == orgs,
    {
        ExtraClaims { clerk_user_id, cli, current_org_clerk_id, default_org, org_slug, orgs }
    }

    pub closed spec fn default_organization(&self) -> String {
        self.default_org
    }

    /// The organisation the user works in by default.
    pub fn default_org(&self) -> (r: &String)
        ensures
            *r == self.default_organization(),
    {
        &self.default_org
    }

    pub closed spec fn clerk_user_id(&self) -> String {
        self.clerk_user_id
    }

    pub closed spec fn cli(&self) -> bool {
        self.cli
    }

    pub closed spec fn current_org_clerk_id(&self) -> Option<String> {
        self.current_org_clerk_id
    }

    pub closed spec fn org_slug(&self) -> Option<String> {
        self.org_slug
    }

    pub closed spec fn orgs(&self) -> HashMap<String, String> {
        self.orgs
    }

    /// Takes the extra claims apart again, in the order of [`ExtraClaims::new`].
    pub fn into_parts(self) -> (r: (String, bool, Option<String>, String, Option<String>, HashMap<String, String>))
        ensures
            r.0 == self.clerk_user_id(),
            r.1 == self.cli(),
            r.2 == self.current_org_clerk_id(),
            r.3 == self.default_organization(),
            r.4 == self.org_slug(),
            r.5 == self.orgs(),
    {
        (self.clerk_user_id, self.cli, self.current_org_clerk_id, self.default_org, self.org_slug, self.orgs)
    }
}

/// The default audience is empty, so it is left out when claims are written.
pub proof fn lemma_default_audience_is_empty<T>(aud: OneOrMany<T>)
    requires
        aud matches OneOrMany::Vec(v) && v@.len() == 0,
    ensures
        aud.holds_nothing(),
{
}

} // verus!
