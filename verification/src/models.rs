//! The models of the swarmd API that the tool reads and writes.
use vstd::prelude::*;

verus! {

/// The role of a member in an organisation.
#[derive(Clone, Copy, Debug, Eq, PartialEq, Ord, PartialOrd, Hash, Structural)]
pub enum OrgRole {
    Admin,
    Member,
}

impl OrgRole {
    /// The name of the role on the wire: `admin` or `member`.
    pub fn to_string(&self) -> (r: String)
        ensures
            *self == OrgRole::Admin ==> r@ == "admin"@,
            *self == OrgRole::Member ==> r@ == "member"@,
    {
        match self {
            OrgRole::Admin => "admin".to_owned(),
            OrgRole::Member => "member".to_owned(),
        }
    }
}

impl Default for OrgRole {
    /// The default role is `Admin`.
    fn default() -> (r: OrgRole)
        ensures
            r == OrgRole::Admin,
    {
        OrgRole::Admin
    }
}

/// An organisation as the API lists it for a user.
#[derive(Clone, Debug, PartialEq)]
pub struct PartialOrganisation {
    pub id: String,
    pub role: OrgRole,
    pub slug: String,
}

impl PartialOrganisation {
    pub fn new(id: String, role: OrgRole, slug: String) -> (r: PartialOrganisation)
        ensures
            r.id == id,
            r.role == role,
            r.slug == slug,
    {
        PartialOrganisation { id, role, slug }
    }
}

/// A project; the optional fields may be missing or `null` on the wire.
#[derive(Clone, Debug, PartialEq)]
pub struct Project {
    pub active_worker: Option<Option<String>>,
    pub id: Option<Option<String>>,
    pub org_id: Option<Option<String>>,
    pub slug: String,
}

impl Project {
    /// A project known only by its slug.
    pub fn new(slug: String) -> (r: Project)
        ensures
            r.active_worker is None,
            r.id is None,
            r.org_id is None,
            r.slug == slug,
    {
        Project { active_worker: None, id: None, org_id: None, slug }
    }
}

} // verus!
