//! The configuration of a worker project (`swarmd.toml`) and the decisions
//! taken when it is built and deployed.
use std::path::PathBuf;
use vstd::prelude::*;

use crate::auth::AuthContext;
use crate::models::Project;
use crate::slug_rs::Slug;

verus! {

/// The name of the configuration file of a worker project.
pub const SWARMD_CONFIG_FILE: &'static str = "swarmd.toml";

#[verifier::external_type_specification]
#[verifier::external_body]
pub struct ExPathBuf(PathBuf);

/// `Clone::clone` of `std::path::PathBuf`; nothing is claimed of the copy.
pub assume_specification[ <PathBuf as Clone>::clone ](p: &PathBuf) -> PathBuf;

/// The `NODE_ENV` under which the build command runs.
#[derive(Debug, Clone, Copy, PartialEq, Eq, Structural)]
pub enum NodeEnv {
    Development,
    Production,
}

impl NodeEnv {
    /// The value given to `NODE_ENV`.
    pub fn as_str(&self) -> (r: &'static str)
        ensures
            *self == NodeEnv::Development ==> r@ == "development"@,
            *self == NodeEnv::Production ==> r@ == "production"@,
    {
        match self {
            NodeEnv::Development => "development",
            NodeEnv::Production => "production",
        }
    }
}

/// How to build a worker and where its bundle lands.
#[derive(Debug, Clone)]
pub struct ProfileConfig {
    /// Build command to run
    build_command: String,
    /// Worker main file
    worker_main: PathBuf,
}

impl ProfileConfig {
    pub closed spec fn build_command_value(&self) -> String {
        self.build_command
    }

    pub closed spec fn worker_main_value(&self) -> PathBuf {
        self.worker_main
    }

    pub fn new(build_command: String, worker_main: PathBuf) -> (r: ProfileConfig)
        ensures
            r.build_command_value() == build_command,
            r.worker_main_value() == worker_main,
    {
        ProfileConfig { build_command, worker_main }
    }

    /// The build command.
    pub fn build_command(&self) -> (r: &String)
        ensures
            *r == self.build_command_value(),
    {
        &self.build_command
    }

    /// The worker main file.
    pub fn worker_main(&self) -> (r: &PathBuf)
        ensures
            *r == self.worker_main_value(),
    {
        &self.worker_main
    }
}

/// The profile a worker is built with.
#[derive(Debug, Clone)]
pub enum ProfileEnum {
    Dev(ProfileConfig),
    Prod(ProfileConfig),
}

impl ProfileEnum {
    /// The configuration of the profile, whichever it is.
    pub open spec fn config(&self) -> ProfileConfig {
        match self {
            ProfileEnum::Dev(c) => *c,
            ProfileEnum::Prod(c) => *c,
        }
    }

    /// The `NODE_ENV` of the profile: development for `Dev`, production for `Prod`.
    pub fn to_node_env(&self) -> (r: NodeEnv)
        ensures
            self is Dev ==> r == NodeEnv::Development,
            self is Prod ==> r == NodeEnv::Production,
    {
        match self {
            ProfileEnum::Dev(_) => NodeEnv::Development,
            ProfileEnum::Prod(_) => NodeEnv::Production,
        }
    }

    /// The configuration of the profile.
    pub fn get_config(&self) -> (r: &ProfileConfig)
        ensures
            *r == self.config(),
    {
        match self {
            ProfileEnum::Dev(config) => config,
            ProfileEnum::Prod(config) => config,
        }
    }
}

/// Why the build of a worker failed.
#[derive(Debug, Clone, Copy, PartialEq, Eq, Structural)]
pub enum BuildError {
    /// The build command exited unsuccessfully.
    CommandFailed,
}

impl BuildError {
    pub fn message(&self) -> (r: &'static str)
        ensures
            r@ == "Couldn't execute the build_command properly"@,
    {
        "Couldn't execute the build_command properly"
    }
}

/// Configuration file for the application.
#[derive(Debug, Clone)]
pub struct WorkerConfig {
    /// Define the account linked to this Project or it'll use the default one
    organization_id: Option<String>,
    /// The slug of the associated project.
    pub name: Slug,
    profile: ProfileEnum,
}

impl WorkerConfig {
    pub closed spec fn organization_value(&self) -> Option<String> {
        self.organization_id
    }

    pub closed spec fn profile_value(&self) -> ProfileEnum {
        self.profile
    }

    pub closed spec fn name_value(&self) -> Slug {
        self.name
    }

    pub fn new(organization_id: Option<String>, name: Slug, profile: ProfileEnum) -> (r: WorkerConfig)
        ensures
            r.organization_value() == organization_id,
            r.name_value() == name,
            r.profile_value() == profile,
    {
        WorkerConfig { organization_id, name, profile }
    }

    /// The organisation named in the configuration file, if any.
    pub fn configured_organization(&self) -> (r: &Option<String>)
        ensures
            *r == self.organization_value(),
    {
        &self.organization_id
    }

    /// The profile of the worker.
    pub fn profile(&self) -> (r: &ProfileEnum)
        ensures
            *r == self.profile_value(),
    {
        &self.profile
    }

    /// Where the built worker lands.
    pub fn path_main_dist(&self) -> (r: &PathBuf)
        ensures
            *r == self.profile_value().config().worker_main_value(),
    {
        let config = self.profile.get_config();
        config.worker_main()
    }

    /// The organisation the worker belongs to: the one of the configuration
    /// file, else the default organisation of the authenticated user.
    pub fn organization_id(&self, auth: &AuthContext) -> (r: String)
        ensures
            match self.organization_value() {
                Some(org) => r@ == org@,
                None => r@ == auth.claims_value().extra.default_organization()@,
            },
    {
        match &self.organization_id {
            Some(org) => org.clone(),
            None => auth.claims().extra.default_org().clone(),
        }
    }

    /// The outcome of the build, from whether the build command succeeded.
    pub fn build_outcome(success: bool) -> (r: Result<(), BuildError>)
        ensures
            r is Ok <==> success,
            !success ==> r == Err::<(), BuildError>(BuildError::CommandFailed),
    {
        if success {
            Ok(())
        } else {
            Err(BuildError::CommandFailed)
        }
    }
}

/// The id of the project that the API found by slug, if it found one that
/// has an id; otherwise the project has to be created.
pub fn existing_project_id(project: Option<Option<Project>>) -> (r: Option<String>)
    ensures
        r == match project {
            Some(Some(p)) => match p.id {
                Some(Some(id)) => Some(id),
                _ => None,
            },
            _ => None,
        },
{
    match project {
        Some(Some(p)) => match p.id {
            Some(Some(id)) => Some(id),
            _ => None,
        },
        _ => None,
    }
}

} // verus!
