//! The commands and arguments of the command line.
use vstd::prelude::*;

verus! {

/// The repository cloned for a TypeScript worker project.
pub const TYPESCRIPT_TEMPLATE: &'static str = "https://github.com/Miaxos/github-control.git";

/// How long the login waits for the browser, in seconds, unless told otherwise.
pub const DEFAULT_LOGIN_TIMEOUT_SECONDS: u64 = 120;

/// The templates a project can be created from.
#[derive(Debug, Clone, Copy, PartialEq, Eq, Structural)]
pub enum TemplatePossible {
    Typescript,
}

impl TemplatePossible {
    /// The repository the template is cloned from.
    pub fn repository(&self) -> (r: &'static str)
        ensures
            r@ == TYPESCRIPT_TEMPLATE@,
    {
        match self {
            TemplatePossible::Typescript => TYPESCRIPT_TEMPLATE,
        }
    }
}

/// `create`: create a new Swarmd Worker project.
#[derive(Debug)]
pub struct CreateArg {
    name: String,
    template: TemplatePossible,
}

impl CreateArg {
    pub closed spec fn name_value(&self) -> String {
        self.name
    }

    pub closed spec fn template_value(&self) -> TemplatePossible {
        self.template
    }

    pub fn new(name: String, template: TemplatePossible) -> (r: CreateArg)
        ensures
            r.name_value() == name,
            r.template_value() == template,
    {
        CreateArg { name, template }
    }

    /// The name of the project, which is also its directory.
    pub fn name(&self) -> (r: &String)
        ensures
            *r == self.name_value(),
    {
        &self.name
    }

    pub fn template(&self) -> (r: TemplatePossible)
        ensures
            r == self.template_value(),
    {
        self.template
    }
}

/// `deploy`: deploy a worker.
#[derive(Debug)]
pub struct DeployArg {
    prod: bool,
    build: bool,
}

impl DeployArg {
    pub closed spec fn prod_value(&self) -> bool {
        self.prod
    }

    pub closed spec fn build_value(&self) -> bool {
        self.build
    }

    pub fn new(prod: bool, build: bool) -> (r: DeployArg)
        ensures
            r.prod_value() == prod,
            r.build_value() == build,
    {
        DeployArg { prod, build }
    }

    /// To deploy in production.
    pub fn prod(&self) -> (r: bool)
        ensures
            r == self.prod_value(),
    {
        self.prod
    }

    /// Launch the build command before deploying: a deployment runs the
    /// build command exactly when this is set.
    pub fn build(&self) -> (r: bool)
        ensures
            r == self.build_value(),
    {
        self.build
    }
}

/// A step of a deployment, once the configuration is loaded.
#[derive(Debug, Clone, Copy, PartialEq, Eq, Structural)]
pub enum DeployStep {
    /// Run the build command of the project.
    Build,
    /// Read the built worker.
    ReadBundle,
    /// Find the project by its slug, creating it when it is missing.
    EnsureProject,
    /// Upload the worker to the project.
    Upload,
    /// Make the uploaded worker the one the project serves.
    Publish,
}

/// The steps of a deployment, in order: the build only when asked for, then
/// reading the bundle, making sure the project exists, uploading, publishing.
pub open spec fn deploy_plan(build: bool) -> Seq<DeployStep> {
    (if build {
        seq![DeployStep::Build]
    } else {
        seq![]
    }) + seq![
        DeployStep::ReadBundle,
        DeployStep::EnsureProject,
        DeployStep::Upload,
        DeployStep::Publish,
    ]
}

impl DeployArg {
    /// The steps this deployment takes, in order.
    pub fn steps(&self) -> (r: Vec<DeployStep>)
        ensures
            r@ == deploy_plan(self.build_value()),
    {
        let mut steps: Vec<DeployStep> = Vec::new();
        if self.build {
            steps.push(DeployStep::Build);
        }
        steps.push(DeployStep::ReadBundle);
        steps.push(DeployStep::EnsureProject);
        steps.push(DeployStep::Upload);
        steps.push(DeployStep::Publish);
        assert(steps@ =~= deploy_plan(self.build_value()));
        steps
    }
}

/// A deployment builds first exactly when asked to, and always ends by
/// publishing what it uploaded to the project it made sure of.
pub proof fn lemma_deploy_plan(build: bool)
    ensures
        deploy_plan(build).contains(DeployStep::Build) <==> build,
        deploy_plan(build).last() == DeployStep::Publish,
        build ==> deploy_plan(build)[0] == DeployStep::Build,
{
    if build {
        assert(deploy_plan(build)[0] == DeployStep::Build);
    } else {
        assert forall|i: int| 0 <= i < deploy_plan(build).len() implies deploy_plan(build)[i]
            != DeployStep::Build by {}
    }
}

/// `dev`: run the worker locally.
#[derive(Debug)]
pub struct DevArg {}

/// `login`: log in to the Swarmd Edge network.
#[derive(Debug)]
pub struct LoginArg {
    timeout: u64,
}

impl LoginArg {
    pub closed spec fn timeout_value(&self) -> u64 {
        self.timeout
    }

    pub fn new(timeout: u64) -> (r: LoginArg)
        ensures
            r.timeout_value() == timeout,
    {
        LoginArg { timeout }
    }

    /// How long to wait for the authentication flow, in seconds (the unit
    /// that the argument's value name, its default of 120 and the wait itself
    /// use).
    pub fn timeout(&self) -> (r: u64)
        ensures
            r == self.timeout_value(),
    {
        self.timeout
    }
}

/// `update`: install the latest release.
#[derive(Debug)]
pub struct UpdateArg {}

/// List of commands
#[derive(Debug)]
pub enum Commands {
    /// Login to Swarmd Edge network.
    Login(LoginArg),
    /// Create a new project
    Create(CreateArg),
    /// Deploy a Worker
    Deploy(DeployArg),
}

/// The parsed command line.
#[derive(Debug)]
pub struct CliConfig {
    command: Commands,
}

impl CliConfig {
    pub closed spec fn command_value(&self) -> Commands {
        self.command
    }

    pub fn new(command: Commands) -> (r: CliConfig)
        ensures
            r.command_value() == command,
    {
        CliConfig { command }
    }

    /// The command to run.
    pub fn command(&self) -> (r: &Commands)
        ensures
            *r == self.command_value(),
    {
        &self.command
    }

    /// The command to run, taken out of the command line.
    pub fn into_command(self) -> (r: Commands)
        ensures
            r == self.command_value(),
    {
        self.command
    }
}

} // verus!
