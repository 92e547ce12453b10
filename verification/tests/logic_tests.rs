use std::path::PathBuf;
use swarmd::auth::claims::{Claims, ExtraClaims, OneOrMany};
use swarmd::auth::AuthContext;
use swarmd::cli::{
    CliConfig, Commands, CreateArg, DeployArg, DeployStep, LoginArg, TemplatePossible,
    DEFAULT_LOGIN_TIMEOUT_SECONDS, TYPESCRIPT_TEMPLATE,
};
use swarmd::client::{ApiKey, SwarmdClient};
use swarmd::config::{push_decimal, sign_in_page, sign_in_url, Cfg, PROD_URL};
use swarmd::dev::{DevAction, DevSession, Notice, WatchError, WatchEvent};
use swarmd::login::{login_token, HttpAuthServer, LoginError, ServeOutcome, LOGIN_PORT};
use swarmd::models::{OrgRole, PartialOrganisation, Project};
use swarmd::runtime::{BootstrapOptions, ExitCode, LogLevel, WorkerLogLevel};
use swarmd::update::{
    archive_bin_path, available_update, release_check_due, update_check_due, update_check_due_now,
    UpdateCheckError,
};
use swarmd::worker_config::{
    existing_project_id, BuildError, NodeEnv, ProfileConfig, ProfileEnum, WorkerConfig,
    SWARMD_CONFIG_FILE,
};
use swarmd::slug_rs::Slug;

fn auth_with_default_org(org: &str) -> AuthContext {
    let extra = ExtraClaims::new("u".to_string(), true, None, org.to_string(), None, Default::default());
    let claims = Claims::new(None, None, None, None, None, OneOrMany::default(), None, extra);
    AuthContext::new("t".to_string(), claims)
}

fn config(org: Option<&str>, profile: ProfileEnum) -> WorkerConfig {
    WorkerConfig::new(org.map(|o| o.to_string()), Slug::try_from("demo").unwrap(), profile)
}

#[test]
fn profile_selects_node_env_and_config() {
    let dev = ProfileEnum::Dev(ProfileConfig::new("npm run build".to_string(), PathBuf::from("dist/main.js")));
    let prod = ProfileEnum::Prod(ProfileConfig::new("make".to_string(), PathBuf::from("out.js")));
    assert_eq!(dev.to_node_env(), NodeEnv::Development);
    assert_eq!(prod.to_node_env(), NodeEnv::Production);
    assert_eq!(dev.to_node_env().as_str(), "development");
    assert_eq!(prod.to_node_env().as_str(), "production");
    assert_eq!(dev.get_config().build_command(), "npm run build");
    assert_eq!(prod.get_config().worker_main(), &PathBuf::from("out.js"));
    let cfg = config(None, dev);
    assert_eq!(cfg.path_main_dist(), &PathBuf::from("dist/main.js"));
    assert_eq!(SWARMD_CONFIG_FILE, "swarmd.toml");
}

#[test]
fn organization_of_the_file_wins() {
    let profile = ProfileEnum::Dev(ProfileConfig::new("b".to_string(), PathBuf::from("m.js")));
    let auth = auth_with_default_org("org_default");
    assert_eq!(config(Some("org_file"), profile.clone()).organization_id(&auth), "org_file");
    assert_eq!(config(None, profile).organization_id(&auth), "org_default");
}

#[test]
fn build_outcome_follows_the_exit_status() {
    assert_eq!(WorkerConfig::build_outcome(true), Ok(()));
    assert_eq!(WorkerConfig::build_outcome(false), Err(BuildError::CommandFailed));
    assert_eq!(BuildError::CommandFailed.message(), "Couldn't execute the build_command properly");
}

#[test]
fn existing_project_needs_an_id() {
    assert_eq!(existing_project_id(None), None);
    assert_eq!(existing_project_id(Some(None)), None);
    let bare = Project::new("demo".to_string());
    assert_eq!(existing_project_id(Some(Some(bare.clone()))), None);
    let mut null_id = bare.clone();
    null_id.id = Some(None);
    assert_eq!(existing_project_id(Some(Some(null_id))), None);
    let mut with_id = bare;
    with_id.id = Some(Some("p_1".to_string()));
    assert_eq!(existing_project_id(Some(Some(with_id))), Some("p_1".to_string()));
}

#[test]
fn api_url_defaults_to_production() {
    assert_eq!(Cfg { api: None }.into_http_url(), PROD_URL);
    assert_eq!(PROD_URL, "https://api.swarmd.io");
    assert_eq!(Cfg { api: Some("http://localhost:8087".to_string()) }.into_http_url(), "http://localhost:8087");
}

#[test]
fn sign_in_url_holds_the_port() {
    assert_eq!(sign_in_url("https://swarmd.io", 3001), "https://swarmd.io/sign-in?port=3001");
    assert_eq!(sign_in_url("b", 0), "b/sign-in?port=0");
    assert_eq!(sign_in_url("b", 65535), "b/sign-in?port=65535");
    let mut s = String::from("x");
    push_decimal(&mut s, 18446744073709551615);
    assert_eq!(s, "x18446744073709551615");
}

#[test]
fn client_authenticates_with_bearer_token() {
    let http = reqwest::Client::new();
    let client = SwarmdClient::new("https://api".to_string(), &http, "tok".to_string(), "swarmd-0.1".to_string());
    let config = client.as_ref();
    assert_eq!(config.base_path, "https://api");
    assert_eq!(config.user_agent.as_deref(), Some("swarmd-0.1"));
    assert_eq!(config.authorization(), Some("Bearer tok".to_string()));
    let mut bare = config.clone();
    bare.api_key = Some(ApiKey { prefix: None, key: "k".to_string() });
    assert_eq!(bare.authorization(), Some("k".to_string()));
    bare.api_key = None;
    assert_eq!(bare.authorization(), None);
}

#[test]
fn release_check_waits_three_days() {
    assert!(!release_check_due(0));
    assert!(!release_check_due(-5));
    assert!(!release_check_due(259199));
    assert!(release_check_due(259200));
    assert!(release_check_due(1_000_000));
}

#[test]
fn update_announces_only_other_versions() {
    assert_eq!(available_update("0.1.0", None), None);
    assert_eq!(available_update("0.1.0", Some("0.1.0".to_string())), None);
    assert_eq!(available_update("0.1.0", Some("0.2.0".to_string())), Some("0.2.0".to_string()));
    assert_eq!(
        archive_bin_path("0.2.0", "x86_64-unknown-linux-gnu"),
        "swarmd-v0.2.0-x86_64-unknown-linux-gnu/swarmd"
    );
}

fn kinds(actions: &[DevAction]) -> Vec<String> {
    actions
        .iter()
        .map(|a| match a {
            DevAction::ReportKind(k) => format!("kind:{k}"),
            DevAction::ReportPath(p) => format!("path:{p}"),
            DevAction::StopWorker => "stop".to_string(),
            DevAction::Announce(n) => format!("say:{}", n.text()),
            DevAction::Build => "build".to_string(),
            DevAction::StartWorker => "start".to_string(),
        })
        .collect()
}

#[test]
fn dev_reloads_on_change() {
    let mut session = DevSession::started();
    let actions = session.on_event(WatchEvent::Changed);
    assert_eq!(kinds(&actions), vec!["stop", "say:Reloading...", "build", "say:Reloaded", "start"]);
    let again = session.on_event(WatchEvent::Changed);
    assert_eq!(kinds(&again), kinds(&actions));
    assert_eq!(Notice::Reloading.text(), "Reloading...");
}

#[test]
fn dev_reports_watch_errors_without_reload() {
    let mut session = DevSession::started();
    let errors = vec![
        WatchError { kind: "Io".to_string(), paths: vec!["src/a.ts".to_string(), "src/b.ts".to_string()] },
        WatchError { kind: "Generic".to_string(), paths: vec![] },
    ];
    let actions = session.on_event(WatchEvent::Failed(errors));
    assert_eq!(kinds(&actions), vec!["kind:Io", "path:src/a.ts", "path:src/b.ts", "kind:Generic"]);
    assert!(session.on_event(WatchEvent::Failed(vec![])).is_empty());
    // the worker still runs: the next change stops it first
    assert_eq!(kinds(&session.on_event(WatchEvent::Changed))[0], "stop");
}

#[test]
fn login_outcomes() {
    assert_eq!(LOGIN_PORT, 3001);
    assert_eq!(HttpAuthServer::new(LOGIN_PORT).port(), 3001);
    assert_eq!(login_token(ServeOutcome::Stopped, Some("tok".to_string())).unwrap(), "tok");
    let no_token = login_token(ServeOutcome::Stopped, None).unwrap_err();
    assert_eq!(no_token.message(), "Something wrong happened");
    let failed = login_token(ServeOutcome::Failed("address in use".to_string()), Some("tok".to_string())).unwrap_err();
    assert!(matches!(failed, LoginError::Server(ref m) if m == "address in use"));
    let timeout = login_token(ServeOutcome::TimedOut("Elapsed(())".to_string()), None).unwrap_err();
    assert_eq!(timeout.message(), "Timeout after Elapsed(())");
}

#[test]
fn models_and_roles() {
    assert_eq!(OrgRole::Admin.to_string(), "admin");
    assert_eq!(OrgRole::Member.to_string(), "member");
    assert_eq!(OrgRole::default(), OrgRole::Admin);
    let org = PartialOrganisation::new("o1".to_string(), OrgRole::Member, "acme".to_string());
    assert_eq!((org.id.as_str(), org.role, org.slug.as_str()), ("o1", OrgRole::Member, "acme"));
    let p = Project::new("demo".to_string());
    assert_eq!((p.active_worker, p.id, p.org_id, p.slug.as_str()), (None, None, None, "demo"));
}

#[test]
fn worker_log_levels() {
    assert_eq!(WorkerLogLevel::default(), WorkerLogLevel::Info);
    assert_eq!(WorkerLogLevel::from_log_level(LogLevel::Trace), WorkerLogLevel::Debug);
    assert_eq!(WorkerLogLevel::from_log_level(LogLevel::Warn), WorkerLogLevel::Warn);
    let values: Vec<u8> = [WorkerLogLevel::Error, WorkerLogLevel::Warn, WorkerLogLevel::Info, WorkerLogLevel::Debug]
        .iter()
        .map(|l| l.value())
        .collect();
    assert_eq!(values, vec![1, 2, 3, 4]);
}

#[test]
fn exit_code_is_shared_by_clones() {
    let mut code = ExitCode::new();
    assert_eq!(code.get(), 0);
    let other = code.clone();
    code.set(3);
    assert_eq!(other.get(), 3);
}

#[test]
fn command_line_arguments() {
    assert_eq!(DEFAULT_LOGIN_TIMEOUT_SECONDS, 120);
    assert_eq!(TemplatePossible::Typescript.repository(), TYPESCRIPT_TEMPLATE);
    let create = CreateArg::new("demo".to_string(), TemplatePossible::Typescript);
    assert_eq!(create.name(), "demo");
    assert_eq!(create.template(), TemplatePossible::Typescript);
    let deploy = DeployArg::new(true, false);
    assert!(deploy.prod() && !deploy.build());
    assert_eq!(LoginArg::new(30).timeout(), 30);
    let cli = CliConfig::new(Commands::Deploy(deploy));
    assert!(matches!(cli.command(), Commands::Deploy(d) if d.prod()));
}

#[test]
fn update_check_uses_the_build_date() {
    let built = "2023-11-10T10:00:00Z"; // 1699610400
    assert_eq!(update_check_due(built, 1699610400, 0), Some(false));
    assert_eq!(update_check_due(built, 1699610400 + 259199, 999_999_999), Some(false));
    assert_eq!(update_check_due(built, 1699610400 + 259200, 0), Some(true));
    assert_eq!(update_check_due("2023-11-10T12:00:00+02:00", 1699610400 + 259200, 0), Some(true));
    // fractions of a second count
    let built_late = "2023-11-10T10:00:00.5Z";
    assert_eq!(update_check_due(built_late, 1699610400 + 259200, 0), Some(false));
    assert_eq!(update_check_due(built_late, 1699610400 + 259200, 499_999_999), Some(false));
    assert_eq!(update_check_due(built_late, 1699610400 + 259200, 500_000_000), Some(true));
    assert_eq!(update_check_due(built, i64::MIN, 0), Some(false));
    assert_eq!(update_check_due(built, i64::MAX, 0), Some(true));
    assert_eq!(update_check_due("2023-11-10T10:00:00Z\n", 0, 0), None);
    assert_eq!(update_check_due("yesterday", 0, 0), None);
    assert_eq!(update_check_due_now("not a date"), Err(UpdateCheckError::InvalidBuildDate));
    assert_eq!(update_check_due_now("2000-01-01T00:00:00Z"), Ok(true));
    assert_eq!(update_check_due_now("2999-01-01T00:00:00Z"), Ok(false));
}

#[test]
fn sign_in_page_is_a_url() {
    let url = sign_in_page("https://swarmd.io", 3001).unwrap();
    assert_eq!(url.as_str(), "https://swarmd.io/sign-in?port=3001");
    assert_eq!(url.query(), Some("port=3001"));
    assert!(sign_in_page("not a base", 3001).is_none());
}

#[test]
fn bootstrap_options_defaults() {
    let options = BootstrapOptions::for_version("0.1.0");
    assert_eq!(options.cpu_count, 1);
    assert_eq!(options.log_level, WorkerLogLevel::Info);
    assert_eq!(options.locale, "en");
    assert!(options.location.is_none());
    assert_eq!(options.user_agent, "Swarmd/Local-0.1.0");
}

#[test]
fn deploy_builds_only_when_asked() {
    assert_eq!(DeployArg::new(false, true).steps(), vec![DeployStep::Build, DeployStep::ReadBundle, DeployStep::EnsureProject, DeployStep::Upload, DeployStep::Publish]);
    assert_eq!(DeployArg::new(true, false).steps(), vec![DeployStep::ReadBundle, DeployStep::EnsureProject, DeployStep::Upload, DeployStep::Publish]);
}
