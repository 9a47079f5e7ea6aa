use devcon::default_remote_user;
use devcon::default_workspace_folder;
use devcon::errors::Error;
use devcon::manifest::Build;
use devcon::manifest::Config;
use devcon::manifest::ShutdownAction;
use devcon::settings::Provider;
use devcon::settings::Settings;

fn make_config(
    name: &str,
    dockerfile: Option<&str>,
    compose_file: Option<&str>,
    service: Option<&str>,
    remote_env: Vec<(String, String)>,
    shutdown: ShutdownAction,
) -> Result<Config, Error> {
    Config::new(
        name.to_string(),
        dockerfile.map(|f| Build { dockerfile: Some(f.to_string()), args: Vec::new() }),
        Vec::new(),
        None,
        None,
        None,
        "root".to_string(),
        Vec::new(),
        remote_env,
        compose_file.map(|f| f.to_string()),
        service.map(|s| s.to_string()),
        "/workspace".to_string(),
        shutdown,
    )
}

fn docker_config(name: &str) -> Config {
    make_config(name, Some("Dockerfile"), None, None, Vec::new(), ShutdownAction::StopContainer)
        .unwrap()
}

#[test]
fn safe_name_lowercases_and_hyphenates() {
    let c = docker_config("My App");
    assert_eq!(c.safe_name(), "devcon-my-app");
}

#[test]
fn safe_name_trims_whitespace() {
    let c = docker_config("  Foo Bar  ");
    assert_eq!(c.safe_name(), "devcon-foo-bar");
}

#[test]
fn safe_name_is_stable() {
    let c = docker_config("Stable Name");
    assert_eq!(c.safe_name(), c.safe_name());
    assert_eq!(c.safe_name(), "devcon-stable-name");
}

#[test]
fn safe_name_keeps_plain_names() {
    let c = docker_config("plain");
    assert_eq!(c.safe_name(), "devcon-plain");
}

#[test]
fn new_rejects_both_build_sources() {
    let r = make_config(
        "x",
        Some("Dockerfile"),
        Some("docker-compose.yml"),
        Some("web"),
        Vec::new(),
        ShutdownAction::StopContainer,
    );
    assert!(matches!(r, Err(Error::AmbiguousOrMissingBuildTarget)));
}

#[test]
fn new_rejects_missing_build_source() {
    let r = make_config("x", None, None, None, Vec::new(), ShutdownAction::StopContainer);
    assert!(matches!(r, Err(Error::AmbiguousOrMissingBuildTarget)));
}

#[test]
fn new_rejects_compose_without_service() {
    let r = make_config(
        "x",
        None,
        Some("docker-compose.yml"),
        None,
        Vec::new(),
        ShutdownAction::StopContainer,
    );
    assert!(matches!(r, Err(Error::ManifestParseError)));
}

#[test]
fn new_rejects_duplicate_env_keys() {
    let env = vec![
        ("A".to_string(), "1".to_string()),
        ("A".to_string(), "2".to_string()),
    ];
    let r = make_config("x", Some("Dockerfile"), None, None, env, ShutdownAction::StopContainer);
    assert!(matches!(r, Err(Error::ManifestParseError)));
}

#[test]
fn new_accepts_unique_env_keys() {
    let env = vec![
        ("A".to_string(), "1".to_string()),
        ("B".to_string(), "1".to_string()),
    ];
    let r = make_config("x", Some("Dockerfile"), None, None, env, ShutdownAction::StopContainer);
    assert!(r.is_ok());
}

#[test]
fn dockerfile_accessor_returns_the_path() {
    let c = docker_config("x");
    assert_eq!(c.dockerfile(), Some("Dockerfile".to_string()));
    assert!(!c.is_compose());
}

#[test]
fn compose_accessors() {
    let c = make_config(
        "x",
        None,
        Some("docker-compose.yml"),
        Some("web"),
        Vec::new(),
        ShutdownAction::StopCompose,
    )
    .unwrap();
    assert!(c.is_compose());
    assert_eq!(c.dockerfile(), None);
}

#[test]
fn should_shutdown_follows_the_action() {
    let stop = make_config(
        "x",
        Some("Dockerfile"),
        None,
        None,
        Vec::new(),
        ShutdownAction::StopContainer,
    )
    .unwrap();
    assert!(stop.should_shutdown());
    let keep = make_config(
        "x",
        Some("Dockerfile"),
        None,
        None,
        Vec::new(),
        ShutdownAction::LeaveRunning,
    )
    .unwrap();
    assert!(!keep.should_shutdown());
}

#[test]
fn build_args_accessor_returns_the_pairs() {
    let c = Config::new(
        "x".to_string(),
        Some(Build {
            dockerfile: Some("Dockerfile".to_string()),
            args: vec![("K".to_string(), "V".to_string())],
        }),
        Vec::new(),
        None,
        None,
        None,
        "root".to_string(),
        Vec::new(),
        Vec::new(),
        None,
        None,
        "/workspace".to_string(),
        ShutdownAction::StopContainer,
    )
    .unwrap();
    assert_eq!(c.build_args(), vec![("K".to_string(), "V".to_string())]);
}

#[test]
fn defaults_are_root_and_workspace() {
    assert_eq!(default_remote_user(), "root");
    assert_eq!(default_workspace_folder(), "/workspace");
}

#[test]
fn shutdown_action_defaults_to_stop_container() {
    assert_eq!(ShutdownAction::default(), ShutdownAction::StopContainer);
}

#[test]
fn settings_default_to_docker_without_dotfiles() {
    let s = Settings::default();
    assert_eq!(s.provider, Provider::Docker);
    assert!(s.dotfiles.is_empty());
    assert_eq!(Provider::default(), Provider::Docker);
}

#[test]
fn error_messages_name_each_failure() {
    assert_eq!(
        Error::ManifestNotFound.message(),
        "could not find the devcontainer manifest"
    );
    assert_eq!(
        Error::ManifestParseError.message(),
        "the devcontainer manifest is malformed"
    );
    assert_eq!(Error::ProviderCommandFailed.message(), "a backend command failed");
    assert_eq!(
        Error::SourceFileMissingForCopy.message(),
        "the file to copy does not exist"
    );
    assert_eq!(
        Error::AmbiguousOrMissingBuildTarget.message(),
        "exactly one of a Dockerfile and a compose file must be configured"
    );
}
