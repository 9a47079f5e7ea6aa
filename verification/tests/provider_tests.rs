use devcon::command::Cmd;
use devcon::compose_override::render_override;
use devcon::devcontainer::build_provider;
use devcon::devcontainer::Devcontainer;
use devcon::manifest::Build;
use devcon::manifest::Config;
use devcon::manifest::ShutdownAction;
use devcon::provider::docker::Docker;
use devcon::provider::docker_compose::DockerCompose;
use devcon::provider::podman::Podman;
use devcon::provider::podman_compose::PodmanCompose;
use devcon::provider::Backend;
use devcon::provider::OpX;
use devcon::settings::Provider;
use devcon::settings::Settings;
use devcon::text::parent_dir;
use devcon::text::port_pair_string;
use devcon::text::u16_dec;

fn full_config(forward_ports: Vec<u16>, remote_env: Vec<(String, String)>, run_args: Vec<String>) -> Config {
    Config::new(
        "App".to_string(),
        Some(Build { dockerfile: Some("Dockerfile".to_string()), args: Vec::new() }),
        forward_ports,
        None,
        None,
        None,
        "root".to_string(),
        run_args,
        remote_env,
        None,
        None,
        "/workspace".to_string(),
        ShutdownAction::StopContainer,
    )
    .unwrap()
}

fn compose_config() -> Config {
    Config::new(
        "App".to_string(),
        None,
        Vec::new(),
        None,
        None,
        None,
        "root".to_string(),
        Vec::new(),
        Vec::new(),
        Some("docker-compose.yml".to_string()),
        Some("web".to_string()),
        "/workspace".to_string(),
        ShutdownAction::StopCompose,
    )
    .unwrap()
}

fn devcontainer_for(config: Config) -> Devcontainer {
    Devcontainer::load("/proj".to_string(), config, Settings::default(), None)
}

fn sample_docker() -> Docker {
    Docker {
        build_args: Vec::new(),
        command: "docker".to_string(),
        directory: "/proj".to_string(),
        file: "/proj/.devcontainer/Dockerfile".to_string(),
        name: "devcon-app".to_string(),
        run_args: Vec::new(),
        user: "root".to_string(),
        workspace_folder: "/workspace".to_string(),
    }
}

#[test]
fn create_args_maps_each_port_in_order() {
    let d = devcontainer_for(full_config(vec![3000, 8080], Vec::new(), Vec::new()));
    let args = d.create_args();
    assert_eq!(
        args,
        vec!["-p", "3000:3000", "-p", "8080:8080", "-w", "/workspace"]
    );
    let p_count = args.iter().filter(|a| a.as_str() == "-p").count();
    assert_eq!(p_count, 2);
}

#[test]
fn create_args_without_env_has_no_env_token() {
    let d = devcontainer_for(full_config(Vec::new(), Vec::new(), Vec::new()));
    let args = d.create_args();
    assert_eq!(args, vec!["-w", "/workspace"]);
    assert!(args.iter().all(|a| a.as_str() != "-e"));
}

#[test]
fn create_args_with_one_env_entry_has_exactly_one_env_token() {
    let env = vec![("A".to_string(), "1".to_string())];
    let d = devcontainer_for(full_config(Vec::new(), env, Vec::new()));
    let args = d.create_args();
    assert_eq!(args, vec!["-e", "A=1", "-w", "/workspace"]);
    let e_count = args.iter().filter(|a| a.as_str() == "-e").count();
    assert_eq!(e_count, 1);
}

#[test]
fn create_args_appends_run_args_last() {
    let d = devcontainer_for(full_config(
        vec![80],
        Vec::new(),
        vec!["--privileged".to_string()],
    ));
    let args = d.create_args();
    assert_eq!(args, vec!["-p", "80:80", "-w", "/workspace", "--privileged"]);
}

#[test]
fn decimal_rendering_is_exact() {
    assert_eq!(u16_dec(0), "0");
    assert_eq!(u16_dec(7), "7");
    assert_eq!(u16_dec(3000), "3000");
    assert_eq!(u16_dec(65535), "65535");
    assert_eq!(port_pair_string(8080), "8080:8080");
}

#[test]
fn parent_dir_takes_everything_before_the_last_slash() {
    assert_eq!(parent_dir(&"/home/u/.gitconfig".to_string()), "/home/u");
    assert_eq!(parent_dir(&"/a".to_string()), "/");
    assert_eq!(parent_dir(&"a/b".to_string()), "a");
}

#[test]
fn docker_build_command_tokens() {
    let p = sample_docker();
    let c = p.command_for(OpX::Build { use_cache: false });
    assert_eq!(c.program, "docker");
    assert_eq!(
        c.args,
        vec![
            "build",
            "-t",
            "devcon/devcon-app",
            "-f",
            "/proj/.devcontainer/Dockerfile",
            "--no-cache",
            "/proj"
        ]
    );
    assert!(!c.capture);
    let cached = p.command_for(OpX::Build { use_cache: true });
    assert!(cached.args.iter().all(|a| a.as_str() != "--no-cache"));
}

#[test]
fn docker_create_command_tokens() {
    let p = sample_docker();
    let c = p.command_for(OpX::Create { extra: vec!["-p".to_string(), "80:80".to_string()] });
    assert_eq!(
        c.args,
        vec![
            "create",
            "--mount",
            "type=bind,source=/proj,target=/workspace",
            "-p",
            "80:80",
            "-it",
            "--name",
            "devcon-app",
            "-u",
            "root",
            "-w",
            "/workspace",
            "devcon/devcon-app",
            "zsh"
        ]
    );
}

#[test]
fn docker_query_commands_capture_output() {
    let p = sample_docker();
    let e = p.command_for(OpX::Exists);
    assert_eq!(e.args, vec!["ps", "-aq", "--filter", "name=devcon-app"]);
    assert!(e.capture);
    let r = p.command_for(OpX::Running);
    assert_eq!(r.args, vec!["ps", "-q", "--filter", "name=devcon-app"]);
    assert!(r.capture);
}

#[test]
fn docker_exec_wraps_the_shell_command() {
    let p = sample_docker();
    let c = p.command_for(OpX::Exec { command: "echo hi".to_string() });
    assert_eq!(
        c.args,
        vec!["exec", "-u", "root", "-w", "/workspace", "devcon-app", "sh", "-c", "echo hi"]
    );
}

#[test]
fn podman_create_hardens_and_forwards_the_agent() {
    let p = Podman {
        build_args: Vec::new(),
        command: "podman".to_string(),
        directory: "/proj".to_string(),
        file: "/proj/.devcontainer/Dockerfile".to_string(),
        forward_ports: Vec::new(),
        name: "devcon-app".to_string(),
        run_args: Vec::new(),
        ssh_auth_sock: Some("/run/agent.sock".to_string()),
        user: "root".to_string(),
        workspace_folder: "/workspace".to_string(),
    };
    let c = p.command_for(OpX::Create { extra: Vec::new() });
    assert_eq!(
        c.args,
        vec![
            "create",
            "--userns=keep-id",
            "--security-opt",
            "label=disable",
            "--mount",
            "type=bind,source=/proj,target=/workspace",
            "--volume",
            "/run/agent.sock:/ssh-agent",
            "--env",
            "SSH_AUTH_SOCK=/ssh-agent",
            "-it",
            "--name",
            "devcon-app",
            "-u",
            "root",
            "-w",
            "/workspace",
            "devcon/devcon-app",
            "zsh"
        ]
    );
}

#[test]
fn docker_compose_commands_resupply_both_files() {
    let p = DockerCompose {
        build_args: Vec::new(),
        command: "docker".to_string(),
        directory: "/proj".to_string(),
        file: "/proj/.devcontainer/docker-compose.yml".to_string(),
        forward_ports: Vec::new(),
        name: "devcon-app".to_string(),
        run_args: Vec::new(),
        service: "web".to_string(),
        ssh_auth_sock: None,
        user: "root".to_string(),
        workspace_folder: "/workspace".to_string(),
    };
    let b = p
        .command_for(OpX::Build { use_cache: true }, Some("/tmp/ov.yml".to_string()))
        .unwrap();
    assert_eq!(
        b.args,
        vec![
            "compose",
            "-f",
            "/proj/.devcontainer/docker-compose.yml",
            "-f",
            "/tmp/ov.yml",
            "-p",
            "devcon-app",
            "build"
        ]
    );
    let e = p.command_for(OpX::Exists, None).unwrap();
    assert_eq!(
        e.args,
        vec![
            "compose",
            "-f",
            "/proj/.devcontainer/docker-compose.yml",
            "-p",
            "devcon-app",
            "ps",
            "-aq"
        ]
    );
    assert!(e.capture);
    let r = p.command_for(OpX::Running, None).unwrap();
    assert_eq!(*r.args.last().unwrap(), "--status=running");
    let none: Option<Cmd> = p.command_for(OpX::Create { extra: Vec::new() }, None);
    assert!(none.is_none());
}

#[test]
fn podman_compose_teardown_removes_images() {
    let p = PodmanCompose {
        build_args: Vec::new(),
        command: "podman-compose".to_string(),
        directory: "/proj".to_string(),
        file: "/proj/.devcontainer/docker-compose.yml".to_string(),
        name: "devcon-app".to_string(),
        podman_command: "podman".to_string(),
        run_args: Vec::new(),
        service: "web".to_string(),
        user: "root".to_string(),
        workspace_folder: "/workspace".to_string(),
    };
    let c = p.command_for(OpX::Rm).unwrap();
    assert_eq!(
        c.args,
        vec![
            "-f",
            "/proj/.devcontainer/docker-compose.yml",
            "-p",
            "devcon-app",
            "down",
            "--remove-orphans",
            "--rmi",
            "all"
        ]
    );
    assert!(p.command_for(OpX::Create { extra: Vec::new() }).is_none());
}

#[test]
fn override_document_mounts_the_agent_socket() {
    let with_sock = render_override(&Some("/run/agent.sock".to_string()), &"web".to_string());
    assert_eq!(
        with_sock,
        "services:\n  web:\n    volumes:\n      - /run/agent.sock:/ssh-agent\n    environment:\n      - SSH_AUTH_SOCK=/ssh-agent\n"
    );
    let without = render_override(&None, &"web".to_string());
    assert_eq!(without, "services:\n  web: {}\n");
}

#[test]
fn provider_selection_routes_compose_to_compose() {
    let settings = Settings::default();
    let compose = compose_config();
    let b = build_provider(&"/proj".to_string(), &settings, &compose, None);
    assert!(matches!(b, Backend::DockerCompose(_)));
    if let Backend::DockerCompose(dc) = b {
        assert_eq!(dc.file, "/proj/.devcontainer/docker-compose.yml");
        assert_eq!(dc.service, "web");
        assert_eq!(dc.name, "devcon-app");
    }
    let single = full_config(Vec::new(), Vec::new(), Vec::new());
    let b2 = build_provider(&"/proj".to_string(), &settings, &single, None);
    assert!(matches!(b2, Backend::Docker(_)));
}

#[test]
fn provider_selection_respects_the_backend_family() {
    let settings = Settings { dotfiles: Vec::new(), provider: Provider::Podman };
    let single = full_config(Vec::new(), Vec::new(), Vec::new());
    let b = build_provider(&"/proj".to_string(), &settings, &single, None);
    assert!(matches!(b, Backend::Podman(_)));
    let compose = compose_config();
    let b2 = build_provider(&"/proj".to_string(), &settings, &compose, None);
    assert!(matches!(b2, Backend::PodmanCompose(_)));
}
