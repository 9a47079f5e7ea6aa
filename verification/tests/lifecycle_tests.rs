use devcon::command::Cmd;
use devcon::command::Event;
use devcon::command::PathKind;
use devcon::command::Reply;
use devcon::command::ScriptReply;
use devcon::command::ScriptedExecutor;
use devcon::devcontainer::CopyOutcome;
use devcon::devcontainer::Devcontainer;
use devcon::errors::Error;
use devcon::manifest::Build;
use devcon::manifest::Config;
use devcon::manifest::ShutdownAction;
use devcon::settings::Provider;
use devcon::settings::Settings;

fn docker_devcontainer() -> Devcontainer {
    let config = Config::new(
        "App".to_string(),
        Some(Build { dockerfile: Some("Dockerfile".to_string()), args: Vec::new() }),
        Vec::new(),
        None,
        None,
        None,
        "root".to_string(),
        Vec::new(),
        Vec::new(),
        None,
        None,
        "/workspace".to_string(),
        ShutdownAction::StopContainer,
    )
    .unwrap();
    Devcontainer::load("/proj".to_string(), config, Settings::default(), None)
}

fn compose_devcontainer() -> Devcontainer {
    let config = Config::new(
        "App".to_string(),
        None,
        Vec::new(),
        None,
        None,
        None,
        "root".to_string(),
        Vec::new(),
        Vec::new(),
        Some("docker-compose.yml".to_string()),
        Some("web".to_string()),
        "/workspace".to_string(),
        ShutdownAction::StopCompose,
    )
    .unwrap();
    Devcontainer::load("/proj".to_string(), config, Settings::default(), None)
}

fn reply_found() -> ScriptReply {
    ScriptReply::Run(Reply::Done { success: true, output: "cid".to_string() })
}

fn ran(e: &Event) -> &Cmd {
    match e {
        Event::Ran { cmd, .. } => cmd,
        _ => panic!("expected a command event"),
    }
}

fn head(e: &Event) -> &str {
    ran(e).args[0].as_str()
}

#[test]
fn run_provisions_an_absent_target() {
    let d = docker_devcontainer();
    let mut x = ScriptedExecutor::new(Vec::new());
    let r = d.run(&mut x, true);
    assert!(r.is_ok());
    assert_eq!(x.events.len(), 9);
    assert_eq!(ran(&x.events[0]).args, vec!["ps", "-aq", "--filter", "name=devcon-app"]);
    assert_eq!(head(&x.events[1]), "build");
    assert_eq!(head(&x.events[2]), "create");
    assert_eq!(ran(&x.events[3]).args, vec!["ps", "-q", "--filter", "name=devcon-app"]);
    assert_eq!(ran(&x.events[4]).args, vec!["start", "devcon-app"]);
    assert!(matches!(
        &x.events[5],
        Event::PathChecked { kind: PathKind::Missing, .. }
    ));
    assert_eq!(ran(&x.events[6]).args, vec!["restart", "devcon-app"]);
    assert_eq!(ran(&x.events[7]).args, vec!["attach", "devcon-app"]);
    assert_eq!(ran(&x.events[8]).args, vec!["stop", "devcon-app"]);
}

#[test]
fn run_skips_provisioning_when_the_target_is_live() {
    let d = docker_devcontainer();
    let mut x = ScriptedExecutor::new(vec![reply_found(), reply_found()]);
    let r = d.run(&mut x, true);
    assert!(r.is_ok());
    for e in &x.events {
        if let Event::Ran { cmd, .. } = e {
            let h = cmd.args[0].as_str();
            assert_ne!(h, "build");
            assert_ne!(h, "create");
            assert_ne!(h, "start");
        }
    }
    assert_eq!(x.events.len(), 6);
}

#[test]
fn run_twice_against_a_live_target_never_provisions() {
    let d = docker_devcontainer();
    let mut x = ScriptedExecutor::new(vec![
        reply_found(),
        reply_found(),
        ScriptReply::Path(PathKind::Missing),
        reply_found(),
        reply_found(),
        reply_found(),
        reply_found(),
        reply_found(),
        ScriptReply::Path(PathKind::Missing),
        reply_found(),
        reply_found(),
        reply_found(),
    ]);
    assert!(d.run(&mut x, true).is_ok());
    let first_len = x.events.len();
    assert!(d.run(&mut x, true).is_ok());
    for e in &x.events[first_len..] {
        if let Event::Ran { cmd, .. } = e {
            let h = cmd.args[0].as_str();
            assert_ne!(h, "build");
            assert_ne!(h, "create");
            assert_ne!(h, "start");
        }
    }
}

#[test]
fn rebuild_stops_and_removes_an_existing_target_first() {
    let d = docker_devcontainer();
    let mut x = ScriptedExecutor::new(vec![reply_found()]);
    let r = d.rebuild(&mut x, true);
    assert!(r.is_ok());
    assert_eq!(ran(&x.events[0]).args, vec!["ps", "-aq", "--filter", "name=devcon-app"]);
    assert_eq!(ran(&x.events[1]).args, vec!["stop", "devcon-app"]);
    assert_eq!(ran(&x.events[2]).args, vec!["rm", "devcon-app"]);
    // the run that follows provisions from scratch
    assert_eq!(head(&x.events[4]), "build");
    assert_eq!(head(&x.events[5]), "create");
}

#[test]
fn rebuild_skips_teardown_when_nothing_exists() {
    let d = docker_devcontainer();
    let mut x = ScriptedExecutor::new(Vec::new());
    let r = d.rebuild(&mut x, false);
    assert!(r.is_ok());
    // the first query finds nothing; no stop and no rm anywhere before
    // the run's own provisioning
    assert_eq!(ran(&x.events[0]).args, vec!["ps", "-aq", "--filter", "name=devcon-app"]);
    assert_eq!(ran(&x.events[1]).args, vec!["ps", "-aq", "--filter", "name=devcon-app"]);
    assert_eq!(head(&x.events[2]), "build");
    // a cache-bypassing rebuild forces a clean build
    assert!(ran(&x.events[2]).args.iter().any(|a| a.as_str() == "--no-cache"));
}

#[test]
fn compose_lifecycle_never_issues_a_container_create() {
    let d = compose_devcontainer();
    let mut x = ScriptedExecutor::new(Vec::new());
    let r = d.run(&mut x, true);
    assert!(r.is_ok());
    let mut saw_build = false;
    for e in &x.events {
        if let Event::Ran { cmd, .. } = e {
            assert_eq!(cmd.program, "docker");
            assert_eq!(cmd.args[0].as_str(), "compose");
            assert!(cmd.args.iter().all(|a| a.as_str() != "create"));
            if cmd.args.iter().any(|a| a.as_str() == "build") {
                saw_build = true;
            }
        }
    }
    assert!(saw_build);
}

#[test]
fn compose_restages_the_override_before_each_stateful_operation() {
    let d = compose_devcontainer();
    let mut x = ScriptedExecutor::new(Vec::new());
    assert!(d.run(&mut x, true).is_ok());
    let mut wrote = 0;
    for e in &x.events {
        if let Event::Wrote { contents, dest } = e {
            assert_eq!(contents.as_str(), "services:\n  web: {}\n");
            assert!(dest.is_some());
            wrote += 1;
        }
    }
    // build, up, restart, attach and stop each stage one override; the
    // listing queries stage none
    assert_eq!(wrote, 5);
}

#[test]
fn copy_of_a_missing_source_is_skipped_without_backend_work() {
    let d = docker_devcontainer();
    let mut x = ScriptedExecutor::new(vec![ScriptReply::Path(PathKind::Missing)]);
    let r = d.copy(&mut x, &"/nowhere/file".to_string(), &"/root/file".to_string());
    assert_eq!(r, Ok(CopyOutcome::Skipped));
    assert_eq!(x.events.len(), 1);
    assert!(matches!(
        &x.events[0],
        Event::PathChecked { kind: PathKind::Missing, .. }
    ));
}

#[test]
fn copy_of_a_file_prepares_the_parent_and_copies() {
    let d = docker_devcontainer();
    let mut x = ScriptedExecutor::new(vec![ScriptReply::Path(PathKind::File)]);
    let r = d.copy(&mut x, &"/src/file".to_string(), &"/root/dir/file".to_string());
    assert_eq!(r, Ok(CopyOutcome::Copied));
    assert_eq!(
        ran(&x.events[1]).args,
        vec!["exec", "-u", "root", "-w", "/workspace", "devcon-app", "sh", "-c", "mkdir -p /root/dir"]
    );
    assert_eq!(
        ran(&x.events[2]).args,
        vec!["cp", "/src/file", "devcon-app:/root/dir/file"]
    );
}

#[test]
fn copy_of_a_directory_targets_the_parent() {
    let d = docker_devcontainer();
    let mut x = ScriptedExecutor::new(vec![ScriptReply::Path(PathKind::Dir)]);
    let r = d.copy(&mut x, &"/src/tree".to_string(), &"/root/dir/tree".to_string());
    assert_eq!(r, Ok(CopyOutcome::Copied));
    assert_eq!(
        ran(&x.events[2]).args,
        vec!["cp", "/src/tree", "devcon-app:/root/dir"]
    );
}

#[test]
fn dotfiles_are_resolved_and_checked_one_by_one() {
    let config = Config::new(
        "App".to_string(),
        Some(Build { dockerfile: Some("Dockerfile".to_string()), args: Vec::new() }),
        Vec::new(),
        None,
        None,
        None,
        "root".to_string(),
        Vec::new(),
        Vec::new(),
        None,
        None,
        "/workspace".to_string(),
        ShutdownAction::LeaveRunning,
    )
    .unwrap();
    let settings = Settings { dotfiles: vec!["vimrc".to_string()], provider: Provider::Docker };
    let d = Devcontainer::load("/proj".to_string(), config, settings, None);
    assert_eq!(d.dotfile_sources.len(), 1);
    let mut x = ScriptedExecutor::new(vec![reply_found(), reply_found()]);
    assert!(d.run(&mut x, true).is_ok());
    let mut checked = Vec::new();
    for e in &x.events {
        if let Event::PathChecked { path, .. } = e {
            checked.push(path.clone());
        }
    }
    assert_eq!(checked.len(), 2);
    assert_eq!(checked[0], d.gitconfig_source);
    assert_eq!(checked[1], d.dotfile_sources[0]);
    // the checks answered "missing", so nothing was copied
    for e in &x.events {
        if let Event::Ran { cmd, .. } = e {
            assert_ne!(cmd.args[0].as_str(), "cp");
        }
    }
}

#[test]
fn tilde_sources_are_expanded_at_load_time() {
    let d = docker_devcontainer();
    // the host resolves the home directory, so the recorded source no
    // longer carries the tilde
    assert_ne!(d.gitconfig_source, "~/.gitconfig");
    assert!(d.gitconfig_source.ends_with("/.gitconfig"));
}

#[test]
fn a_command_that_cannot_spawn_aborts_the_run() {
    let d = docker_devcontainer();
    let mut x = ScriptedExecutor::new(vec![ScriptReply::Run(Reply::NoSpawn)]);
    let r = d.run(&mut x, true);
    assert_eq!(r, Err(Error::ProviderCommandFailed));
    assert_eq!(x.events.len(), 1);
}

#[test]
fn a_failed_mandatory_build_aborts_before_create() {
    let d = docker_devcontainer();
    let mut x = ScriptedExecutor::new(vec![
        ScriptReply::Run(Reply::Done { success: true, output: String::new() }),
        ScriptReply::Run(Reply::Done { success: false, output: String::new() }),
    ]);
    let r = d.run(&mut x, true);
    assert_eq!(r, Err(Error::ProviderCommandFailed));
    assert_eq!(x.events.len(), 2);
    assert_eq!(head(&x.events[1]), "build");
}

#[test]
fn a_failed_restart_is_tolerated() {
    let d = docker_devcontainer();
    let mut x = ScriptedExecutor::new(vec![
        reply_found(),
        reply_found(),
        ScriptReply::Path(PathKind::Missing),
        ScriptReply::Run(Reply::Done { success: false, output: String::new() }),
    ]);
    // the restart reports failure, but the attach and the stop still run
    let r = d.run(&mut x, true);
    assert!(r.is_ok());
    assert_eq!(ran(&x.events[3]).args, vec!["restart", "devcon-app"]);
    assert_eq!(ran(&x.events[4]).args, vec!["attach", "devcon-app"]);
    assert_eq!(ran(&x.events[5]).args, vec!["stop", "devcon-app"]);
}
