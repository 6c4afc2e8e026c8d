//! Sandboxed sessions.

use acp_client::errors::AcpError;
use acp_client::session_sandbox::{
    agent_request_cwd, build_sandbox_docker_argv, AgentSpec, EnvEntry, SandboxHost, SandboxInfo,
    SessionSandbox, SpawnConfig, VolumePath, VolumePaths,
};
use std::path::PathBuf;

fn info(container_name: &str, container_workdir: Option<&str>) -> SandboxInfo {
    SandboxInfo {
        enabled: true,
        container_id: None,
        image: "alpine:latest".to_string(),
        container_name: container_name.to_string(),
        extra_env: None,
        custom_instruction: None,
        before_start_env: Vec::new(),
        container_workdir: container_workdir.map(str::to_string),
    }
}

fn pairs(items: &[(&str, &str)]) -> Vec<(String, String)> {
    items.iter().map(|(k, v)| (k.to_string(), v.to_string())).collect()
}

fn keys(items: &[&str]) -> Vec<String> {
    items.iter().map(|k| k.to_string()).collect()
}

fn host(env_entries: Vec<EnvEntry>, allowlisted_env: Vec<(String, String)>) -> SandboxHost {
    SandboxHost {
        docker_binary: "docker".to_string(),
        env_entries,
        artifact_dir: ("AOE_ARTIFACT_DIR".to_string(), "/aoe/artifacts".to_string()),
        allowlisted_env,
        denied_keys: keys(&["LD_PRELOAD", "PATH"]),
        host_only_keys: keys(&[
            "CLAUDE_CONFIG_DIR",
            "CODEX_HOME",
            "GOOGLE_APPLICATION_CREDENTIALS",
            "AWS_CONFIG_FILE",
            "AWS_SHARED_CREDENTIALS_FILE",
            "AWS_WEB_IDENTITY_TOKEN_FILE",
            "AWS_CONTAINER_AUTHORIZATION_TOKEN_FILE",
        ]),
    }
}

fn config(command: &str, args: &[&str], provider_env: Vec<(String, String)>) -> SpawnConfig {
    SpawnConfig {
        spec: AgentSpec { command: command.to_string(), args: keys(args) },
        provider_env,
    }
}

#[test]
fn from_info_prefers_pinned_workdir_over_live_recompute() {
    let worktree = PathBuf::from("/tmp/repo-worktrees/feature");
    let sandbox = info("aoe-sandbox-pinned1", Some("/workspace/repo-worktrees/feature"));
    // Computed anew, the working directory would be one that was never mounted.
    let computed = VolumePaths { volumes: vec![], workdir: "/workspace/feature".to_string() };
    let (resources, _map) =
        SessionSandbox::from_info(&sandbox, &worktree, None, Ok(computed), None).unwrap();
    assert_eq!(
        resources.container_workdir,
        PathBuf::from("/workspace/repo-worktrees/feature"),
    );
}

#[test]
fn agent_request_cwd_prefers_container_workdir_when_sandboxed() {
    let host = PathBuf::from(
        "/Users/nbrake/scm/agent-of-empires/../agent-of-empires-worktrees/bohemians",
    );
    let container = PathBuf::from("/workspace/bohemians");

    assert_eq!(
        agent_request_cwd(Some(&container), &host),
        container,
        "sandboxed request must use the container workdir"
    );
    assert_eq!(
        agent_request_cwd(None, &host),
        host,
        "non-sandbox request must use the host cwd unchanged"
    );
}

#[test]
fn build_sandbox_docker_argv_wraps_agent_in_docker_exec() {
    let sandbox = info("aoe-sandbox-abc12345", None);
    let host = host(
        vec![EnvEntry::Literal { key: "MY_LITERAL".to_string(), value: "hello".to_string() }],
        vec![],
    );
    let argv = build_sandbox_docker_argv(
        &config("agent-acp", &["--stdio"], vec![]),
        &sandbox,
        "/workspace/proj",
        &host,
    )
    .expect("docker argv built");
    assert!(
        argv.docker_binary == "docker" || argv.docker_binary == "podman",
        "expected docker/podman binary, got {:?}",
        argv.docker_binary
    );
    assert_eq!(argv.docker_args[0], "exec");
    assert_eq!(argv.docker_args[1], "-i");
    assert_eq!(argv.docker_args[2], "-w");
    assert_eq!(argv.docker_args[3], "/workspace/proj");
    let cn_idx = argv
        .docker_args
        .iter()
        .position(|a| a == "aoe-sandbox-abc12345")
        .expect("container name in argv");
    let cmd_idx = cn_idx + 1;
    assert_eq!(argv.docker_args[cmd_idx], "agent-acp");
    assert_eq!(argv.docker_args[cmd_idx + 1], "--stdio");
    assert!(
        argv.docker_args.iter().any(|a| a == "MY_LITERAL=hello"),
        "literal env entry must be propagated as `-e KEY=VALUE`"
    );
    assert!(
        !argv.inherit_env.iter().any(|(k, _)| k == "MY_LITERAL"),
        "literal entries must not duplicate into inherit_env"
    );
}

#[test]
fn build_sandbox_docker_argv_inherit_env_shape() {
    let sandbox = info("aoe-sandbox-abc12345", None);
    let argv = build_sandbox_docker_argv(
        &config("agent-acp", &[], pairs(&[("ANTHROPIC_API_KEY", "sk-test-value")])),
        &sandbox,
        "/workspace/proj",
        &host(vec![], vec![]),
    )
    .expect("docker argv built");
    let key_flag_idx = argv
        .docker_args
        .windows(2)
        .position(|w| w[0] == "-e" && w[1] == "ANTHROPIC_API_KEY")
        .expect("ANTHROPIC_API_KEY -e flag must be present");
    assert!(
        !argv.docker_args.iter().any(|a| a.starts_with("ANTHROPIC_API_KEY=")),
        "secret must not appear as `KEY=VALUE` in argv (slot {key_flag_idx})"
    );
    assert_eq!(
        argv.inherit_env
            .iter()
            .find(|(k, _)| k == "ANTHROPIC_API_KEY")
            .map(|(_, v)| v.as_str()),
        Some("sk-test-value"),
    );
}

#[test]
fn build_sandbox_docker_argv_drops_host_only_path_env() {
    let allowlisted = pairs(&[
        ("CLAUDE_CONFIG_DIR", "/Users/operator/.agent"),
        ("CODEX_HOME", "/Users/operator/.codex"),
        ("GOOGLE_APPLICATION_CREDENTIALS", "/Users/operator/gcp-key.json"),
        ("AWS_CONFIG_FILE", "/Users/operator/.aws/config"),
        ("AWS_SHARED_CREDENTIALS_FILE", "/Users/operator/.aws/credentials"),
        ("AWS_WEB_IDENTITY_TOKEN_FILE", "/Users/operator/.aws/token"),
        (
            "AWS_CONTAINER_AUTHORIZATION_TOKEN_FILE",
            "/Users/operator/.aws/container-token",
        ),
        ("OPENAI_API_KEY", "sk-test-value"),
    ]);
    let argv = build_sandbox_docker_argv(
        &config("codex-acp", &[], vec![]),
        &info("aoe-sandbox-cfgdir", None),
        "/workspace/proj",
        &host(vec![], allowlisted),
    )
    .expect("docker argv built");

    for key in [
        "CLAUDE_CONFIG_DIR",
        "CODEX_HOME",
        "GOOGLE_APPLICATION_CREDENTIALS",
        "AWS_CONFIG_FILE",
        "AWS_SHARED_CREDENTIALS_FILE",
        "AWS_WEB_IDENTITY_TOKEN_FILE",
        "AWS_CONTAINER_AUTHORIZATION_TOKEN_FILE",
    ] {
        assert!(
            !argv.docker_args.iter().any(|a| a == key),
            "{key} is a host path and must not be forwarded as `-e KEY`"
        );
        assert!(
            !argv.docker_args.iter().any(|a| a.starts_with(&format!("{key}="))),
            "{key} must not appear as a literal `KEY=VALUE` either"
        );
        assert!(
            !argv.inherit_env.iter().any(|(k, _)| k == key),
            "{key} must not land in inherit_env"
        );
    }
    assert_eq!(
        argv.inherit_env
            .iter()
            .find(|(k, _)| k == "OPENAI_API_KEY")
            .map(|(_, v)| v.as_str()),
        Some("sk-test-value"),
        "the value-typed allowlist entry must still cross the boundary"
    );
}

#[test]
fn build_sandbox_docker_argv_forwards_env_allowlist() {
    // The host drops denied keys from what it lists.
    let allowlisted = pairs(&[("OPENAI_API_KEY", "sk-openai")]);
    let argv = build_sandbox_docker_argv(
        &config("codex-acp", &[], pairs(&[("LD_PRELOAD", "/tmp/evil.so")])),
        &info("aoe-sandbox-allowlist", None),
        "/workspace/proj",
        &host(vec![], allowlisted),
    )
    .expect("docker argv built");

    assert!(
        argv.docker_args.windows(2).any(|w| w[0] == "-e" && w[1] == "OPENAI_API_KEY"),
        "allowlisted OPENAI_API_KEY must be named with `-e KEY`, got {:?}",
        argv.docker_args
    );
    assert_eq!(
        argv.inherit_env
            .iter()
            .find(|(k, _)| k == "OPENAI_API_KEY")
            .map(|(_, v)| v.as_str()),
        Some("sk-openai"),
        "the value must ride inherit_env so it stays out of argv"
    );
    assert!(
        !argv.docker_args.iter().any(|a| a.starts_with("OPENAI_API_KEY=")),
        "secret must not appear as `KEY=VALUE` in argv"
    );
    assert!(
        !argv.docker_args.iter().any(|a| a == "LD_PRELOAD")
            && !argv.inherit_env.iter().any(|(k, _)| k == "LD_PRELOAD"),
        "a denied linker hook must not cross the boundary, got {:?}",
        argv.docker_args
    );
    assert!(
        !argv.docker_args.iter().any(|a| a == "ANTHROPIC_API_KEY")
            && !argv.inherit_env.iter().any(|(k, _)| k == "ANTHROPIC_API_KEY"),
        "a credential outside this adapter's allowlist must not cross the boundary"
    );
}

#[test]
fn build_sandbox_docker_argv_provider_env_beats_ambient_host_key() {
    let argv = build_sandbox_docker_argv(
        &config("agent-acp", &[], pairs(&[("ANTHROPIC_API_KEY", "sk-session-request")])),
        &info("aoe-sandbox-precedence", None),
        "/workspace/proj",
        &host(vec![], pairs(&[("ANTHROPIC_API_KEY", "sk-host-ambient")])),
    )
    .expect("docker argv built");

    let values: Vec<&str> = argv
        .inherit_env
        .iter()
        .filter(|(k, _)| k == "ANTHROPIC_API_KEY")
        .map(|(_, v)| v.as_str())
        .collect();
    assert_eq!(
        values,
        vec!["sk-session-request"],
        "the request credential must win and be forwarded exactly once, got {:?}",
        argv.inherit_env
    );
}

#[test]
fn the_whole_command_line_has_a_fixed_order() {
    let entries = vec![
        EnvEntry::Literal { key: "A".to_string(), value: "1".to_string() },
        EnvEntry::Inherit { key: "B".to_string(), value: "2".to_string() },
    ];
    let argv = build_sandbox_docker_argv(
        &config("agent", &["-x"], pairs(&[("A", "9"), ("C", "3")])),
        &info("box", None),
        "/w",
        &host(entries, pairs(&[("C", "8"), ("D", "4")])),
    )
    .unwrap();
    assert_eq!(
        argv.docker_args,
        keys(&[
            "exec", "-i", "-w", "/w", "-e", "A=1", "-e", "B", "-e",
            "AOE_ARTIFACT_DIR=/aoe/artifacts", "-e", "C", "-e", "D", "box", "agent", "-x",
        ])
    );
    assert_eq!(argv.inherit_env, pairs(&[("B", "2"), ("C", "3"), ("D", "4")]));
}

#[test]
fn a_sandbox_without_a_stored_workdir_takes_the_live_one() {
    let project = PathBuf::from("/home/me/proj");
    let sandbox = info("box", None);
    let computed = || VolumePaths {
        volumes: vec![VolumePath {
            host_path: "/home/me/proj".to_string(),
            container_path: "/workspace/proj".to_string(),
        }],
        workdir: "/workspace/proj".to_string(),
    };
    let (live, map) = SessionSandbox::from_info(
        &sandbox,
        &project,
        None,
        Ok(computed()),
        Some("/workspace/live".to_string()),
    )
    .unwrap();
    assert_eq!(live.container_workdir, PathBuf::from("/workspace/live"));
    assert_eq!(
        map.mounts,
        vec![(PathBuf::from("/workspace/proj"), PathBuf::from("/home/me/proj"))]
    );
    let (fallback, _) =
        SessionSandbox::from_info(&sandbox, &project, None, Ok(computed()), None).unwrap();
    assert_eq!(fallback.container_workdir, PathBuf::from("/workspace/proj"));
}

#[test]
fn a_sandbox_that_cannot_be_computed_fails_the_spawn() {
    let error = SessionSandbox::from_info(
        &info("box", Some("/w")),
        &PathBuf::from("/p"),
        None,
        Err("no such path".to_string()),
        None,
    )
    .unwrap_err();
    assert_eq!(
        error,
        AcpError::Spawn("compute container workdir: no such path".to_string())
    );
}

#[test]
fn the_environment_is_collected_under_the_profile_of_the_session() {
    let project = PathBuf::from("/p");
    let computed = || VolumePaths { volumes: vec![], workdir: "/w".to_string() };
    let (named, _) = SessionSandbox::from_info(
        &info("box", None),
        &project,
        Some("work".to_string()),
        Ok(computed()),
        None,
    )
    .unwrap();
    let (unnamed, _) =
        SessionSandbox::from_info(&info("box", None), &project, None, Ok(computed()), None)
            .unwrap();
    let collect = |profile: &str, path: &PathBuf, sandbox: &SandboxInfo| {
        vec![EnvEntry::Literal {
            key: profile.to_string(),
            value: format!("{}:{}", path.display(), sandbox.container_name),
        }]
    };
    assert_eq!(
        named.current_env_entries(collect),
        vec![EnvEntry::Literal { key: "work".to_string(), value: "/p:box".to_string() }]
    );
    assert_eq!(
        unnamed.current_env_entries(collect),
        vec![EnvEntry::Literal { key: String::new(), value: "/p:box".to_string() }]
    );
}
