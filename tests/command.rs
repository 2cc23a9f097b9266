use cli_supervisor::{
    build_shell_args, build_shell_command_string, default_shell, first_existing, resolve_config_path, listening_mode_from,
    normalize_path, plan_command, resolve_listening_host, resolve_listening_mode,
    shell_args_for_name, shell_escape, supports_user_shell, CliEntry, LaunchError, Runner,
    ShellCommandType, config_path_from_setting, shell_from_setting, stop_poll_step, StopAction,
    WaitStatus,
};

fn strings(v: &[&str]) -> Vec<String> {
    v.iter().map(|s| s.to_string()).collect()
}

fn node_entry(entry: &str) -> CliEntry {
    CliEntry {
        entry: entry.to_string(),
        runner: Runner::Node,
        runner_path: None,
        node_binary: "node".to_string(),
    }
}

#[test]
fn escape_empty_token() {
    assert_eq!(shell_escape(""), "''");
}

#[test]
fn escape_plain_token_unchanged() {
    assert_eq!(shell_escape("/usr/bin/node"), "/usr/bin/node");
}

#[test]
fn escape_quote_space_and_dollar() {
    assert_eq!(shell_escape("it's a $test"), "'it'\\''s a $test'");
    assert_eq!(shell_escape("a b"), "'a b'");
    assert_eq!(shell_escape("say \"hi\"!"), "'say \"hi\"!'");
}

#[test]
fn escape_other_shell_characters() {
    assert_eq!(shell_escape("a;b"), "'a;b'");
    assert_eq!(shell_escape("a\tb"), "'a\tb'");
    assert_eq!(shell_escape("a|b&c"), "'a|b&c'");
    assert_eq!(shell_escape("~/x"), "'~/x'");
    assert_eq!(shell_escape("a\\b"), "'a\\b'");
    assert_eq!(shell_escape("/opt/node-v20.1/bin/node"), "/opt/node-v20.1/bin/node");
    assert_eq!(shell_escape("http://localhost:3000"), "http://localhost:3000");
}

#[test]
fn shell_line_quotes_injection_attempts() {
    let mut e = node_entry("/srv/bin.js;rm -rf x");
    e.node_binary = "node|x".to_string();
    let c = build_shell_command_string(&e, &strings(&["serve"]), "/bin/sh".to_string());
    assert_eq!(
        c.args,
        strings(&["-l", "-c", "ELECTRON_RUN_AS_NODE=1 exec 'node|x' '/srv/bin.js;rm -rf x' serve"])
    );
}

#[test]
fn shell_from_given_trimmed_value() {
    assert_eq!(shell_from_setting(Some("/bin/fish "), "/bin/fish", false), "/bin/fish ");
    assert_eq!(shell_from_setting(Some("  "), "", true), "/bin/zsh");
    assert_eq!(shell_from_setting(None, "", false), "/bin/bash");
}

#[test]
fn config_path_from_given_trimmed_value() {
    assert_eq!(config_path_from_setting(Some("/etc/c.json"), "/etc/c.json", None), "/etc/c.json");
    assert_eq!(config_path_from_setting(Some(" "), "", Some("/h")), "/h/.config/codenomad/config.json");
    assert_eq!(config_path_from_setting(None, "", None), "~/.config/codenomad/config.json");
}

#[test]
fn stop_polls_then_forces() {
    assert_eq!(stop_poll_step(WaitStatus::Exited, 10), StopAction::Finished);
    assert_eq!(stop_poll_step(WaitStatus::Unknown, 10), StopAction::Finished);
    assert_eq!(stop_poll_step(WaitStatus::Running, 0), StopAction::Wait { ms: 50 });
    assert_eq!(stop_poll_step(WaitStatus::Running, 4000), StopAction::Wait { ms: 50 });
    assert_eq!(stop_poll_step(WaitStatus::Running, 4001), StopAction::ForceKill);
}

#[test]
fn build_args_plain() {
    let e = node_entry("/srv/bin.js");
    assert_eq!(e.build_args(false, "127.0.0.1"), strings(&["serve", "--host", "127.0.0.1", "--port", "0"]));
}

#[test]
fn build_args_development() {
    let e = node_entry("/srv/bin.js");
    assert_eq!(
        e.build_args(true, "0.0.0.0"),
        strings(&[
            "serve",
            "--host",
            "0.0.0.0",
            "--port",
            "0",
            "--ui-dev-server",
            "http://localhost:3000",
            "--log-level",
            "debug"
        ])
    );
}

#[test]
fn runner_args_with_transpiler() {
    let e = CliEntry {
        entry: "src/index.ts".to_string(),
        runner: Runner::Tsx,
        runner_path: Some("tsx/cli.js".to_string()),
        node_binary: "node".to_string(),
    };
    assert_eq!(e.runner_args(&strings(&["serve"])), strings(&["tsx/cli.js", "src/index.ts", "serve"]));
    let n = node_entry("dist/bin.js");
    assert_eq!(n.runner_args(&strings(&["serve"])), strings(&["dist/bin.js", "serve"]));
}

#[test]
fn shell_command_for_bash() {
    let e = node_entry("/my apps/bin.js");
    let c = build_shell_command_string(&e, &strings(&["serve", "--port", "0"]), "/bin/bash".to_string());
    assert_eq!(c.shell, "/bin/bash");
    assert_eq!(
        c.args,
        strings(&["-l", "-c", "ELECTRON_RUN_AS_NODE=1 exec node '/my apps/bin.js' serve --port 0"])
    );
}

#[test]
fn shell_command_for_zsh_is_interactive() {
    let e = node_entry("bin.js");
    let c = build_shell_command_string(&e, &strings(&["serve"]), "/usr/local/bin/ZSH".to_string());
    assert_eq!(c.args, strings(&["-l", "-i", "-c", "ELECTRON_RUN_AS_NODE=1 exec node bin.js serve"]));
}

#[test]
fn shell_args_by_name() {
    assert_eq!(build_shell_args("/bin/zsh", "x"), strings(&["-l", "-i", "-c", "x"]));
    assert_eq!(build_shell_args("/bin/sh", "x"), strings(&["-l", "-c", "x"]));
    assert_eq!(shell_args_for_name("zsh-5.9", "y"), strings(&["-l", "-i", "-c", "y"]));
    assert_eq!(shell_args_for_name("fish", "y"), strings(&["-l", "-c", "y"]));
}

#[test]
fn plan_direct_and_shell() {
    let e = node_entry("bin.js");
    match plan_command(&e, &strings(&["serve"]), false, "/bin/bash".to_string()) {
        ShellCommandType::Direct(c) => {
            assert_eq!(c.program, "node");
            assert_eq!(c.args, strings(&["bin.js", "serve"]));
        }
        ShellCommandType::UserShell(_) => panic!("expected a direct command"),
    }
    match plan_command(&e, &strings(&["serve"]), true, "/bin/bash".to_string()) {
        ShellCommandType::UserShell(c) => assert_eq!(c.shell, "/bin/bash"),
        ShellCommandType::Direct(_) => panic!("expected a shell command"),
    }
}

#[test]
fn user_shell_on_unix_only() {
    assert!(supports_user_shell("unix"));
    assert!(!supports_user_shell("windows"));
}

#[test]
fn resolve_prefers_development_sources() {
    let r = CliEntry::resolve(
        true,
        "node".to_string(),
        Some("tsx.js".to_string()),
        Some("index.ts".to_string()),
        Some("bin.js".to_string()),
    )
    .unwrap();
    assert_eq!(r.runner, Runner::Tsx);
    assert_eq!(r.entry, "index.ts");
    assert_eq!(r.runner_path.as_deref(), Some("tsx.js"));
}

#[test]
fn resolve_falls_back_to_build() {
    let r = CliEntry::resolve(true, "node".to_string(), None, Some("index.ts".to_string()), Some("bin.js".to_string()))
        .unwrap();
    assert_eq!(r.runner, Runner::Node);
    assert_eq!(r.entry, "bin.js");
    assert!(r.runner_path.is_none());
    let r = CliEntry::resolve(false, "node".to_string(), Some("t".to_string()), Some("i".to_string()), Some("b".to_string()))
        .unwrap();
    assert_eq!(r.entry, "b");
}

#[test]
fn resolve_without_entry_fails() {
    let r = CliEntry::resolve(false, "node".to_string(), None, None, None);
    assert!(matches!(r, Err(LaunchError::EntryNotFound)));
    assert_eq!(
        LaunchError::EntryNotFound.message(),
        "Unable to locate CodeNomad CLI build (dist/bin.js). Please build @neuralnomads/codenomad."
    );
    assert_eq!(
        LaunchError::RuntimeNotFound.message(),
        "Node binary not found. Make sure Node.js is installed."
    );
}

#[test]
fn listening_mode_from_config() {
    assert_eq!(resolve_listening_mode(Some("{\"preferences\":{\"listeningMode\":\"all\"}}")), "all");
    assert_eq!(resolve_listening_mode(Some("{\"preferences\":{\"listeningMode\":\"local\"}}")), "local");
    assert_eq!(resolve_listening_mode(Some("{\"preferences\":{\"listeningMode\":\"other\"}}")), "local");
    assert_eq!(resolve_listening_mode(Some("not json")), "local");
    assert_eq!(resolve_listening_mode(None), "local");
    assert_eq!(listening_mode_from(&Some("all".to_string())), "all");
    assert_eq!(listening_mode_from(&None), "local");
}

#[test]
fn listening_host_of_mode() {
    assert_eq!(resolve_listening_host("local"), "127.0.0.1");
    assert_eq!(resolve_listening_host("all"), "0.0.0.0");
}

#[test]
fn first_existing_candidate() {
    let paths = vec![None, Some("a".to_string()), Some("b".to_string()), Some("c".to_string())];
    assert_eq!(first_existing(&paths, &vec![true, false, true, true]), Some(2));
    assert_eq!(first_existing(&paths, &vec![true, false, false, false]), None);
    assert_eq!(first_existing(&Vec::new(), &Vec::new()), None);
}

#[test]
fn normalize_prefers_canonical() {
    assert_eq!(normalize_path("a/../b".to_string(), Some("/b".to_string())), "/b");
    assert_eq!(normalize_path("a/../b".to_string(), None), "a/../b");
}

#[test]
fn shell_from_environment_or_platform() {
    assert_eq!(default_shell(Some("/usr/bin/fish"), false), "/usr/bin/fish");
    assert_eq!(default_shell(Some("   "), false), "/bin/bash");
    assert_eq!(default_shell(None, true), "/bin/zsh");
    assert_eq!(default_shell(Some(""), true), "/bin/zsh");
}

#[test]
fn config_path_override_or_default() {
    assert_eq!(resolve_config_path(Some("/etc/cn.json"), Some("/home/me")), "/etc/cn.json");
    assert_eq!(resolve_config_path(Some(" \t"), Some("/home/me")), "/home/me/.config/codenomad/config.json");
    assert_eq!(resolve_config_path(None, None), "~/.config/codenomad/config.json");
    assert_eq!(resolve_config_path(Some("~/cn.json"), Some("/h")), "/h/cn.json");
}
