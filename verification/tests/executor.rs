use zutils::script::Command;
use zutils::script::CommandOutcome;
use zutils::script::Context;
use zutils::script::ExecutionPlan;
use zutils::errors::UtilError;

fn ctx(really_execute: bool) -> Context {
    Context::from_parts(really_execute, "x86_64".to_string(), Vec::new())
}

#[test]
fn test_dry_run_is_synthetic_success() {
    let context = ctx(false);
    let args: Vec<&str> = vec!["status"];
    let command = Command::build("git", &args).unwrap();
    match command.plan(&context) {
        ExecutionPlan::DryRun(description) => assert_eq!(description, "git status"),
        ExecutionPlan::Spawn => panic!("a dry run must not spawn"),
    }
    let outcome = CommandOutcome::dry();
    assert!(outcome.success);
    assert_eq!(outcome.status_code, 0);
    assert_eq!(outcome.stdout, "");
    assert_eq!(outcome.stderr, "");
}

#[test]
fn test_real_run_spawns() {
    let context = ctx(true);
    let args: Vec<&str> = vec!["status"];
    let command = Command::build("git", &args).unwrap();
    assert!(matches!(command.plan(&context), ExecutionPlan::Spawn));
}

#[test]
fn test_outcome_success_tracks_exit_status() {
    let ok = CommandOutcome::from_raw(0, "out".to_string(), String::new());
    assert!(ok.success);
    let bad = CommandOutcome::from_raw(2, String::new(), "err".to_string());
    assert!(!bad.success);
    assert_eq!(bad.status_code, 2);
    assert_eq!(bad.stderr, "err");
}

#[test]
fn test_require_success_surfaces_failure() {
    let ok = CommandOutcome::from_raw(0, String::new(), String::new());
    assert!(ok.require_success().is_ok());
    let bad = CommandOutcome::from_raw(1, String::new(), String::new());
    assert_eq!(bad.require_success().err(), Some(UtilError::ExecutionFailure));
}

#[test]
fn test_as_root_prefixes_elevation() {
    let args: Vec<&str> = vec!["apt", "update"];
    let command = Command::as_root(&args).unwrap();
    assert!(command.mandatory);
    assert!(command.imperative);
    assert_eq!(command.cmd.program, "sudo");
    assert_eq!(command.cmd.args, vec!["apt".to_string(), "update".to_string()]);
}

#[test]
fn test_timeout_is_carried() {
    let args: Vec<&str> = vec!["10"];
    let mut command = Command::build("sleep", &args).unwrap();
    assert_eq!(command.timeout_ms, None);
    command.with_timeout(250);
    assert_eq!(command.timeout_ms, Some(250));
}

#[test]
fn test_tag_toggles() {
    let mut command = Command::new().unwrap();
    assert!(!command.mandatory);
    assert!(!command.imperative);
    command.mandatory().imperative();
    assert!(command.mandatory);
    assert!(command.imperative);
    command.optional().interrogative();
    assert!(!command.mandatory);
    assert!(!command.imperative);
}

#[test]
fn test_modify_context_rebuilds_path_then_vars() {
    let mut context = ctx(true);
    context.add_to_path("/opt/tool/bin");
    context.add_to_env("FOO", "bar");
    let args: Vec<&str> = vec!["status"];
    let mut command = Command::build("git", &args).unwrap();
    context.modify_context(command.builder(), "/usr/bin:/bin");
    assert_eq!(
        command.cmd.env,
        vec![
            ("PATH".to_string(), "/usr/bin:/bin:/opt/tool/bin".to_string()),
            ("FOO".to_string(), "bar".to_string()),
        ]
    );
}

#[test]
fn test_parse_os_params_splits_on_first_equals() {
    let lines: Vec<String> = vec![
        "NAME=Ubuntu".to_string(),
        "VERSION=\"22.04 LTS\"".to_string(),
        "garbage line".to_string(),
        "A=B=C".to_string(),
    ];
    let params = Context::parse_os_params(&lines);
    assert_eq!(
        params,
        vec![
            ("NAME".to_string(), "Ubuntu".to_string()),
            ("VERSION".to_string(), "\"22.04 LTS\"".to_string()),
            ("A".to_string(), "B=C".to_string()),
        ]
    );
}

#[test]
fn test_apt_install_command_shape() {
    let mut context = ctx(true);
    context.add_to_env("FOO", "bar");
    let pkgs: Vec<&str> = vec!["curl", "jq"];
    let command = context.apt_install_command(&pkgs, "/usr/bin");
    assert_eq!(command.cmd.program, "sudo");
    assert_eq!(
        command.cmd.args,
        vec![
            "apt".to_string(),
            "install".to_string(),
            "-q".to_string(),
            "-y".to_string(),
            "curl".to_string(),
            "jq".to_string(),
        ]
    );
    assert_eq!(
        command.cmd.env,
        vec![
            ("DEBIAN_FRONTEND".to_string(), "noninteractive".to_string()),
            ("PATH".to_string(), "/usr/bin".to_string()),
            ("FOO".to_string(), "bar".to_string()),
        ]
    );
}

#[test]
fn test_apt_remove_and_update_commands() {
    let context = ctx(true);
    let pkgs: Vec<&str> = vec!["nano"];
    let removal = context.apt_remove_command(&pkgs, "/usr/bin");
    assert_eq!(
        removal.cmd.args,
        vec![
            "apt".to_string(),
            "remove".to_string(),
            "-q".to_string(),
            "-y".to_string(),
            "nano".to_string(),
        ]
    );
    let update = context.apt_update_command("/usr/bin");
    assert_eq!(update.cmd.args, vec!["apt".to_string(), "update".to_string()]);
    let upgrade = context.apt_upgrade_command("/usr/bin");
    assert_eq!(
        upgrade.cmd.args,
        vec!["apt".to_string(), "dist-upgrade".to_string()]
    );
}

#[test]
fn test_shell_and_gcloud_commands() {
    let context = ctx(true);
    let shell = context.shell_command("echo hi", "/usr/bin");
    assert_eq!(shell.cmd.program, "bash");
    assert_eq!(shell.cmd.args, vec!["-c".to_string(), "echo hi".to_string()]);
    let copy = context.gcloud_copy_command("proj", "zone-a", "./src.txt", "host:/tmp");
    assert_eq!(copy.cmd.program, "gcloud");
    assert_eq!(
        copy.cmd.args,
        vec![
            "compute".to_string(),
            "scp".to_string(),
            "--project".to_string(),
            "proj".to_string(),
            "--zone".to_string(),
            "zone-a".to_string(),
            "--tunnel-through-iap".to_string(),
            "./src.txt".to_string(),
            "host:/tmp".to_string(),
        ]
    );
    let dearmor = Context::gpg_dearmor_command("/etc/apt/keyrings/k.gpg");
    assert_eq!(dearmor.cmd.program, "gpg");
    assert_eq!(
        dearmor.cmd.args,
        vec![
            "--dearmor".to_string(),
            "-o".to_string(),
            "/etc/apt/keyrings/k.gpg".to_string(),
        ]
    );
}

#[test]
fn test_describe_command_renders_program_and_args() {
    let args: Vec<&str> = vec!["-l", "-a"];
    let command = Command::build("ls", &args).unwrap();
    assert_eq!(command.cmd.describe_command(), "ls -l -a");
    let no_args: Vec<&str> = Vec::new();
    let bare = Command::build("true", &no_args).unwrap();
    assert_eq!(bare.cmd.describe_command(), "true");
}
