use zutils::containers::inspect_running_command;
use zutils::containers::inspect_status_command;
use zutils::containers::kill_command;
use zutils::containers::rm_command;
use zutils::containers::status_indicates_running;
use zutils::containers::CleanupAdvisory;
use zutils::containers::ParsedImage;
use zutils::errors::UtilError;

#[test]
fn test_image_url_with_version() {
    let parsed = ParsedImage::from_url("registry.example.com/project/image:1.2").unwrap();
    assert_eq!(parsed.base_url, "registry.example.com/project/image");
    assert_eq!(parsed.version, "1.2");
}

#[test]
fn test_image_url_without_version_is_latest() {
    let parsed = ParsedImage::from_url("registry.example.com/image").unwrap();
    assert_eq!(parsed.base_url, "registry.example.com/image");
    assert_eq!(parsed.version, "latest");
}

#[test]
fn test_image_url_with_extra_colon_takes_middle() {
    let parsed = ParsedImage::from_url("reg/img:a:b").unwrap();
    assert_eq!(parsed.base_url, "reg/img");
    assert_eq!(parsed.version, "a");
}

#[test]
fn test_image_url_without_slash_is_rejected() {
    let r = ParsedImage::from_url("image");
    assert!(matches!(r, Err(UtilError::StructureMismatch)));
}

#[test]
fn test_status_running_needs_success_and_exact_string() {
    assert!(status_indicates_running(true, "running"));
    assert!(!status_indicates_running(true, "exited"));
    assert!(!status_indicates_running(true, "Running"));
    assert!(!status_indicates_running(false, "running"));
    assert!(!status_indicates_running(true, ""));
}

#[test]
fn test_cleanup_advisory_records_without_failing() {
    let partial = CleanupAdvisory::new(true, false);
    assert!(partial.kill_succeeded);
    assert!(!partial.remove_succeeded);
    assert!(!partial.fully_clean());
    assert!(CleanupAdvisory::new(true, true).fully_clean());
}

#[test]
fn test_runtime_command_shapes() {
    let c = inspect_running_command("unit1");
    assert_eq!(c.cmd.program, "docker");
    assert_eq!(
        c.cmd.args,
        vec![
            "inspect".to_string(),
            "-f".to_string(),
            "{{.State.Running}}".to_string(),
            "unit1".to_string(),
        ]
    );
    assert!(!c.mandatory);
    assert!(!c.imperative);

    let s = inspect_status_command("unit1");
    assert_eq!(
        s.cmd.args,
        vec![
            "container".to_string(),
            "inspect".to_string(),
            "-f".to_string(),
            "{{.State.Status}}".to_string(),
            "unit1".to_string(),
        ]
    );

    let k = kill_command("unit1");
    assert_eq!(k.cmd.args, vec!["kill".to_string(), "unit1".to_string()]);
    let r = rm_command("unit1");
    assert_eq!(r.cmd.args, vec!["rm".to_string(), "unit1".to_string()]);
}
