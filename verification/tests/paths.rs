use goalnet::config::ConfigPayload;
use goalnet::errors::Error;
use goalnet::paths::{
    is_absolute, join, parent_of, plan_module_path, plan_payload_paths, relative_dir,
    temp_filename,
};

#[test]
fn temp_filename_renders_the_timestamp() {
    assert_eq!(temp_filename(1234567890123), "goalnet-1234567890123");
    assert_eq!(temp_filename(0), "goalnet-0");
    assert_eq!(temp_filename(u64::MAX), format!("goalnet-{}", u64::MAX));
}

#[test]
fn absolute_paths_are_recognized() {
    assert!(is_absolute("/usr/lib"));
    assert!(is_absolute("\\\\server\\share"));
    assert!(is_absolute("C:\\games"));
    assert!(!is_absolute("payload/bin"));
    assert!(!is_absolute(""));
}

#[test]
fn parent_strips_the_last_component() {
    assert_eq!(parent_of("C:\\cfg\\app.toml"), "C:\\cfg");
    assert_eq!(parent_of("a/b/c"), "a/b");
    assert_eq!(parent_of("file.toml"), "");
}

#[test]
fn join_puts_one_separator() {
    assert_eq!(join("C:\\cfg", "payload"), "C:\\cfg/payload");
    assert_eq!(join("", "payload"), "payload");
    assert_eq!(join("base", "/abs"), "/abs");
}

#[test]
fn relative_dir_hangs_off_the_config_file() {
    assert_eq!(relative_dir("C:\\cfg\\app.toml", "payload"), "C:\\cfg/payload");
    assert_eq!(relative_dir("C:\\cfg\\app.toml", "D:\\payload"), "D:\\payload");
}

#[test]
fn module_plan_requires_a_configured_path() {
    let r = plan_module_path(&None, false, "C:\\cfg\\app.toml", "C:\\temp", 7);
    assert!(matches!(r, Err(Error::ConfigError)));
}

#[test]
fn module_plan_without_staging_uses_the_source() {
    let r = plan_module_path(
        &Some(String::from("goalnet.dll")),
        false,
        "C:\\cfg\\app.toml",
        "C:\\temp",
        7,
    )
    .unwrap();
    assert_eq!(r.source, "C:\\cfg/goalnet.dll");
    assert!(r.staged.is_none());
}

#[test]
fn module_plan_with_staging_names_the_scratch_copy() {
    let r = plan_module_path(
        &Some(String::from("goalnet.dll")),
        true,
        "C:\\cfg\\app.toml",
        "C:\\temp",
        1700000000000,
    )
    .unwrap();
    assert_eq!(r.source, "C:\\cfg/goalnet.dll");
    assert_eq!(r.staged.as_deref(), Some("C:\\temp/goalnet-1700000000000.dll"));
}

#[test]
fn payload_plan_resolves_every_location() {
    let payload = ConfigPayload {
        directory: String::from("managed"),
        dll: String::from("Payload.dll"),
        runtime_config: String::from("Payload.runtimeconfig.json"),
        copy_build_artifacts: false,
    };
    let plan = plan_payload_paths(&payload, "C:\\cfg\\app.toml", "C:\\temp", 9);
    assert_eq!(plan.directory, "C:\\cfg/managed");
    assert!(plan.staged.is_none());
    assert_eq!(plan.runtime_config, "C:\\cfg/managed/Payload.runtimeconfig.json");
    assert_eq!(plan.dll, "C:\\cfg/managed/Payload.dll");
}

#[test]
fn payload_plan_with_staging_reads_from_the_copy() {
    let payload = ConfigPayload {
        directory: String::from("managed"),
        dll: String::from("Payload.dll"),
        runtime_config: String::from("Payload.runtimeconfig.json"),
        copy_build_artifacts: true,
    };
    let plan = plan_payload_paths(&payload, "C:\\cfg\\app.toml", "C:\\temp", 42);
    assert_eq!(plan.directory, "C:\\cfg/managed");
    assert_eq!(plan.staged.as_deref(), Some("C:\\temp/goalnet-42"));
    assert_eq!(plan.runtime_config, "C:\\temp/goalnet-42/Payload.runtimeconfig.json");
    assert_eq!(plan.dll, "C:\\temp/goalnet-42/Payload.dll");
}

#[test]
fn error_messages_name_the_failing_step() {
    assert_eq!(
        Error::TargetDied.message(),
        "target process died while waiting for unload"
    );
    assert_eq!(Error::ConfigError.message(), "invalid configuration");
}
