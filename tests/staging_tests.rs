use cef_sys::{
    binding_allow_list, bulk_copy_report, cef_binary_dir_name, cef_binary_file_names, cef_dir,
    cef_resources_dir_name, copy_action, copy_file_to_target, join_path, staging_plan,
    staging_target_dir, BuildError, CopyAction,
};

#[test]
fn release_profile_uses_release_directory() {
    assert_eq!(cef_binary_dir_name("release"), "Release");
}

#[test]
fn other_profiles_use_debug_directory() {
    assert_eq!(cef_binary_dir_name("debug"), "Debug");
    assert_eq!(cef_binary_dir_name("test"), "Debug");
    assert_eq!(cef_binary_dir_name("Release"), "Debug");
    assert_eq!(cef_binary_dir_name(""), "Debug");
}

#[test]
fn resources_directory_name() {
    assert_eq!(cef_resources_dir_name(), "Resources");
}

#[test]
fn joining_paths() {
    assert_eq!(join_path("/opt/cef", "Release"), "/opt/cef/Release");
    assert_eq!(join_path("/opt/cef/", "Release"), "/opt/cef/Release");
    assert_eq!(join_path("", "Release"), "Release");
}

#[test]
fn distribution_root_comes_from_its_variable() {
    assert_eq!(cef_dir(Some("/opt/cef".to_string())).unwrap(), "/opt/cef");
    match cef_dir(None) {
        Err(BuildError::MissingVariable(name)) => assert_eq!(name, "CEF_DIR"),
        other => panic!("unexpected {:?}", other),
    }
}

#[test]
fn existing_file_is_left_untouched() {
    assert_eq!(copy_action(true), CopyAction::Skip);
    assert_eq!(copy_action(false), CopyAction::Copy);
}

#[test]
fn single_file_copy_keeps_its_name() {
    let job = copy_file_to_target("libcef.dll", "/opt/cef/Release", "/p/target/release");
    assert_eq!(job.src, "/opt/cef/Release/libcef.dll");
    assert_eq!(job.dest, "/p/target/release/libcef.dll");
}

#[test]
fn target_directory_of_a_build() {
    assert_eq!(staging_target_dir("/home/me/app", "debug"), "/home/me/app/target/debug");
}

#[test]
fn fixed_file_list() {
    assert_eq!(
        cef_binary_file_names(),
        vec![
            "libcef.dll", "chrome_elf.dll", "d3dcompiler_47.dll", "libEGL.dll", "libGLESv2.dll",
            "natives_blob.bin", "snapshot_blob.bin", "v8_context_snapshot.bin",
        ]
    );
}

#[test]
fn staging_plan_into_target() {
    let plan = staging_plan("/opt/cef", "release", "/p/target/release");
    let names = cef_binary_file_names();
    assert_eq!(plan.binary_copies.len(), 8);
    for (job, name) in plan.binary_copies.iter().zip(names.iter()) {
        assert_eq!(job.src, format!("/opt/cef/Release/{}", name));
        assert_eq!(job.dest, format!("/p/target/release/{}", name));
    }
    assert_eq!(plan.resources_dir, "/opt/cef/Resources");
    assert_eq!(plan.locales_dir, "/opt/cef/Resources/locales");
    assert_eq!(plan.target_dir, "/p/target/release");
}

#[test]
fn staging_plan_for_debug_profile() {
    let plan = staging_plan("/opt/cef", "test", "out");
    assert_eq!(plan.binary_copies[7].src, "/opt/cef/Debug/v8_context_snapshot.bin");
    assert_eq!(plan.binary_copies[7].dest, "out/v8_context_snapshot.bin");
}

#[test]
fn failed_bulk_copy_is_logged() {
    assert_eq!(bulk_copy_report(None), "Succeeded");
    assert_eq!(bulk_copy_report(Some("Path does not exist")), "Not copying: Path does not exist");
}

#[test]
fn allow_list_names_the_surfaced_functions() {
    let list = binding_allow_list();
    assert_eq!(list.len(), 20);
    assert_eq!(list[0], "cef_execute_process");
    assert_eq!(list[19], "cef_v8value_create_function");
    assert!(list.iter().any(|n| n == "cef_do_message_loop_work"));
}
