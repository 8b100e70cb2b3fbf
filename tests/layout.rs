use dotnet_bridge_host::host::has_nul;
use dotnet_bridge_host::layout::{
    assembly_path, join_path, payload_dir, runtime_config_path, ENTRY_METHOD, ENTRY_TYPE,
};

#[test]
fn join_inserts_one_separator() {
    assert_eq!(join_path("a", "b"), "a/b");
    assert_eq!(join_path("a/", "b"), "a/b");
    assert_eq!(join_path("C:\\app\\", "b"), "C:\\app\\b");
    assert_eq!(join_path("", "b"), "b");
}

#[test]
fn payload_dir_is_next_to_executable() {
    assert_eq!(payload_dir("/opt/app"), "/opt/app/dotnet");
}

#[test]
fn runtime_config_path_is_fixed_by_convention() {
    assert_eq!(
        runtime_config_path("/opt/app"),
        "/opt/app/dotnet/TauriDotNetBridge.runtimeconfig.json"
    );
    assert_eq!(
        runtime_config_path("/opt/app/"),
        "/opt/app/dotnet/TauriDotNetBridge.runtimeconfig.json"
    );
}

#[test]
fn assembly_path_shares_the_base_name() {
    assert_eq!(assembly_path("/opt/app"), "/opt/app/dotnet/TauriDotNetBridge.dll");
    assert_eq!(assembly_path(""), "dotnet/TauriDotNetBridge.dll");
}

#[test]
fn entry_point_names() {
    assert_eq!(ENTRY_TYPE, "TauriDotNetBridge.Bridge, TauriDotNetBridge");
    assert_eq!(ENTRY_METHOD, "ProcessRequest");
}

#[test]
fn nul_is_detected_in_paths() {
    assert!(has_nul("/opt/a\0pp"));
    assert!(!has_nul("/opt/app"));
    assert!(!has_nul(""));
    assert!(!has_nul("/opt/\u{e9}"));
}
