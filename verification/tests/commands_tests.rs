use plugin_host::commands::PluginInfo;
use plugin_host::manifest::{EntryPoint, PluginManifest, WasmConfig};

#[test]
fn plugin_info_shows_identity_and_entry_points() {
    let manifest = PluginManifest {
        name: "audit".to_string(),
        version: "0.1.0".to_string(),
        description: "Audit log".to_string(),
        author: Some("me".to_string()),
        plugin_type: "service".to_string(),
        wasm_module: "plugin.wasm".to_string(),
        wasm_config: WasmConfig::default(),
        capabilities: vec!["db".to_string(), "clock".to_string()],
        entry_points: vec![
            EntryPoint {
                name: "create".to_string(),
                function: "create_audit_log".to_string(),
                description: "adds an entry".to_string(),
                input_format: "json".to_string(),
                output_format: "text".to_string(),
            },
            EntryPoint {
                name: "list".to_string(),
                function: "get_user_audit_logs".to_string(),
                description: "lists entries".to_string(),
                input_format: "json".to_string(),
                output_format: "json".to_string(),
            },
        ],
        dependencies: vec![],
    };
    let info = PluginInfo::from(manifest);
    assert_eq!(info.name, "audit");
    assert_eq!(info.version, "0.1.0");
    assert_eq!(info.description, "Audit log");
    assert_eq!(info.plugin_type, "service");
    assert_eq!(info.capabilities, vec!["db".to_string(), "clock".to_string()]);
    assert_eq!(info.entry_points.len(), 2);
    assert_eq!(info.entry_points[0].name, "create");
    assert_eq!(info.entry_points[0].description, "adds an entry");
    assert_eq!(info.entry_points[0].input_format, "json");
    assert_eq!(info.entry_points[0].output_format, "text");
    assert_eq!(info.entry_points[1].name, "list");
}
