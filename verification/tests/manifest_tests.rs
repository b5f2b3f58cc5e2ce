use plugin_host::manifest::{
    join, EntryPoint, EntryPointParts, ManifestError, ManifestField, ManifestParts, PluginManifest,
    WasmConfig, WasmConfigParts,
};

fn manifest(name: &str, version: &str, module: &str) -> PluginManifest {
    PluginManifest {
        name: name.to_string(),
        version: version.to_string(),
        description: String::new(),
        author: None,
        plugin_type: "service".to_string(),
        wasm_module: module.to_string(),
        wasm_config: WasmConfig::default(),
        capabilities: vec![],
        entry_points: vec![EntryPoint {
            name: "create_audit_log".to_string(),
            function: "create_audit_log".to_string(),
            description: String::new(),
            input_format: String::new(),
            output_format: String::new(),
        }],
        dependencies: vec![],
    }
}

#[test]
fn validate_accepts_filled_manifest() {
    assert!(manifest("audit", "0.1.0", "plugin.wasm").validate().is_ok());
}

#[test]
fn validate_names_first_empty_field() {
    assert!(matches!(
        manifest("", "", "").validate(),
        Err(ManifestError::EmptyField(ManifestField::Name))
    ));
    assert!(matches!(
        manifest("a", "", "").validate(),
        Err(ManifestError::EmptyField(ManifestField::Version))
    ));
    assert!(matches!(
        manifest("a", "1", "").validate(),
        Err(ManifestError::EmptyField(ManifestField::ModuleLocation))
    ));
}

#[test]
fn wasm_path_joins_directory_and_module() {
    let m = manifest("audit", "0.1.0", "plugin.wasm");
    assert_eq!(m.wasm_path("/plugins/audit"), "/plugins/audit/plugin.wasm");
    assert_eq!(m.wasm_path("/plugins/audit/"), "/plugins/audit/plugin.wasm");
    assert_eq!(m.wasm_path(""), "plugin.wasm");
    let abs = manifest("audit", "0.1.0", "/opt/m.wasm");
    assert_eq!(abs.wasm_path("/plugins/audit"), "/opt/m.wasm");
}

#[test]
fn manifest_is_copied_whole() {
    let mut m = manifest("audit", "0.1.0", "plugin.wasm");
    m.author = Some("me".to_string());
    m.wasm_config = WasmConfig {
        allowed_hosts: vec!["example.com".to_string()],
        allowed_paths: vec![("/data".to_string(), "/tmp".to_string())],
        config: vec![("k".to_string(), "v".to_string())],
        memory_max_pages: Some(4),
    };
    m.capabilities = vec!["db".to_string()];
    m.dependencies = vec![("base".to_string(), "^1".to_string())];
    let c = m.clone();
    assert_eq!(c.name, m.name);
    assert_eq!(c.version, m.version);
    assert_eq!(c.author, m.author);
    assert_eq!(c.wasm_module, m.wasm_module);
    assert_eq!(c.wasm_config.allowed_hosts, m.wasm_config.allowed_hosts);
    assert_eq!(c.wasm_config.allowed_paths, m.wasm_config.allowed_paths);
    assert_eq!(c.wasm_config.config, m.wasm_config.config);
    assert_eq!(c.wasm_config.memory_max_pages, Some(4));
    assert_eq!(c.capabilities, m.capabilities);
    assert_eq!(c.dependencies, m.dependencies);
    assert_eq!(c.entry_points.len(), 1);
    assert_eq!(c.entry_points[0].function, "create_audit_log");
}

#[test]
fn default_policy_grants_nothing() {
    let c = WasmConfig::default();
    assert!(c.allowed_hosts.is_empty());
    assert!(c.allowed_paths.is_empty());
    assert!(c.config.is_empty());
    assert_eq!(c.memory_max_pages, None);
}

#[test]
fn manifest_errors_in_words() {
    assert_eq!(
        ManifestError::EmptyField(ManifestField::Name).message(),
        "Plugin name cannot be empty"
    );
    assert_eq!(
        ManifestError::EmptyField(ManifestField::Version).message(),
        "Plugin version cannot be empty"
    );
    assert_eq!(
        ManifestError::EmptyField(ManifestField::ModuleLocation).message(),
        "WASM module path cannot be empty"
    );
    assert_eq!(
        ManifestError::MalformedDocument("eof".to_string()).message(),
        "Failed to parse plugin manifest: eof"
    );
}

#[test]
fn paths_are_joined_with_one_separator() {
    assert_eq!(join("a", "b"), "a/b");
    assert_eq!(join("a/", "b"), "a/b");
    assert_eq!(join("", "b"), "b");
    assert_eq!(join("a", "/b"), "/b");
    assert_eq!(join("a", ""), "a/");
    assert_eq!(join("/", "b"), "/b");
    assert_eq!(join("", ""), "");
}

fn parts() -> ManifestParts {
    ManifestParts {
        name: "audit".to_string(),
        version: "0.1.0".to_string(),
        description: "Audit log".to_string(),
        author: None,
        plugin_type: "service".to_string(),
        wasm_module: "plugin.wasm".to_string(),
        wasm_config: None,
        capabilities: None,
        entry_points: None,
        dependencies: None,
    }
}

#[test]
fn absent_parts_of_a_document_are_empty() {
    let m = PluginManifest::from_parts(parts());
    assert_eq!(m.name, "audit");
    assert_eq!(m.author, None);
    assert!(m.wasm_config.allowed_hosts.is_empty());
    assert!(m.wasm_config.allowed_paths.is_empty());
    assert!(m.wasm_config.config.is_empty());
    assert_eq!(m.wasm_config.memory_max_pages, None);
    assert!(m.capabilities.is_empty());
    assert!(m.entry_points.is_empty());
    assert!(m.dependencies.is_empty());
    assert!(m.validate().is_ok());
}

#[test]
fn given_parts_of_a_document_are_kept() {
    let mut p = parts();
    p.author = Some("me".to_string());
    p.wasm_config = Some(WasmConfigParts {
        allowed_hosts: Some(vec!["example.com".to_string()]),
        allowed_paths: None,
        config: Some(vec![("k".to_string(), "v".to_string())]),
        memory_max_pages: Some(8),
    });
    p.capabilities = Some(vec!["db".to_string()]);
    p.entry_points = Some(vec![
        EntryPointParts {
            name: "create_audit_log".to_string(),
            function: "create_audit_log".to_string(),
            description: "adds an entry".to_string(),
            input_format: None,
            output_format: Some("json".to_string()),
        },
        EntryPointParts {
            name: "list".to_string(),
            function: "get_user_audit_logs".to_string(),
            description: String::new(),
            input_format: Some("json".to_string()),
            output_format: None,
        },
    ]);
    p.dependencies = Some(vec![("base".to_string(), "^1".to_string())]);
    let m = PluginManifest::from_parts(p);
    assert_eq!(m.author, Some("me".to_string()));
    assert_eq!(m.wasm_config.allowed_hosts, vec!["example.com".to_string()]);
    assert!(m.wasm_config.allowed_paths.is_empty());
    assert_eq!(m.wasm_config.config, vec![("k".to_string(), "v".to_string())]);
    assert_eq!(m.wasm_config.memory_max_pages, Some(8));
    assert_eq!(m.capabilities, vec!["db".to_string()]);
    assert_eq!(m.entry_points.len(), 2);
    assert_eq!(m.entry_points[0].name, "create_audit_log");
    assert_eq!(m.entry_points[0].input_format, "");
    assert_eq!(m.entry_points[0].output_format, "json");
    assert_eq!(m.entry_points[1].function, "get_user_audit_logs");
    assert_eq!(m.entry_points[1].input_format, "json");
    assert_eq!(m.entry_points[1].output_format, "");
    assert_eq!(m.dependencies, vec![("base".to_string(), "^1".to_string())]);
    let empty = WasmConfig::from_parts(Some(WasmConfigParts {
        allowed_hosts: None,
        allowed_paths: None,
        config: None,
        memory_max_pages: None,
    }));
    assert!(empty.allowed_hosts.is_empty() && empty.config.is_empty());
}
