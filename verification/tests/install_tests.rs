use plugin_host::install::{
    classify_url, extract_wasm_exports, function_exports, is_remote_location, is_safe_name,
    plan_manifest_install, plan_module_install, plugin_name_from_url, synthesize_manifest,
    InstallError, ModuleOrigin, UrlKind, MANIFEST_FILE,
};
use plugin_host::loader::LoadError;
use plugin_host::manifest::{ManifestError, ManifestField, PluginManifest, WasmConfig};

/// A module that exports the functions `run` and `fail` and its memory.
fn sample_module() -> Vec<u8> {
    vec![
        0x00, 0x61, 0x73, 0x6d, 0x01, 0x00, 0x00, 0x00, 0x01, 0x05, 0x01, 0x60, 0x00, 0x01, 0x7f,
        0x03, 0x03, 0x02, 0x00, 0x00, 0x05, 0x03, 0x01, 0x00, 0x01, 0x07, 0x17, 0x03, 0x03, 0x72,
        0x75, 0x6e, 0x00, 0x00, 0x04, 0x66, 0x61, 0x69, 0x6c, 0x00, 0x01, 0x06, 0x6d, 0x65, 0x6d,
        0x6f, 0x72, 0x79, 0x02, 0x00, 0x0a, 0x0b, 0x02, 0x04, 0x00, 0x41, 0x00, 0x0b, 0x04, 0x00,
        0x41, 0x01, 0x0b,
    ]
}

fn manifest(name: &str, module: &str) -> PluginManifest {
    PluginManifest {
        name: name.to_string(),
        version: "1.0.0".to_string(),
        description: "remote".to_string(),
        author: Some("someone".to_string()),
        plugin_type: "service".to_string(),
        wasm_module: module.to_string(),
        wasm_config: WasmConfig::default(),
        capabilities: vec![],
        entry_points: vec![],
        dependencies: vec![("base".to_string(), ">=1".to_string())],
    }
}

#[test]
fn url_is_classified_by_its_ending() {
    assert_eq!(classify_url("https://example.com/p/foo.wasm"), UrlKind::Module);
    assert_eq!(classify_url("https://example.com/p/plugin.json"), UrlKind::ManifestDocument);
    assert_eq!(classify_url("https://example.com/foo.wasm?x=1"), UrlKind::ManifestDocument);
    assert_eq!(classify_url(".wasm"), UrlKind::Module);
    assert_eq!(classify_url("wasm"), UrlKind::ManifestDocument);
    assert_eq!(classify_url(""), UrlKind::ManifestDocument);
}

#[test]
fn plugin_name_is_the_last_segment_without_suffix() {
    assert_eq!(plugin_name_from_url("https://example.com/plugins/foo.wasm"), "foo");
    assert_eq!(plugin_name_from_url("foo.wasm"), "foo");
    assert_eq!(plugin_name_from_url("https://example.com/a/b.wasm.wasm"), "b");
    assert_eq!(plugin_name_from_url("https://example.com/dir/"), "");
    assert_eq!(plugin_name_from_url("https://example.com/x/foo.wasmx"), "foo.wasmx");
    assert_eq!(plugin_name_from_url("https://example.com/x/\u{e9}t\u{e9}.wasm"), "\u{e9}t\u{e9}");
}

#[test]
fn exports_are_read_from_the_module() {
    assert_eq!(extract_wasm_exports(&sample_module()), vec!["run".to_string(), "fail".to_string()]);
    assert!(extract_wasm_exports(b"not a module").is_empty());
    assert!(extract_wasm_exports(&[]).is_empty());
}

#[test]
fn only_functions_count_as_entry_points() {
    let exports = vec![
        ("memory".to_string(), wasmparser::ExternalKind::Memory),
        ("a".to_string(), wasmparser::ExternalKind::Func),
        ("t".to_string(), wasmparser::ExternalKind::Table),
        ("g".to_string(), wasmparser::ExternalKind::Global),
        ("b".to_string(), wasmparser::ExternalKind::Func),
        ("tag".to_string(), wasmparser::ExternalKind::Tag),
    ];
    assert_eq!(function_exports(&exports), vec!["a".to_string(), "b".to_string()]);
    assert!(function_exports(&vec![]).is_empty());
}

#[test]
fn raw_module_url_synthesizes_manifest_named_after_the_file() {
    let plan = plan_module_install("https://example.com/plugins/foo.wasm", &sample_module())
        .expect("the module can be read");
    assert_eq!(plan.plugin_name, "foo");
    assert!(matches!(plan.module, ModuleOrigin::Fetched));
    let m = plan.manifest;
    assert_eq!(m.name, "foo");
    assert_eq!(m.version, "0.1.0");
    assert_eq!(m.description, "Plugin loaded from https://example.com/plugins/foo.wasm");
    assert_eq!(m.author, Some("Remote".to_string()));
    assert_eq!(m.plugin_type, "remote");
    assert_eq!(m.wasm_module, "plugin.wasm");
    assert!(m.capabilities.is_empty());
    assert!(m.dependencies.is_empty());
    assert!(m.wasm_config.allowed_hosts.is_empty());
    assert_eq!(m.wasm_config.memory_max_pages, None);
    let names: Vec<&str> = m.entry_points.iter().map(|e| e.name.as_str()).collect();
    assert_eq!(names, vec!["run", "fail"]);
    for e in &m.entry_points {
        assert_eq!(e.function, e.name);
        assert_eq!(e.description, format!("Exported function: {}", e.name));
        assert_eq!(e.input_format, "json");
        assert_eq!(e.output_format, "json");
    }
    assert!(m.validate().is_ok());
}

#[test]
fn raw_module_that_cannot_be_read_is_refused() {
    match plan_module_install("https://example.com/foo.wasm", b"\0asm-broken") {
        Err(InstallError::ExportIntrospectionFailed(url)) => {
            assert_eq!(url, "https://example.com/foo.wasm")
        }
        _ => panic!("a broken module must be refused"),
    }
    let mut cut = sample_module();
    cut.truncate(30);
    assert!(matches!(
        plan_module_install("https://example.com/foo.wasm", &cut),
        Err(InstallError::ExportIntrospectionFailed(_))
    ));
}

#[test]
fn raw_module_with_unusable_name_is_refused() {
    match plan_module_install("https://example.com/.wasm", &sample_module()) {
        Err(InstallError::InvalidDestination(name)) => assert_eq!(name, ""),
        _ => panic!("an empty name must be refused"),
    }
    match plan_module_install("https://example.com/...wasm", &sample_module()) {
        Err(InstallError::InvalidDestination(name)) => assert_eq!(name, ".."),
        _ => panic!("the parent directory must be refused"),
    }
}

#[test]
fn manifest_with_remote_module_is_rewritten_to_local_file() {
    let plan = plan_manifest_install(manifest("audit", "https://cdn.example.com/mods/audit-1.wasm"))
        .expect("the name is usable");
    assert_eq!(plan.plugin_name, "audit");
    match &plan.module {
        ModuleOrigin::Remote(url) => assert_eq!(url, "https://cdn.example.com/mods/audit-1.wasm"),
        _ => panic!("the module must be fetched"),
    }
    assert_eq!(plan.manifest.wasm_module, "audit-1.wasm");
    assert!(!plan.manifest.wasm_module.contains("://"));
    assert!(!is_remote_location(&plan.manifest.wasm_module));
    // The rest of the manifest is as it was.
    assert_eq!(plan.manifest.name, "audit");
    assert_eq!(plan.manifest.version, "1.0.0");
    assert_eq!(plan.manifest.author, Some("someone".to_string()));
    assert_eq!(plan.manifest.dependencies, vec![("base".to_string(), ">=1".to_string())]);
    assert_eq!(
        plan.manifest.wasm_path("/plugins/audit"),
        "/plugins/audit/audit-1.wasm"
    );
    assert_eq!(MANIFEST_FILE, "plugin.json");

    let plain = plan_manifest_install(manifest("audit", "http://h/x/m.wasm")).expect("usable");
    assert_eq!(plain.manifest.wasm_module, "m.wasm");
}

#[test]
fn manifest_with_local_module_is_kept() {
    let plan = plan_manifest_install(manifest("audit", "bin/plugin.wasm")).expect("usable");
    assert!(matches!(plan.module, ModuleOrigin::InPlace));
    assert_eq!(plan.manifest.wasm_module, "bin/plugin.wasm");
    let odd = plan_manifest_install(manifest("audit", "ftp://h/m.wasm")).expect("usable");
    assert!(matches!(odd.module, ModuleOrigin::InPlace));
    assert_eq!(odd.manifest.wasm_module, "ftp://h/m.wasm");
}

#[test]
fn manifest_with_unusable_name_is_refused() {
    for name in ["", ".", "..", "a/b", "a\\b", "/abs"] {
        match plan_manifest_install(manifest(name, "plugin.wasm")) {
            Err(InstallError::InvalidDestination(n)) => assert_eq!(n, name),
            _ => panic!("the name must be refused"),
        }
    }
}

#[test]
fn safe_names_name_one_directory() {
    assert!(is_safe_name("audit"));
    assert!(is_safe_name("audit-plugin_2"));
    assert!(is_safe_name("..."));
    assert!(is_safe_name(".hidden"));
    assert!(!is_safe_name(""));
    assert!(!is_safe_name("."));
    assert!(!is_safe_name(".."));
    assert!(!is_safe_name("a/b"));
    assert!(!is_safe_name("a\\b"));
}

#[test]
fn remote_locations_begin_with_a_web_scheme() {
    assert!(is_remote_location("http://example.com/a.wasm"));
    assert!(is_remote_location("https://example.com/a.wasm"));
    assert!(is_remote_location("http://"));
    assert!(!is_remote_location("http:/example.com"));
    assert!(!is_remote_location("HTTP://example.com"));
    assert!(!is_remote_location("plugin.wasm"));
    assert!(!is_remote_location(""));
}

#[test]
fn synthesized_manifest_has_one_entry_per_function() {
    let m = synthesize_manifest("http://h/tool.wasm", &vec!["a".to_string(), "b".to_string(), "a".to_string()]);
    assert_eq!(m.name, "tool");
    assert_eq!(m.entry_points.len(), 3);
    assert_eq!(m.entry_points[2].name, "a");
    let none = synthesize_manifest("http://h/tool.wasm", &vec![]);
    assert!(none.entry_points.is_empty());
}

#[test]
fn install_errors_say_what_failed() {
    assert_eq!(
        InstallError::FetchFailed("timeout".to_string()).message(),
        "Failed to fetch plugin from URL: timeout"
    );
    assert_eq!(
        InstallError::InvalidDestination("..".to_string()).message(),
        "Invalid plugin directory name: .."
    );
    assert_eq!(
        InstallError::ExportIntrospectionFailed("http://h/a.wasm".to_string()).message(),
        "Failed to read the exports of the module from http://h/a.wasm"
    );
    assert_eq!(
        InstallError::Manifest(ManifestError::MalformedDocument("expected `,`".to_string())).message(),
        "Failed to parse plugin manifest: expected `,`"
    );
    assert_eq!(
        InstallError::Manifest(ManifestError::EmptyField(ManifestField::ModuleLocation)).message(),
        "WASM module path cannot be empty"
    );
    assert_eq!(
        InstallError::Load(LoadError::EngineConstructionFailed("no memory".to_string())).message(),
        "Failed to create plugin: no memory"
    );
}
