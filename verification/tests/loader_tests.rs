use plugin_host::loader::{reserved_bytes, sandbox_manifest, InvocationError, LoadError, PluginLoader};
use plugin_host::manifest::{ManifestError, ManifestField, PluginManifest, WasmConfig};
use std::sync::atomic::{AtomicUsize, Ordering};
use std::sync::Arc;

/// A module that exports the functions `run`, which returns 0, and `fail`,
/// which returns 1, and its memory.
fn sample_module() -> Vec<u8> {
    vec![
        0x00, 0x61, 0x73, 0x6d, 0x01, 0x00, 0x00, 0x00, // header
        0x01, 0x05, 0x01, 0x60, 0x00, 0x01, 0x7f, // one type: () -> i32
        0x03, 0x03, 0x02, 0x00, 0x00, // two functions of that type
        0x05, 0x03, 0x01, 0x00, 0x01, // one memory of one page
        0x07, 0x17, 0x03, // three exports
        0x03, 0x72, 0x75, 0x6e, 0x00, 0x00, // "run": function 0
        0x04, 0x66, 0x61, 0x69, 0x6c, 0x00, 0x01, // "fail": function 1
        0x06, 0x6d, 0x65, 0x6d, 0x6f, 0x72, 0x79, 0x02, 0x00, // "memory": memory 0
        0x0a, 0x0b, 0x02, // two bodies
        0x04, 0x00, 0x41, 0x00, 0x0b, // i32.const 0
        0x04, 0x00, 0x41, 0x01, 0x0b, // i32.const 1
    ]
}

/// A module that imports the host function `get_timestamp` and exports the
/// function `now`, which calls it and returns 0.
fn importing_module() -> Vec<u8> {
    let mut m = vec![
        0x00, 0x61, 0x73, 0x6d, 0x01, 0x00, 0x00, 0x00, // header
        0x01, 0x09, 0x02, 0x60, 0x00, 0x01, 0x7f, 0x60, 0x00, 0x01, 0x7e, // () -> i32, () -> i64
        0x02, 0x22, 0x01, 0x10, // one import, module name of 16 bytes
    ];
    m.extend_from_slice(b"extism:host/user");
    m.push(0x0d);
    m.extend_from_slice(b"get_timestamp");
    m.extend_from_slice(&[0x00, 0x01]); // a function of type 1
    m.extend_from_slice(&[0x03, 0x02, 0x01, 0x00]); // one function of type 0
    m.extend_from_slice(&[0x07, 0x07, 0x01, 0x03, 0x6e, 0x6f, 0x77, 0x00, 0x01]); // "now": function 1
    m.extend_from_slice(&[0x0a, 0x09, 0x01, 0x07, 0x00, 0x10, 0x00, 0x1a, 0x41, 0x00, 0x0b]);
    m
}

fn manifest(name: &str) -> PluginManifest {
    PluginManifest {
        name: name.to_string(),
        version: "0.1.0".to_string(),
        description: "a plugin".to_string(),
        author: None,
        plugin_type: "service".to_string(),
        wasm_module: "plugin.wasm".to_string(),
        wasm_config: WasmConfig {
            allowed_hosts: vec!["example.com".to_string()],
            allowed_paths: vec![("/data".to_string(), "/tmp".to_string())],
            config: vec![
                ("mode".to_string(), "test".to_string()),
                ("mode".to_string(), "live".to_string()),
            ],
            memory_max_pages: Some(16),
        },
        capabilities: vec![],
        entry_points: vec![],
        dependencies: vec![],
    }
}

#[test]
fn load_refuses_invalid_manifest_first() {
    let mut m = manifest("audit");
    m.version = String::new();
    let r = PluginLoader::load(m, "/plugins/audit", None);
    assert!(matches!(
        r,
        Err(LoadError::ManifestInvalid(ManifestError::EmptyField(ManifestField::Version)))
    ));
}

#[test]
fn load_reports_missing_module_with_its_path() {
    match PluginLoader::load(manifest("audit"), "/plugins/audit", None) {
        Err(LoadError::ModuleNotFound(path)) => assert_eq!(path, "/plugins/audit/plugin.wasm"),
        _ => panic!("a missing module must be reported"),
    }
}

#[test]
fn load_reports_engine_refusal() {
    let r = PluginLoader::load(manifest("audit"), "/plugins/audit", Some(vec![1, 2, 3]));
    assert!(matches!(r, Err(LoadError::EngineConstructionFailed(_))));
}

#[test]
fn loaded_plugin_keeps_manifest_and_knows_its_functions() {
    let loader = PluginLoader::load(manifest("audit"), "/plugins/audit", Some(sample_module()))
        .expect("the module loads");
    assert_eq!(loader.manifest().name, "audit");
    assert_eq!(loader.manifest().wasm_config.config.len(), 2);
    assert!(loader.has_function("run"));
    assert!(loader.has_function("fail"));
    assert!(!loader.has_function("memory"));
    assert!(!loader.has_function("missing"));
}

#[test]
fn call_returns_output_or_error_value() {
    let mut loader = PluginLoader::load(manifest("audit"), "/plugins/audit", Some(sample_module()))
        .expect("the module loads");
    assert_eq!(loader.call("run", b"{}").expect("run succeeds"), Vec::<u8>::new());
    assert!(matches!(loader.call("fail", b"{}"), Err(InvocationError::EngineFault(_))));
    match loader.call("missing", b"{}") {
        Err(InvocationError::FunctionNotExported(name)) => assert_eq!(name, "missing"),
        _ => panic!("a missing function must be reported"),
    }
    // A fault leaves the instance usable.
    assert!(loader.call("run", b"").is_ok());
}

#[test]
fn instance_reaches_only_the_functions_of_the_table() {
    let without = PluginLoader::load(manifest("clock"), "/plugins/clock", Some(importing_module()));
    assert!(matches!(without, Err(LoadError::EngineConstructionFailed(_))));

    let calls = Arc::new(AtomicUsize::new(0));
    let seen = calls.clone();
    let host_fn = extism::Function::new(
        "get_timestamp",
        [],
        [extism::ValType::I64],
        extism::UserData::new(()),
        move |_plugin: &mut extism::CurrentPlugin,
              _inputs: &[extism::Val],
              outputs: &mut [extism::Val],
              _data: extism::UserData<()>| {
            seen.fetch_add(1, Ordering::SeqCst);
            outputs[0] = extism::Val::I64(7);
            Ok(())
        },
    );
    let mut with = PluginLoader::load_with_host_functions(
        manifest("clock"),
        "/plugins/clock",
        Some(importing_module()),
        vec![host_fn],
    )
    .expect("the import is resolved by the table");
    assert!(with.call("now", b"").is_ok());
    assert_eq!(calls.load(Ordering::SeqCst), 1);
}

#[test]
fn error_messages_name_what_failed() {
    assert_eq!(
        LoadError::ModuleNotFound("/p/a.wasm".to_string()).message(),
        "WASM module not found: /p/a.wasm"
    );
    assert_eq!(
        LoadError::ManifestInvalid(ManifestError::EmptyField(ManifestField::Name)).message(),
        "Plugin name cannot be empty"
    );
    assert_eq!(
        InvocationError::FunctionNotExported("f".to_string()).message(),
        "Function not exported: f"
    );
    assert_eq!(
        InvocationError::EngineFault("trap".to_string()).message(),
        "Failed to call plugin function: trap"
    );
    assert_eq!(
        InvocationError::SerializationMismatch("expected value".to_string()).message(),
        "Serialization mismatch: expected value"
    );
    assert_eq!(
        LoadError::ManifestInvalid(ManifestError::EmptyField(ManifestField::Version)).message(),
        "Plugin version cannot be empty"
    );
}

#[test]
fn sandbox_grants_what_the_policy_declares() {
    let policy = manifest("audit").wasm_config;
    let m = sandbox_manifest(&policy, vec![1, 2, 3]);
    assert_eq!(m.wasm.len(), 1);
    match &m.wasm[0] {
        extism::Wasm::Data { data, .. } => assert_eq!(data, &vec![1u8, 2, 3]),
        _ => panic!("the module is given as bytes"),
    }
    // Of two values of one key the later counts.
    assert_eq!(m.config.len(), 1);
    assert_eq!(m.config.get("mode"), Some(&"live".to_string()));
    assert_eq!(m.allowed_hosts, Some(vec!["example.com".to_string()]));
    // The engine maps the host's path to the path that the plugin sees.
    let paths = m.allowed_paths.expect("paths are granted");
    assert_eq!(paths.len(), 1);
    assert_eq!(paths.get("/tmp"), Some(&std::path::PathBuf::from("/data")));
    assert_eq!(m.memory.max_pages, Some(16));
    assert_eq!(m.timeout_ms, None);
}

#[test]
fn sandbox_of_empty_policy_grants_nothing() {
    let m = sandbox_manifest(&WasmConfig::default(), vec![]);
    assert!(m.config.is_empty());
    assert_eq!(m.allowed_hosts, None);
    assert!(m.allowed_paths.is_none());
    assert_eq!(m.memory.max_pages, None);
}

#[test]
fn sandbox_keeps_hosts_in_order() {
    let policy = WasmConfig {
        allowed_hosts: vec!["b.example".to_string(), "a.example".to_string(), "b.example".to_string()],
        allowed_paths: vec![
            ("/guest/one".to_string(), "/host".to_string()),
            ("/guest/two".to_string(), "/host".to_string()),
            ("/guest/three".to_string(), "/other".to_string()),
        ],
        config: vec![],
        memory_max_pages: None,
    };
    let m = sandbox_manifest(&policy, vec![]);
    assert_eq!(
        m.allowed_hosts,
        Some(vec!["b.example".to_string(), "a.example".to_string(), "b.example".to_string()])
    );
    let paths = m.allowed_paths.expect("paths are granted");
    assert_eq!(paths.len(), 2);
    assert_eq!(paths.get("/host"), Some(&std::path::PathBuf::from("/guest/two")));
    assert_eq!(paths.get("/other"), Some(&std::path::PathBuf::from("/guest/three")));
}

#[test]
fn pages_are_reserved_in_bytes() {
    assert_eq!(reserved_bytes(0), 0);
    assert_eq!(reserved_bytes(1), 65536);
    assert_eq!(reserved_bytes(16), 1048576);
    assert_eq!(reserved_bytes(u32::MAX), 65536 * (u32::MAX as u64));
}
