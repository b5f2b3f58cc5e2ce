//! The loader: it binds a manifest and a module into one running instance
//! whose sandbox grants what the manifest declares, and calls its entry points.

use crate::engine::{
    engine_call, engine_config, engine_error_text, engine_function_exists, engine_hosts,
    engine_manifest, engine_memory_max, engine_modules, engine_new_plugin,
    engine_new_plugin_within, engine_paths, engine_with_allowed_host, engine_with_allowed_path,
    engine_with_config_key, engine_with_memory_max, function_names, plugin_entry_points,
    plugin_functions, plugin_policy,
};
use crate::manifest::{
    first_empty_field, is_valid, join_path, manifest_error_text, ManifestError, PluginManifest,
    PluginManifestView, WasmConfig, WasmConfigView,
};
use crate::text::joined;
use vstd::prelude::*;

verus! {

/// Why a plugin could not be loaded.
#[derive(Debug)]
pub enum LoadError {
    /// The manifest is refused.
    ManifestInvalid(ManifestError),
    /// No module lies at this path.
    ModuleNotFound(String),
    /// The engine could not build an instance; the text is the engine's.
    EngineConstructionFailed(String),
}

/// Why a call of an entry point failed.
#[derive(Debug)]
pub enum InvocationError {
    /// The plugin offers no function of this name.
    FunctionNotExported(String),
    /// The engine stopped the call; the text is the engine's.
    EngineFault(String),
    /// The input or the output is not in the format that was agreed.
    SerializationMismatch(String),
}

/// The text of each load error, as it is shown to a user.
pub open spec fn load_error_text(e: LoadError) -> Seq<char> {
    match e {
        LoadError::ManifestInvalid(why) => manifest_error_text(why),
        LoadError::ModuleNotFound(path) => "WASM module not found: "@ + path@,
        LoadError::EngineConstructionFailed(why) => "Failed to create plugin: "@ + why@,
    }
}

/// The text of each invocation error, as it is shown to a user.
pub open spec fn invocation_error_text(e: InvocationError) -> Seq<char> {
    match e {
        InvocationError::FunctionNotExported(name) => "Function not exported: "@ + name@,
        InvocationError::EngineFault(why) => "Failed to call plugin function: "@ + why@,
        InvocationError::SerializationMismatch(why) => "Serialization mismatch: "@ + why@,
    }
}

impl LoadError {
    /// The error in words.
    pub fn message(&self) -> (r: String)
        ensures
            r@ == load_error_text(*self),
    {
        match self {
            LoadError::ManifestInvalid(why) => why.message(),
            LoadError::ModuleNotFound(path) => joined("WASM module not found: ", path.as_str()),
            LoadError::EngineConstructionFailed(why) => joined(
                "Failed to create plugin: ",
                why.as_str(),
            ),
        }
    }
}

impl InvocationError {
    /// The error in words.
    pub fn message(&self) -> (r: String)
        ensures
            r@ == invocation_error_text(*self),
    {
        match self {
            InvocationError::FunctionNotExported(name) => joined(
                "Function not exported: ",
                name.as_str(),
            ),
            InvocationError::EngineFault(why) => joined(
                "Failed to call plugin function: ",
                why.as_str(),
            ),
            InvocationError::SerializationMismatch(why) => joined(
                "Serialization mismatch: ",
                why.as_str(),
            ),
        }
    }
}

/// The map that a list of pairs stands for: each pair sets its key, a later
/// pair in place of an earlier one.
pub open spec fn pairs_map(pairs: Seq<(Seq<char>, Seq<char>)>) -> Map<Seq<char>, Seq<char>>
    decreases pairs.len(),
{
    if pairs.len() == 0 {
        Map::empty()
    } else {
        pairs_map(pairs.drop_last()).insert(pairs.last().0, pairs.last().1)
    }
}

/// The pairs turned round: of each pair the second part first.
pub open spec fn swapped(pairs: Seq<(Seq<char>, Seq<char>)>) -> Seq<(Seq<char>, Seq<char>)> {
    pairs.map_values(|p: (Seq<char>, Seq<char>)| (p.1, p.0))
}

/// The hosts that the engine is told to allow: none where the list is empty.
pub open spec fn granted_hosts(hosts: Seq<Seq<char>>) -> Option<Seq<Seq<char>>> {
    if hosts.len() == 0 {
        None
    } else {
        Some(hosts)
    }
}

/// The paths that the engine is told to allow, from the host's path to the
/// path that the plugin sees: none where the list is empty.
pub open spec fn granted_paths(paths: Seq<(Seq<char>, Seq<char>)>) -> Option<Map<Seq<char>, Seq<char>>> {
    if paths.len() == 0 {
        None
    } else {
        Some(pairs_map(swapped(paths)))
    }
}

/// What the engine is told to grant for a policy: the configuration as a map,
/// the hosts, the paths from the host's side, and the most pages of memory.
pub open spec fn granted(policy: WasmConfigView) -> (
    Map<Seq<char>, Seq<char>>,
    Option<Seq<Seq<char>>>,
    Option<Map<Seq<char>, Seq<char>>>,
    Option<u32>,
) {
    (
        pairs_map(policy.config),
        granted_hosts(policy.allowed_hosts),
        granted_paths(policy.allowed_paths),
        policy.memory_max_pages,
    )
}

/// Builds the engine's manifest for one module: the sandbox that the policy
/// declares, no more and no less.
pub fn sandbox_manifest(config: &WasmConfig, module: Vec<u8>) -> (m: extism::Manifest)
    ensures
        engine_modules(m) == seq![module@],
        engine_config(m) == pairs_map(config@.config),
        engine_hosts(m) == granted_hosts(config@.allowed_hosts),
        engine_paths(m) == granted_paths(config@.allowed_paths),
        engine_memory_max(m) == config@.memory_max_pages,
{
    let ghost bytes = module@;
    let mut m = engine_manifest(module);
    let mut i: usize = 0;
    assert(config@.config.take(0) =~= Seq::empty());
    while i < config.config.len()
        invariant
            i <= config.config.len(),
            engine_modules(m) == seq![bytes],
            engine_config(m) == pairs_map(config@.config.take(i as int)),
            engine_hosts(m) is None,
            engine_paths(m) is None,
            engine_memory_max(m) is None,
        decreases config.config.len() - i,
    {
        proof {
            let next = config@.config.take(i + 1);
            assert(next.drop_last() =~= config@.config.take(i as int));
            assert(next.last() == config.config[i as int].deep_view());
        }
        m = engine_with_config_key(m, config.config[i].0.as_str(), config.config[i].1.as_str());
        i = i + 1;
    }
    assert(config@.config.take(config@.config.len() as int) =~= config@.config);
    let mut j: usize = 0;
    while j < config.allowed_hosts.len()
        invariant
            j <= config.allowed_hosts.len(),
            engine_modules(m) == seq![bytes],
            engine_config(m) == pairs_map(config@.config),
            engine_hosts(m) == granted_hosts(config@.allowed_hosts.take(j as int)),
            engine_paths(m) is None,
            engine_memory_max(m) is None,
        decreases config.allowed_hosts.len() - j,
    {
        proof {
            let before = config@.allowed_hosts.take(j as int);
            let next = config@.allowed_hosts.take(j + 1);
            assert(next =~= before.push(config.allowed_hosts[j as int]@));
            if j == 0 {
                assert(next =~= seq![config.allowed_hosts[j as int]@]);
            }
        }
        m = engine_with_allowed_host(m, config.allowed_hosts[j].as_str());
        j = j + 1;
    }
    assert(config@.allowed_hosts.take(config@.allowed_hosts.len() as int) =~= config@.allowed_hosts);
    let mut k: usize = 0;
    let ghost pairs = swapped(config@.allowed_paths);
    while k < config.allowed_paths.len()
        invariant
            k <= config.allowed_paths.len(),
            pairs == swapped(config@.allowed_paths),
            engine_modules(m) == seq![bytes],
            engine_config(m) == pairs_map(config@.config),
            engine_hosts(m) == granted_hosts(config@.allowed_hosts),
            engine_paths(m) == if k == 0 {
                None
            } else {
                Some(pairs_map(pairs.take(k as int)))
            },
            engine_memory_max(m) is None,
        decreases config.allowed_paths.len() - k,
    {
        proof {
            let next = pairs.take(k + 1);
            assert(next.drop_last() =~= pairs.take(k as int));
            assert(config@.allowed_paths[k as int] == config.allowed_paths[k as int].deep_view());
            assert(next.last() == (config.allowed_paths[k as int].1@, config.allowed_paths[k as int].0@));
            assert(pairs.take(0) =~= Seq::empty());
            assert(pairs_map(pairs.take(0)) == crate::engine::no_pairs());
            assert(pairs_map(next) == pairs_map(pairs.take(k as int)).insert(
                next.last().0,
                next.last().1,
            ));
        }
        m = engine_with_allowed_path(
            m,
            config.allowed_paths[k].1.clone(),
            config.allowed_paths[k].0.as_str(),
        );
        k = k + 1;
    }
    assert(pairs.take(pairs.len() as int) =~= pairs);
    match config.memory_max_pages {
        Some(pages) => {
            m = engine_with_memory_max(m, pages);
        },
        None => {},
    }
    m
}

/// The bytes of one page of a module's memory.
pub const PAGE_BYTES: u64 = 65536;

/// The address space that is reserved for each memory of a plugin whose
/// manifest allows it this many pages: the bytes of these pages.
pub fn reserved_bytes(pages: u32) -> (r: u64)
    ensures
        r == pages * PAGE_BYTES,
{
    pages as u64 * PAGE_BYTES
}

/// A loaded plugin: a snapshot of its manifest and the running instance that
/// the engine built for it.
pub struct PluginLoader {
    manifest: PluginManifest,
    plugin: extism::Plugin,
}

/// What becomes of a load once the engine has answered: the loaded plugin, or
/// the engine's refusal.
pub open spec fn load_outcome(
    manifest: PluginManifestView,
    built: Result<extism::Plugin, String>,
    r: Result<PluginLoader, LoadError>,
) -> bool {
    match first_empty_field(manifest) {
        Some(field) => r == Err::<PluginLoader, LoadError>(
            LoadError::ManifestInvalid(ManifestError::EmptyField(field)),
        ),
        None => match built {
            Ok(plugin) => r is Ok && r->Ok_0.manifest_view() == manifest && r->Ok_0.instance()
                == plugin,
            Err(why) => r == Err::<PluginLoader, LoadError>(LoadError::EngineConstructionFailed(why)),
        },
    }
}

/// What a call returns once the engine has answered: the output, or the
/// engine's fault.
pub open spec fn call_outcome(answer: Result<Vec<u8>, String>) -> Result<Vec<u8>, InvocationError> {
    match answer {
        Ok(output) => Ok(output),
        Err(why) => Err(InvocationError::EngineFault(why)),
    }
}

impl PluginLoader {
    /// The manifest that the plugin was loaded with.
    pub closed spec fn manifest_view(&self) -> PluginManifestView {
        self.manifest@
    }

    /// The running instance.
    pub closed spec fn instance(&self) -> extism::Plugin {
        self.plugin
    }

    /// The names under which the plugin can be called.
    pub open spec fn entry_points(&self) -> Set<Seq<char>> {
        plugin_entry_points(self.instance())
    }

    /// What the instance's sandbox grants.
    pub open spec fn sandbox(&self) -> (
        Map<Seq<char>, Seq<char>>,
        Option<Seq<Seq<char>>>,
        Option<Map<Seq<char>, Seq<char>>>,
        Option<u32>,
    ) {
        plugin_policy(self.instance())
    }

    /// The names of the host functions that the instance can call.
    pub open spec fn bridge(&self) -> Seq<Seq<char>> {
        plugin_functions(self.instance())
    }

    /// A loaded plugin's manifest has passed validation, and its instance
    /// runs in the sandbox that the manifest declares.
    pub open spec fn wf(&self) -> bool {
        &&& is_valid(self.manifest_view())
        &&& self.sandbox() == granted(self.manifest_view().wasm_config)
    }

    /// Makes a loaded plugin of a manifest and of what the engine answered
    /// when it was asked for an instance.
    pub fn assemble(manifest: PluginManifest, built: Result<extism::Plugin, String>) -> (r: Result<
        Self,
        LoadError,
    >)
        ensures
            load_outcome(manifest@, built, r),
            r is Ok && plugin_policy(built->Ok_0) == granted(manifest@.wasm_config) ==> r->Ok_0.wf(),
    {
        match manifest.validate() {
            Err(e) => Err(LoadError::ManifestInvalid(e)),
            Ok(()) => match built {
                Ok(plugin) => Ok(PluginLoader { manifest, plugin }),
                Err(why) => Err(LoadError::EngineConstructionFailed(why)),
            },
        }
    }

    /// Loads a plugin whose instance can call the given host functions, and
    /// nothing else of the host. `module` holds the bytes that lie at the
    /// manifest's module location below `plugin_dir`, or nothing where no file
    /// lies there. Where the manifest limits the pages of memory, the engine
    /// reserves no more address space for a memory than these pages, and lets
    /// a memory move when it grows; else the engine's own reserve holds.
    ///
    /// An invalid manifest is refused first, a missing module second; then
    /// the engine decides.
    pub fn load_with_host_functions(
        plugin_manifest: PluginManifest,
        plugin_dir: &str,
        module: Option<Vec<u8>>,
        host_fns: Vec<extism::Function>,
    ) -> (r: Result<Self, LoadError>)
        ensures
            r is Ok ==> {
                &&& r->Ok_0.wf()
                &&& r->Ok_0.manifest_view() == plugin_manifest@
                &&& r->Ok_0.sandbox() == granted(plugin_manifest@.wasm_config)
                &&& r->Ok_0.bridge() == function_names(host_fns@)
            },
            match first_empty_field(plugin_manifest@) {
                Some(field) => r == Err::<PluginLoader, LoadError>(
                    LoadError::ManifestInvalid(ManifestError::EmptyField(field)),
                ),
                None => match module {
                    None => r is Err && r->Err_0 is ModuleNotFound && r->Err_0->ModuleNotFound_0@
                        == join_path(plugin_dir@, plugin_manifest@.wasm_module),
                    Some(_) => r is Ok || (r is Err && r->Err_0 is EngineConstructionFailed),
                },
            },
    {
        match plugin_manifest.validate() {
            Err(e) => {
                return Err(LoadError::ManifestInvalid(e));
            },
            Ok(()) => {},
        }
        let bytes = match module {
            None => {
                return Err(LoadError::ModuleNotFound(plugin_manifest.wasm_path(plugin_dir)));
            },
            Some(bytes) => bytes,
        };
        let policy = sandbox_manifest(&plugin_manifest.wasm_config, bytes);
        let answer = match plugin_manifest.wasm_config.memory_max_pages {
            Some(pages) => engine_new_plugin_within(
                &policy,
                host_fns,
                reserved_bytes(pages),
                0,
                PAGE_BYTES,
            ),
            None => engine_new_plugin(&policy, host_fns),
        };
        let built = match answer {
            Ok(plugin) => Ok(plugin),
            Err(e) => Err(engine_error_text(&e)),
        };
        Self::assemble(plugin_manifest, built)
    }

    /// Loads a plugin whose instance can call nothing of the host.
    pub fn load(plugin_manifest: PluginManifest, plugin_dir: &str, module: Option<Vec<u8>>) -> (r:
        Result<Self, LoadError>)
        ensures
            r is Ok ==> {
                &&& r->Ok_0.wf()
                &&& r->Ok_0.manifest_view() == plugin_manifest@
                &&& r->Ok_0.sandbox() == granted(plugin_manifest@.wasm_config)
                &&& r->Ok_0.bridge().len() == 0
            },
            match first_empty_field(plugin_manifest@) {
                Some(field) => r == Err::<PluginLoader, LoadError>(
                    LoadError::ManifestInvalid(ManifestError::EmptyField(field)),
                ),
                None => match module {
                    None => r is Err && r->Err_0 is ModuleNotFound && r->Err_0->ModuleNotFound_0@
                        == join_path(plugin_dir@, plugin_manifest@.wasm_module),
                    Some(_) => r is Ok || (r is Err && r->Err_0 is EngineConstructionFailed),
                },
            },
    {
        Self::load_with_host_functions(plugin_manifest, plugin_dir, module, Vec::new())
    }

    /// What a call returns for each answer of the engine.
    pub fn finish_call(answer: Result<Vec<u8>, String>) -> (r: Result<Vec<u8>, InvocationError>)
        ensures
            r == call_outcome(answer),
    {
        match answer {
            Ok(output) => Ok(output),
            Err(why) => Err(InvocationError::EngineFault(why)),
        }
    }

    /// Calls an entry point with bytes. A name that the plugin does not offer
    /// is refused without a call; else the engine runs the function, and a
    /// fault of it comes back as an error value. The manifest and the entry
    /// points stay as they are.
    pub fn call(&mut self, function: &str, input: &[u8]) -> (r: Result<Vec<u8>, InvocationError>)
        ensures
            final(self).manifest_view() == old(self).manifest_view(),
            final(self).entry_points() == old(self).entry_points(),
            final(self).sandbox() == old(self).sandbox(),
            final(self).bridge() == old(self).bridge(),
            !old(self).entry_points().contains(function@) ==> *final(self) == *old(self) && r is Err
                && r->Err_0 is FunctionNotExported && r->Err_0->FunctionNotExported_0@
                == function@,
            old(self).entry_points().contains(function@) ==> r is Ok || (r is Err && r->Err_0 is EngineFault),
    {
        if !engine_function_exists(&self.plugin, function) {
            return Err(InvocationError::FunctionNotExported(function.to_owned()));
        }
        let answer = match engine_call(&mut self.plugin, function, input) {
            Ok(output) => Ok(output),
            Err(e) => Err(engine_error_text(&e)),
        };
        Self::finish_call(answer)
    }

    /// Whether the plugin offers a function of this name.
    pub fn has_function(&self, function: &str) -> (r: bool)
        ensures
            r == self.entry_points().contains(function@),
    {
        engine_function_exists(&self.plugin, function)
    }

    /// The manifest that the plugin was loaded with.
    pub fn manifest(&self) -> (r: &PluginManifest)
        ensures
            r@ == self.manifest_view(),
    {
        &self.manifest
    }
}

} // verus!
