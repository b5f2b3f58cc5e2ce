//! The registry of loaded plugins: at most one plugin under each name, loaded
//! by the loader and called by name.

use crate::install::{is_safe_name, safe_name, InstallError, InstallPlan};
use crate::loader::{invocation_error_text, InvocationError, LoadError, PluginLoader};
use crate::manifest::{
    first_empty_field, join, join_path, ManifestError, PluginManifest, PluginManifestView,
};
use crate::text::{joined, str_eq};
use vstd::prelude::*;

verus! {

/// Why a call by name failed.
#[derive(Debug)]
pub enum ExecuteError {
    /// No plugin is registered under this name.
    PluginNotFound(String),
    /// The plugin was called, and the call failed.
    Invocation(InvocationError),
}

/// The text of each error of a call by name, as it is shown to a user.
pub open spec fn execute_error_text(e: ExecuteError) -> Seq<char> {
    match e {
        ExecuteError::PluginNotFound(name) => "Plugin not found: "@ + name@,
        ExecuteError::Invocation(why) => invocation_error_text(why),
    }
}

impl ExecuteError {
    /// The error in words.
    pub fn message(&self) -> (r: String)
        ensures
            r@ == execute_error_text(*self),
    {
        match self {
            ExecuteError::PluginNotFound(name) => joined("Plugin not found: ", name.as_str()),
            ExecuteError::Invocation(why) => why.message(),
        }
    }
}

/// The names under which the plugins are registered, in order.
pub open spec fn plugin_names(plugins: Seq<PluginLoader>) -> Seq<Seq<char>> {
    plugins.map_values(|p: PluginLoader| p.manifest_view().name)
}

/// The manifests of the plugins, in order.
pub open spec fn plugin_manifests(plugins: Seq<PluginLoader>) -> Seq<PluginManifestView> {
    plugins.map_values(|p: PluginLoader| p.manifest_view())
}

/// No name is registered twice, every manifest has passed validation, and
/// every instance runs in the sandbox that its manifest declares.
pub open spec fn registry_wf(plugins: Seq<PluginLoader>) -> bool {
    &&& plugin_names(plugins).no_duplicates()
    &&& forall|i: int| 0 <= i < plugins.len() ==> (#[trigger] plugins[i]).wf()
}

/// Whether a plugin is registered under this name.
pub open spec fn is_registered(plugins: Seq<PluginLoader>, name: Seq<char>) -> bool {
    plugin_names(plugins).contains(name)
}

/// The place of the plugin of this name, which must be registered.
pub open spec fn registered_index(plugins: Seq<PluginLoader>, name: Seq<char>) -> int {
    plugin_names(plugins).index_of(name)
}

/// The registry after `loader` has been registered: it stands in the place of
/// the plugin of its name, or last where the name is new.
pub open spec fn registered(plugins: Seq<PluginLoader>, loader: PluginLoader) -> Seq<PluginLoader> {
    let name = loader.manifest_view().name;
    if is_registered(plugins, name) {
        plugins.update(registered_index(plugins, name), loader)
    } else {
        plugins.push(loader)
    }
}

/// In a well-formed registry, a plugin's name leads back to its place.
pub proof fn lemma_registered_index(plugins: Seq<PluginLoader>, i: int)
    requires
        plugin_names(plugins).no_duplicates(),
        0 <= i < plugins.len(),
    ensures
        is_registered(plugins, plugins[i].manifest_view().name),
        registered_index(plugins, plugins[i].manifest_view().name) == i,
{
    let names = plugin_names(plugins);
    let name = plugins[i].manifest_view().name;
    assert(names[i] == name);
    let j = names.index_of(name);
    assert(0 <= j < names.len() && names[j] == name);
}

/// Registering keeps a registry well-formed: the plugin is then registered
/// under its name, in one place, and the other plugins are as before.
pub proof fn lemma_registered(plugins: Seq<PluginLoader>, loader: PluginLoader)
    requires
        registry_wf(plugins),
        loader.wf(),
    ensures
        registry_wf(registered(plugins, loader)),
        is_registered(registered(plugins, loader), loader.manifest_view().name),
        registered(plugins, loader)[registered_index(
            registered(plugins, loader),
            loader.manifest_view().name,
        )] == loader,
        forall|name: Seq<char>|
            name != loader.manifest_view().name ==> (is_registered(plugins, name) <==> is_registered(
                registered(plugins, loader),
                name,
            )),
{
    let name = loader.manifest_view().name;
    let after = registered(plugins, loader);
    let names = plugin_names(plugins);
    if is_registered(plugins, name) {
        let i = registered_index(plugins, name);
        assert(0 <= i < names.len() && names[i] == name);
        assert(plugin_names(after) =~= names) by {
            assert forall|a: int| 0 <= a < after.len() implies plugin_names(after)[a] == names[a] by {
                if a != i {
                    assert(after[a] == plugins[a]);
                }
            }
        }
        assert forall|a: int| 0 <= a < after.len() implies (#[trigger] after[a]).wf() by {
            if a != i {
                assert(after[a] == plugins[a]);
            }
        }
        assert(after[i] == loader);
        lemma_registered_index(after, i);
    } else {
        assert(plugin_names(after) =~= names.push(name));
        assert forall|a: int| 0 <= a < after.len() implies (#[trigger] after[a]).wf() by {
            if a < plugins.len() {
                assert(after[a] == plugins[a]);
            }
        }
        let i = plugins.len() as int;
        assert(after[i] == loader);
        lemma_registered_index(after, i);
        assert forall|other: Seq<char>| other != name implies (is_registered(plugins, other)
            <==> is_registered(after, other)) by {
            if is_registered(after, other) {
                let a = plugin_names(after).index_of(other);
                assert(0 <= a < after.len() && plugin_names(after)[a] == other);
                assert(names[a] == other);
            }
            if is_registered(plugins, other) {
                let a = names.index_of(other);
                assert(0 <= a < names.len() && names[a] == other);
                assert(plugin_names(after)[a] == other);
            }
        }
    }
}

/// Loading a name twice leaves one plugin under it, the second: the registry
/// is as long as after the first load, the name stands in exactly one place,
/// and what stands there is the second plugin.
pub proof fn lemma_reload_replaces(plugins: Seq<PluginLoader>, first: PluginLoader, second: PluginLoader)
    requires
        registry_wf(plugins),
        first.wf(),
        second.wf(),
        first.manifest_view().name == second.manifest_view().name,
    ensures
        registry_wf(registered(registered(plugins, first), second)),
        registered(registered(plugins, first), second).len() == registered(plugins, first).len(),
        registered(registered(plugins, first), second) == registered(plugins, second),
        forall|i: int|
            0 <= i < registered(plugins, second).len() && (#[trigger] registered(
                plugins,
                second,
            )[i]).manifest_view().name == second.manifest_view().name ==> i == registered_index(
                registered(plugins, second),
                second.manifest_view().name,
            ) && registered(plugins, second)[i] == second,
{
    let name = first.manifest_view().name;
    let once = registered(plugins, first);
    let twice = registered(once, second);
    lemma_registered(plugins, first);
    lemma_registered(once, second);
    lemma_registered(plugins, second);
    let names = plugin_names(plugins);
    if is_registered(plugins, name) {
        let i = registered_index(plugins, name);
        assert(0 <= i < names.len() && names[i] == name);
        assert(plugin_names(once)[i] == name);
        lemma_registered_index(once, i);
        assert(twice =~= plugins.update(i, second));
    } else {
        let i = plugins.len() as int;
        assert(once[i] == first);
        lemma_registered_index(once, i);
        assert(twice =~= plugins.push(second));
    }
    let after = registered(plugins, second);
    assert forall|a: int| 0 <= a < after.len() && (#[trigger] after[a]).manifest_view().name
        == name implies a == registered_index(after, name) && after[a] == second by {
        lemma_registered_index(after, a);
    }
}

/// What was found in one directory below the plugins' root: the directory,
/// the manifest that was read there or why none could be read, the bytes at
/// the manifest's module location, or nothing where no file lies there, and
/// the host functions that the plugin may call.
pub struct PluginCandidate {
    pub dir: String,
    pub manifest: Result<PluginManifest, ManifestError>,
    pub module: Option<Vec<u8>>,
    pub host_functions: Vec<extism::Function>,
}

/// What a scan has done with each candidate, in the order of the candidates.
#[derive(Debug)]
pub struct DiscoveryReport {
    pub outcomes: Vec<Result<(), LoadError>>,
}

/// How many of the outcomes are successes.
pub open spec fn count_loaded(outcomes: Seq<Result<(), LoadError>>) -> nat
    decreases outcomes.len(),
{
    if outcomes.len() == 0 {
        0
    } else {
        count_loaded(outcomes.drop_last()) + if outcomes.last() is Ok {
            1nat
        } else {
            0nat
        }
    }
}

/// A scan counts no more plugins than it has seen candidates.
pub proof fn lemma_count_loaded_bound(outcomes: Seq<Result<(), LoadError>>)
    ensures
        count_loaded(outcomes) <= outcomes.len(),
    decreases outcomes.len(),
{
    if outcomes.len() > 0 {
        lemma_count_loaded_bound(outcomes.drop_last());
    }
}

/// What the scan owes a candidate: an unreadable or invalid manifest and a
/// missing module are failures; else the engine decides.
pub open spec fn outcome_fits(candidate: PluginCandidate, outcome: Result<(), LoadError>) -> bool {
    match candidate.manifest {
        Err(e) => outcome == Err::<(), LoadError>(LoadError::ManifestInvalid(e)),
        Ok(manifest) => match first_empty_field(manifest@) {
            Some(field) => outcome == Err::<(), LoadError>(
                LoadError::ManifestInvalid(ManifestError::EmptyField(field)),
            ),
            None => match candidate.module {
                None => outcome is Err && outcome->Err_0 is ModuleNotFound
                    && outcome->Err_0->ModuleNotFound_0@ == join_path(
                    candidate.dir@,
                    manifest@.wasm_module,
                ),
                Some(_) => outcome is Ok || (outcome is Err && outcome->Err_0 is EngineConstructionFailed),
            },
        },
    }
}

/// The place of the last of the first `n` candidates that was loaded under
/// this name, or -1 where none of them was.
pub open spec fn last_loaded(
    candidates: Seq<PluginCandidate>,
    outcomes: Seq<Result<(), LoadError>>,
    n: int,
    name: Seq<char>,
) -> int
    decreases n,
{
    if n <= 0 {
        -1
    } else if outcomes[n - 1] is Ok && candidates[n - 1].manifest is Ok
        && candidates[n - 1].manifest->Ok_0@.name == name {
        n - 1
    } else {
        last_loaded(candidates, outcomes, n - 1, name)
    }
}

/// The last candidate that was loaded under a name is one of the candidates,
/// was loaded, and bears the name.
pub proof fn lemma_last_loaded(
    candidates: Seq<PluginCandidate>,
    outcomes: Seq<Result<(), LoadError>>,
    n: int,
    name: Seq<char>,
)
    ensures
        -1 <= last_loaded(candidates, outcomes, n, name),
        n > 0 ==> last_loaded(candidates, outcomes, n, name) < n,
        n <= 0 ==> last_loaded(candidates, outcomes, n, name) == -1,
        last_loaded(candidates, outcomes, n, name) >= 0 ==> {
            let at = last_loaded(candidates, outcomes, n, name);
            &&& outcomes[at] is Ok
            &&& candidates[at].manifest is Ok
            &&& candidates[at].manifest->Ok_0@.name == name
        },
    decreases n,
{
    if n > 0 {
        lemma_last_loaded(candidates, outcomes, n - 1, name);
    }
}

/// Which candidate was loaded last under a name is a matter of the outcomes
/// up to `n` alone.
proof fn lemma_last_loaded_prefix(
    candidates: Seq<PluginCandidate>,
    first: Seq<Result<(), LoadError>>,
    second: Seq<Result<(), LoadError>>,
    n: int,
    name: Seq<char>,
)
    requires
        forall|i: int| 0 <= i < n ==> first[i] == second[i],
    ensures
        last_loaded(candidates, first, n, name) == last_loaded(candidates, second, n, name),
    decreases n,
{
    if n > 0 {
        lemma_last_loaded_prefix(candidates, first, second, n - 1, name);
    }
}

/// The manifest of the plugin that is registered under a name.
pub open spec fn manifest_under(plugins: Seq<PluginLoader>, name: Seq<char>) -> PluginManifestView {
    plugins[registered_index(plugins, name)].manifest_view()
}

/// Registering a plugin leaves the plugins of other names in their places.
pub proof fn lemma_registered_keeps_others(plugins: Seq<PluginLoader>, loader: PluginLoader, name: Seq<char>)
    requires
        registry_wf(plugins),
        loader.wf(),
        name != loader.manifest_view().name,
        is_registered(plugins, name),
    ensures
        is_registered(registered(plugins, loader), name),
        registered_index(registered(plugins, loader), name) == registered_index(plugins, name),
        registered(plugins, loader)[registered_index(plugins, name)] == plugins[registered_index(
            plugins,
            name,
        )],
{
    let after = registered(plugins, loader);
    let names = plugin_names(plugins);
    let at = registered_index(plugins, name);
    assert(0 <= at < names.len() && names[at] == name);
    lemma_registered(plugins, loader);
    assert(after[at] == plugins[at]) by {
        if is_registered(plugins, loader.manifest_view().name) {
            let i = registered_index(plugins, loader.manifest_view().name);
            assert(0 <= i < names.len() && names[i] == loader.manifest_view().name);
        }
    }
    lemma_registered_index(after, at);
}

impl DiscoveryReport {
    /// How many plugins the scan has loaded.
    pub fn loaded(&self) -> (r: usize)
        ensures
            r == count_loaded(self.outcomes@),
    {
        let mut n: usize = 0;
        let mut i: usize = 0;
        assert(self.outcomes@.take(0) =~= Seq::empty());
        while i < self.outcomes.len()
            invariant
                i <= self.outcomes.len(),
                n == count_loaded(self.outcomes@.take(i as int)),
                n <= i,
            decreases self.outcomes.len() - i,
        {
            proof {
                let next = self.outcomes@.take(i + 1);
                assert(next.drop_last() =~= self.outcomes@.take(i as int));
                assert(next.last() == self.outcomes@[i as int]);
            }
            if self.outcomes[i].is_ok() {
                n = n + 1;
            }
            i = i + 1;
        }
        assert(self.outcomes@.take(self.outcomes@.len() as int) =~= self.outcomes@);
        n
    }
}

/// The name of the directory that is left behind when a plugin is copied.
pub const VERSION_CONTROL_DIR: &'static str = ".git";

/// Whether an entry of a directory is copied when a plugin is installed from
/// the directory: every entry but the metadata of version control.
pub fn copies_entry(name: &str) -> (r: bool)
    ensures
        r == (name@ != VERSION_CONTROL_DIR@),
{
    !str_eq(name, VERSION_CONTROL_DIR)
}

/// The registry of loaded plugins. It keeps the directory below which the
/// plugins are installed, and the loaded plugins in the order in which their
/// names were first registered.
///
/// Whatever changes the registry or calls a plugin takes the registry alone:
/// no two calls into the same instance run at the same time, and neither do
/// calls into two instances. Listing and looking up share it.
pub struct PluginManager {
    plugins_dir: String,
    plugins: Vec<PluginLoader>,
}

impl PluginManager {
    /// The loaded plugins, in the order in which their names were first
    /// registered.
    pub closed spec fn plugins(&self) -> Seq<PluginLoader> {
        self.plugins@
    }

    /// The directory below which plugins are installed.
    pub closed spec fn root(&self) -> Seq<char> {
        self.plugins_dir@
    }

    /// The registry is well-formed: see `registry_wf`.
    pub open spec fn wf(&self) -> bool {
        registry_wf(self.plugins())
    }

    /// An empty registry for the plugins below `plugins_dir`.
    pub fn new(plugins_dir: String) -> (r: Self)
        ensures
            r.wf(),
            r.plugins() == Seq::<PluginLoader>::empty(),
            r.root() == plugins_dir@,
    {
        let r = PluginManager { plugins_dir, plugins: Vec::new() };
        assert(plugin_names(r.plugins()) =~= Seq::empty());
        r
    }

    /// The directory in which the plugin of this name is installed.
    pub fn plugin_dir(&self, name: &str) -> (r: String)
        ensures
            r@ == join_path(self.root(), name@),
    {
        join(self.plugins_dir.as_str(), name)
    }

    /// The place of the plugin of this name, if one is registered.
    fn find(&self, name: &str) -> (r: Option<usize>)
        requires
            self.wf(),
        ensures
            match r {
                Some(i) => i < self.plugins().len() && is_registered(self.plugins(), name@)
                    && registered_index(self.plugins(), name@) == i,
                None => !is_registered(self.plugins(), name@),
            },
    {
        let mut i: usize = 0;
        while i < self.plugins.len()
            invariant
                i <= self.plugins.len(),
                self.wf(),
                forall|j: int| 0 <= j < i ==> plugin_names(self.plugins())[j] != name@,
            decreases self.plugins.len() - i,
        {
            if str_eq(self.plugins[i].manifest().name.as_str(), name) {
                proof {
                    lemma_registered_index(self.plugins(), i as int);
                }
                return Some(i);
            }
            i = i + 1;
        }
        None
    }

    /// Registers a loaded plugin under its name, in place of the plugin that
    /// was registered under that name, which is dropped.
    pub fn register(&mut self, loader: PluginLoader)
        requires
            old(self).wf(),
            loader.wf(),
        ensures
            final(self).wf(),
            final(self).plugins() == registered(old(self).plugins(), loader),
            final(self).root() == old(self).root(),
    {
        proof {
            lemma_registered(self.plugins(), loader);
        }
        match self.find(loader.manifest().name.as_str()) {
            Some(i) => {
                self.plugins.set(i, loader);
            },
            None => {
                self.plugins.push(loader);
            },
        }
    }

    /// Loads a plugin that may call the given host functions, and registers
    /// it under its manifest's name. `module` holds the bytes that lie at the
    /// manifest's module location below `plugin_dir`, or nothing where no file
    /// lies there. Where the load fails, the registry stays as it is.
    pub fn load_plugin_from_manifest(
        &mut self,
        manifest: PluginManifest,
        plugin_dir: &str,
        module: Option<Vec<u8>>,
        host_fns: Vec<extism::Function>,
    ) -> (r: Result<(), LoadError>)
        requires
            old(self).wf(),
        ensures
            final(self).wf(),
            final(self).root() == old(self).root(),
            r is Err ==> final(self).plugins() == old(self).plugins(),
            r is Ok ==> {
                &&& is_registered(final(self).plugins(), manifest@.name)
                &&& final(self).plugins()[registered_index(
                    final(self).plugins(),
                    manifest@.name,
                )].manifest_view() == manifest@
                &&& final(self).plugins() == registered(
                    old(self).plugins(),
                    final(self).plugins()[registered_index(final(self).plugins(), manifest@.name)],
                )
            },
            match first_empty_field(manifest@) {
                Some(field) => r == Err::<(), LoadError>(
                    LoadError::ManifestInvalid(ManifestError::EmptyField(field)),
                ),
                None => match module {
                    None => r is Err && r->Err_0 is ModuleNotFound && r->Err_0->ModuleNotFound_0@
                        == join_path(plugin_dir@, manifest@.wasm_module),
                    Some(_) => r is Ok || (r is Err && r->Err_0 is EngineConstructionFailed),
                },
            },
    {
        match PluginLoader::load_with_host_functions(manifest, plugin_dir, module, host_fns) {
            Ok(loader) => {
                proof {
                    lemma_registered(self.plugins(), loader);
                }
                self.register(loader);
                Ok(())
            },
            Err(e) => Err(e),
        }
    }

    /// Calls an entry point of the plugin registered under `plugin_name`.
    /// Where no plugin is registered under the name, nothing is called and
    /// the registry stays as it is. Else the call goes to the plugin that
    /// stands under the name and to no other, and what it returns, output or
    /// error, is handed on unchanged. The registered names and manifests
    /// stay as they are.
    pub fn execute_plugin(&mut self, plugin_name: &str, function: &str, input: &[u8]) -> (r: Result<
        Vec<u8>,
        ExecuteError,
    >)
        requires
            old(self).wf(),
        ensures
            final(self).wf(),
            final(self).root() == old(self).root(),
            plugin_manifests(final(self).plugins()) == plugin_manifests(old(self).plugins()),
            !is_registered(old(self).plugins(), plugin_name@) ==> {
                &&& final(self).plugins() == old(self).plugins()
                &&& r is Err
                &&& r->Err_0 is PluginNotFound
                &&& r->Err_0->PluginNotFound_0@ == plugin_name@
            },
            is_registered(old(self).plugins(), plugin_name@) ==> {
                let i = registered_index(old(self).plugins(), plugin_name@);
                let target = old(self).plugins()[i];
                &&& final(self).plugins().len() == old(self).plugins().len()
                &&& forall|j: int|
                    0 <= j < old(self).plugins().len() && j != i ==> final(self).plugins()[j] == old(
                        self,
                    ).plugins()[j]
                &&& final(self).plugins()[i].entry_points() == target.entry_points()
                &&& !target.entry_points().contains(function@) ==> {
                    &&& final(self).plugins() == old(self).plugins()
                    &&& r is Err
                    &&& r->Err_0 is Invocation
                    &&& r->Err_0->Invocation_0 is FunctionNotExported
                    &&& r->Err_0->Invocation_0->FunctionNotExported_0@ == function@
                }
                &&& target.entry_points().contains(function@) ==> r is Ok || (r is Err && r->Err_0 is Invocation
                    && r->Err_0->Invocation_0 is EngineFault)
            },
    {
        let ghost before = self.plugins();
        match self.find(plugin_name) {
            None => Err(ExecuteError::PluginNotFound(plugin_name.to_owned())),
            Some(i) => {
                let answer = self.plugins[i].call(function, input);
                proof {
                    let after = self.plugins();
                    assert(plugin_manifests(after) =~= plugin_manifests(before));
                    assert(plugin_names(after) =~= plugin_names(before));
                    assert forall|j: int| 0 <= j < after.len() implies (#[trigger] after[j]).wf() by {
                        assert(before[j].wf());
                        assert(plugin_manifests(after)[j] == plugin_manifests(before)[j]);
                        if j != i {
                            assert(after[j] == before[j]);
                        }
                    }
                    if !before[i as int].entry_points().contains(function@) {
                        assert(after =~= before);
                    }
                }
                match answer {
                    Ok(output) => Ok(output),
                    Err(e) => Err(ExecuteError::Invocation(e)),
                }
            },
        }
    }

    /// Snapshots of the manifests of the loaded plugins, in the order of the
    /// registry.
    pub fn list_plugins(&self) -> (r: Vec<PluginManifest>)
        ensures
            r.deep_view() == plugin_manifests(self.plugins()),
    {
        let mut r: Vec<PluginManifest> = Vec::new();
        let mut i: usize = 0;
        while i < self.plugins.len()
            invariant
                i <= self.plugins.len(),
                r.len() == i,
                forall|j: int| 0 <= j < i ==> (#[trigger] r[j])@ == self.plugins()[j].manifest_view(),
            decreases self.plugins.len() - i,
        {
            r.push(self.plugins[i].manifest().clone());
            i = i + 1;
        }
        assert(r.deep_view() =~= plugin_manifests(self.plugins()));
        r
    }

    /// A snapshot of the manifest of the plugin registered under `name`, if
    /// there is one.
    pub fn get_plugin(&self, name: &str) -> (r: Option<PluginManifest>)
        requires
            self.wf(),
        ensures
            match r {
                Some(manifest) => is_registered(self.plugins(), name@) && manifest@
                    == self.plugins()[registered_index(self.plugins(), name@)].manifest_view(),
                None => !is_registered(self.plugins(), name@),
            },
    {
        match self.find(name) {
            Some(i) => Some(self.plugins[i].manifest().clone()),
            None => None,
        }
    }

    /// Tries to load each candidate, in order, and goes on after a failure:
    /// the report holds one outcome for each candidate. Under each name the
    /// registry then holds what the last candidate that was loaded under the
    /// name brought; a plugin under whose name no candidate was loaded stays
    /// as it is.
    pub fn discover_plugins(&mut self, candidates: Vec<PluginCandidate>) -> (r: DiscoveryReport)
        requires
            old(self).wf(),
        ensures
            final(self).wf(),
            final(self).root() == old(self).root(),
            r.outcomes.len() == candidates.len(),
            forall|i: int|
                0 <= i < candidates.len() ==> outcome_fits(candidates[i], #[trigger] r.outcomes[i]),
            forall|name: Seq<char>|
                is_registered(final(self).plugins(), name) <==> is_registered(
                    old(self).plugins(),
                    name,
                ) || last_loaded(candidates@, r.outcomes@, candidates.len() as int, name) >= 0,
            forall|name: Seq<char>| #[trigger]
                is_registered(final(self).plugins(), name) ==> {
                    let last = last_loaded(candidates@, r.outcomes@, candidates.len() as int, name);
                    if last >= 0 {
                        manifest_under(final(self).plugins(), name) == candidates[last].manifest->Ok_0@
                    } else {
                        final(self).plugins()[registered_index(final(self).plugins(), name)] == old(
                            self,
                        ).plugins()[registered_index(old(self).plugins(), name)]
                    }
                },
    {
        let ghost all = candidates@;
        let ghost before = self.plugins();
        let mut rest = candidates;
        let mut outcomes: Vec<Result<(), LoadError>> = Vec::new();
        while rest.len() > 0
            invariant
                self.wf(),
                self.root() == old(self).root(),
                outcomes.len() + rest.len() == all.len(),
                rest@ == all.skip(outcomes.len() as int),
                forall|i: int| 0 <= i < outcomes.len() ==> outcome_fits(all[i], #[trigger] outcomes[i]),
                forall|name: Seq<char>|
                    is_registered(self.plugins(), name) <==> is_registered(before, name)
                        || last_loaded(all, outcomes@, outcomes.len() as int, name) >= 0,
                forall|name: Seq<char>| #[trigger]
                    is_registered(self.plugins(), name) ==> {
                        let last = last_loaded(all, outcomes@, outcomes.len() as int, name);
                        if last >= 0 {
                            manifest_under(self.plugins(), name) == all[last].manifest->Ok_0@
                        } else {
                            self.plugins()[registered_index(self.plugins(), name)]
                                == before[registered_index(before, name)]
                        }
                    },
            decreases rest.len(),
        {
            let ghost done = outcomes.len() as int;
            let ghost mid = self.plugins();
            let ghost seen = outcomes@;
            let candidate = rest.remove(0);
            assert(candidate == all[done]);
            assert(rest@ =~= all.skip(done + 1));
            let outcome = match candidate.manifest {
                Err(e) => Err(LoadError::ManifestInvalid(e)),
                Ok(manifest) => self.load_plugin_from_manifest(
                    manifest,
                    candidate.dir.as_str(),
                    candidate.module,
                    candidate.host_functions,
                ),
            };
            proof {
                let after = self.plugins();
                let next = seen.push(outcome);
                assert(next[done] == outcome);
                assert forall|name: Seq<char>|
                    (is_registered(after, name) <==> is_registered(before, name) || last_loaded(
                        all,
                        next,
                        done + 1,
                        name,
                    ) >= 0) && (is_registered(after, name) ==> {
                        let last = last_loaded(all, next, done + 1, name);
                        if last >= 0 {
                            manifest_under(after, name) == all[last].manifest->Ok_0@
                        } else {
                            after[registered_index(after, name)] == before[registered_index(before, name)]
                        }
                    }) by {
                    lemma_last_loaded_prefix(all, next, seen, done, name);
                    lemma_last_loaded(all, seen, done, name);
                    assert(is_registered(mid, name) <==> is_registered(before, name) || last_loaded(
                        all,
                        seen,
                        done,
                        name,
                    ) >= 0);
                    if outcome is Ok {
                        let loaded = candidate.manifest->Ok_0@.name;
                        let names = plugin_names(after);
                        let at = registered_index(after, loaded);
                        assert(names.contains(loaded));
                        assert(0 <= at < names.len() && names[at] == loaded);
                        let l = after[at];
                        assert(l.wf());
                        assert(after == registered(mid, l));
                        lemma_registered(mid, l);
                        if name != loaded && is_registered(mid, name) {
                            lemma_registered_keeps_others(mid, l, name);
                        }
                    } else {
                        assert(after == mid);
                    }
                }
            }
            outcomes.push(outcome);
        }
        let r = DiscoveryReport { outcomes };
        proof {
            let n = candidates.len() as int;
            assert(n == r.outcomes@.len());
            assert(all == candidates@);
            assert(before == old(self).plugins());
        }
        r
    }

    /// What an installation owes its caller, for the plugin named `name` with
    /// this manifest and module: a name that cannot name a directory is
    /// refused; else the plugin is loaded from its directory below the
    /// plugins' root, and a failure to load is the installation's failure.
    pub open spec fn install_fits(
        &self,
        name: Seq<char>,
        manifest: PluginManifestView,
        module: Option<Vec<u8>>,
        r: Result<(), InstallError>,
    ) -> bool {
        if !safe_name(name) {
            r is Err && r->Err_0 is InvalidDestination && r->Err_0->InvalidDestination_0@ == name
        } else {
            match first_empty_field(manifest) {
                Some(field) => r == Err::<(), InstallError>(
                    InstallError::Load(LoadError::ManifestInvalid(ManifestError::EmptyField(field))),
                ),
                None => match module {
                    None => r is Err && r->Err_0 is Load && r->Err_0->Load_0 is ModuleNotFound
                        && r->Err_0->Load_0->ModuleNotFound_0@ == join_path(
                        join_path(self.root(), name),
                        manifest.wasm_module,
                    ),
                    Some(_) => r is Ok || (r is Err && r->Err_0 is Load && r->Err_0->Load_0 is EngineConstructionFailed),
                },
            }
        }
    }

    /// Loads and registers a plugin that was stored in the directory that
    /// `name` names below the plugins' root. Where it fails, the registry
    /// stays as it is.
    fn install(
        &mut self,
        name: &str,
        manifest: PluginManifest,
        module: Option<Vec<u8>>,
        host_fns: Vec<extism::Function>,
    ) -> (r: Result<(), InstallError>)
        requires
            old(self).wf(),
        ensures
            final(self).wf(),
            final(self).root() == old(self).root(),
            old(self).install_fits(name@, manifest@, module, r),
            r is Err ==> final(self).plugins() == old(self).plugins(),
            r is Ok ==> {
                &&& is_registered(final(self).plugins(), manifest@.name)
                &&& final(self).plugins()[registered_index(
                    final(self).plugins(),
                    manifest@.name,
                )].manifest_view() == manifest@
                &&& final(self).plugins() == registered(
                    old(self).plugins(),
                    final(self).plugins()[registered_index(final(self).plugins(), manifest@.name)],
                )
            },
    {
        if !is_safe_name(name) {
            return Err(InstallError::InvalidDestination(name.to_owned()));
        }
        let dir = self.plugin_dir(name);
        match self.load_plugin_from_manifest(manifest, dir.as_str(), module, host_fns) {
            Ok(()) => Ok(()),
            Err(e) => Err(InstallError::Load(e)),
        }
    }

    /// Completes the installation of a plugin that was copied from a
    /// directory into the directory of its manifest's name below the plugins'
    /// root: the plugin is loaded from there and registered, in place of an
    /// earlier plugin of its name. `module` holds the bytes at the manifest's
    /// module location there, or nothing where no file lies there; the plugin
    /// may call the given host functions.
    pub fn install_plugin(
        &mut self,
        manifest: PluginManifest,
        module: Option<Vec<u8>>,
        host_fns: Vec<extism::Function>,
    ) -> (r: Result<(), InstallError>)
        requires
            old(self).wf(),
        ensures
            final(self).wf(),
            final(self).root() == old(self).root(),
            old(self).install_fits(manifest@.name, manifest@, module, r),
            r is Err ==> final(self).plugins() == old(self).plugins(),
            r is Ok ==> {
                &&& is_registered(final(self).plugins(), manifest@.name)
                &&& final(self).plugins()[registered_index(
                    final(self).plugins(),
                    manifest@.name,
                )].manifest_view() == manifest@
                &&& final(self).plugins() == registered(
                    old(self).plugins(),
                    final(self).plugins()[registered_index(final(self).plugins(), manifest@.name)],
                )
            },
    {
        let name = manifest.name.clone();
        self.install(name.as_str(), manifest, module, host_fns)
    }

    /// Completes the installation of a plugin that came from a URL, once what
    /// the plan asks for has been fetched and stored: the plan's manifest is
    /// loaded from the directory that the plan names below the plugins' root
    /// and registered, in place of an earlier plugin of its name. `module`
    /// holds the module's bytes, or nothing where none could be had; the
    /// plugin may call the given host functions.
    pub fn install_plugin_from_url(
        &mut self,
        plan: InstallPlan,
        module: Option<Vec<u8>>,
        host_fns: Vec<extism::Function>,
    ) -> (r: Result<(), InstallError>)
        requires
            old(self).wf(),
        ensures
            final(self).wf(),
            final(self).root() == old(self).root(),
            old(self).install_fits(plan.plugin_name@, plan.manifest@, module, r),
            r is Err ==> final(self).plugins() == old(self).plugins(),
            r is Ok ==> {
                &&& is_registered(final(self).plugins(), plan.manifest@.name)
                &&& final(self).plugins()[registered_index(
                    final(self).plugins(),
                    plan.manifest@.name,
                )].manifest_view() == plan.manifest@
                &&& final(self).plugins() == registered(
                    old(self).plugins(),
                    final(self).plugins()[registered_index(
                        final(self).plugins(),
                        plan.manifest@.name,
                    )],
                )
            },
    {
        self.install(plan.plugin_name.as_str(), plan.manifest, module, host_fns)
    }

    /// The number of loaded plugins.
    pub fn plugin_count(&self) -> (r: usize)
        ensures
            r == self.plugins().len(),
    {
        self.plugins.len()
    }
}

} // verus!
