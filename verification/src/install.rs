//! Installation: what to store and what to load for a plugin that comes from a
//! URL, and the functions that a module exports.

use crate::loader::{load_error_text, LoadError};
use crate::manifest::{
    empty_config, is_valid, manifest_error_text, EntryPoint, EntryPointView, ManifestError,
    PluginManifest, PluginManifestView,
};
use crate::text::{
    chars_of, ends_with, joined, last_segment, last_segment_of, lemma_last_segment,
    lemma_trim_suffix, starts_with, trim_suffix, trim_suffix_of,
};
use vstd::prelude::*;

verus! {

/// `wasmparser::ExternalKind`: what an export of a module is, with its
/// variants as the crate declares them.
#[verifier::external_type_specification]
pub struct ExExternalKind(wasmparser::ExternalKind);

/// What `wasmparser` reads in a module, from the first byte on: the name and
/// kind of each export that it can read, in the order of the module, and
/// whether it could read the whole module.
pub uninterp spec fn wasm_scan(bytes: Seq<u8>) -> (Seq<(Seq<char>, wasmparser::ExternalKind)>, bool);

/// The names and kinds of a list of exports.
pub open spec fn exports_view(exports: Seq<(String, wasmparser::ExternalKind)>) -> Seq<
    (Seq<char>, wasmparser::ExternalKind),
> {
    exports.map_values(|e: (String, wasmparser::ExternalKind)| (e.0@, e.1))
}

/// `Parser::parse_all` from offset 0, and the reader of each export section
/// that it yields: the exports in the order in which they are read, and
/// whether every payload and every export could be read.
#[verifier::external_body]
fn scan_module(bytes: &[u8]) -> (r: (Vec<(String, wasmparser::ExternalKind)>, bool))
    ensures
        exports_view(r.0@) == wasm_scan(bytes@).0,
        r.1 == wasm_scan(bytes@).1,
{
    let mut found = Vec::new();
    let mut complete = true;
    for payload in wasmparser::Parser::new(0).parse_all(bytes) {
        match payload {
            Ok(wasmparser::Payload::ExportSection(reader)) => for export in reader {
                match export {
                    Ok(e) => found.push((e.name.to_string(), e.kind)),
                    Err(_) => complete = false,
                }
            },
            Ok(_) => {},
            Err(_) => complete = false,
        }
    }
    (found, complete)
}

/// The names of the exports that are functions, in order.
pub open spec fn function_names_of(exports: Seq<(Seq<char>, wasmparser::ExternalKind)>) -> Seq<Seq<char>>
    decreases exports.len(),
{
    if exports.len() == 0 {
        Seq::empty()
    } else {
        let rest = function_names_of(exports.drop_last());
        if exports.last().1 is Func {
            rest.push(exports.last().0)
        } else {
            rest
        }
    }
}

/// The names of the exports that are functions, in order.
pub fn function_exports(exports: &Vec<(String, wasmparser::ExternalKind)>) -> (r: Vec<String>)
    ensures
        r.deep_view() == function_names_of(exports_view(exports@)),
{
    let ghost all = exports_view(exports@);
    let mut r: Vec<String> = Vec::new();
    let mut i: usize = 0;
    assert(all.take(0) =~= Seq::empty());
    assert(r.deep_view() =~= Seq::empty());
    while i < exports.len()
        invariant
            i <= exports.len(),
            all == exports_view(exports@),
            r.deep_view() == function_names_of(all.take(i as int)),
        decreases exports.len() - i,
    {
        let ghost before = r.deep_view();
        proof {
            let next = all.take(i + 1);
            assert(next.drop_last() =~= all.take(i as int));
            assert(next.last() == (exports[i as int].0@, exports[i as int].1));
        }
        match exports[i].1 {
            wasmparser::ExternalKind::Func => {
                r.push(exports[i].0.clone());
                assert(r.deep_view() =~= before.push(exports[i as int].0@));
            },
            _ => {},
        }
        i = i + 1;
    }
    assert(all.take(all.len() as int) =~= all);
    r
}

/// The functions that a module exports, in the order of the module, as far
/// as the module can be read.
pub fn extract_wasm_exports(wasm_bytes: &[u8]) -> (r: Vec<String>)
    ensures
        r.deep_view() == function_names_of(wasm_scan(wasm_bytes@).0),
{
    let scan = scan_module(wasm_bytes);
    function_exports(&scan.0)
}

/// Why an installation failed.
#[derive(Debug)]
pub enum InstallError {
    /// The content could not be fetched; the text says why.
    FetchFailed(String),
    /// The plugin's name cannot name a directory below the plugins' root.
    InvalidDestination(String),
    /// The module could not be read to its end.
    ExportIntrospectionFailed(String),
    /// The manifest is refused.
    Manifest(ManifestError),
    /// The plugin was stored, and could not be loaded.
    Load(LoadError),
}

/// The text of each installation error, as it is shown to a user.
pub open spec fn install_error_text(e: InstallError) -> Seq<char> {
    match e {
        InstallError::FetchFailed(why) => "Failed to fetch plugin from URL: "@ + why@,
        InstallError::InvalidDestination(name) => "Invalid plugin directory name: "@ + name@,
        InstallError::ExportIntrospectionFailed(url) => "Failed to read the exports of the module from "@
            + url@,
        InstallError::Manifest(why) => manifest_error_text(why),
        InstallError::Load(why) => load_error_text(why),
    }
}

impl InstallError {
    /// The error in words.
    pub fn message(&self) -> (r: String)
        ensures
            r@ == install_error_text(*self),
    {
        match self {
            InstallError::FetchFailed(why) => joined("Failed to fetch plugin from URL: ", why.as_str()),
            InstallError::InvalidDestination(name) => joined(
                "Invalid plugin directory name: ",
                name.as_str(),
            ),
            InstallError::ExportIntrospectionFailed(url) => joined(
                "Failed to read the exports of the module from ",
                url.as_str(),
            ),
            InstallError::Manifest(why) => why.message(),
            InstallError::Load(why) => why.message(),
        }
    }
}

/// What a URL names.
#[derive(Debug, Clone, Copy, PartialEq, Eq, Structural)]
pub enum UrlKind {
    /// A module: the URL ends with `.wasm`.
    Module,
    /// A manifest document: any other URL.
    ManifestDocument,
}

/// What a URL names, by its ending.
pub open spec fn url_kind(url: Seq<char>) -> UrlKind {
    if ".wasm"@.is_suffix_of(url) {
        UrlKind::Module
    } else {
        UrlKind::ManifestDocument
    }
}

/// What a URL names, by its ending.
pub fn classify_url(url: &str) -> (r: UrlKind)
    ensures
        r == url_kind(url@),
{
    if ends_with(url, ".wasm") {
        UrlKind::Module
    } else {
        UrlKind::ManifestDocument
    }
}

/// The name of the plugin that a module's URL stands for: what follows the
/// last `/`, without every trailing `.wasm`.
pub open spec fn plugin_name_of(url: Seq<char>) -> Seq<char> {
    trim_suffix(last_segment(url, '/'), ".wasm"@)
}

/// The name of the plugin that a module's URL stands for.
pub fn plugin_name_from_url(url: &str) -> (r: String)
    ensures
        r@ == plugin_name_of(url@),
{
    let segment = last_segment_of(url, '/');
    trim_suffix_of(segment.as_str(), ".wasm")
}

/// The name of the plugin that a module's URL stands for names no path and
/// bears no trailing `.wasm`.
pub proof fn lemma_plugin_name_of(url: Seq<char>)
    ensures
        !plugin_name_of(url).contains('/'),
        !".wasm"@.is_suffix_of(plugin_name_of(url)),
        plugin_name_of(url).is_prefix_of(last_segment(url, '/')),
{
    let segment = last_segment(url, '/');
    let name = plugin_name_of(url);
    reveal_strlit(".wasm");
    lemma_last_segment(url, '/');
    lemma_trim_suffix(segment, ".wasm"@);
    if name.contains('/') {
        let i = choose|i: int| 0 <= i < name.len() && name[i] == '/';
        assert(segment.subrange(0, name.len() as int)[i] == segment[i]);
        assert(segment.contains(segment[i]));
    }
}

/// Whether a module location is a URL of its own: it begins with `http://` or
/// `https://`.
pub open spec fn is_remote(location: Seq<char>) -> bool {
    "http://"@.is_prefix_of(location) || "https://"@.is_prefix_of(location)
}

/// Whether a module location is a URL of its own.
pub fn is_remote_location(location: &str) -> (r: bool)
    ensures
        r == is_remote(location@),
{
    starts_with(location, "http://") || starts_with(location, "https://")
}

/// The file name under which a module that lies at `location` is stored: what
/// follows the last `/`.
pub open spec fn local_file_name(location: Seq<char>) -> Seq<char> {
    last_segment(location, '/')
}

/// A stored module's file name is no URL.
pub proof fn lemma_local_file_name_is_local(location: Seq<char>)
    ensures
        !is_remote(local_file_name(location)),
        !local_file_name(location).contains('/'),
{
    let name = local_file_name(location);
    lemma_last_segment(location, '/');
    reveal_strlit("http://");
    reveal_strlit("https://");
    if "http://"@.is_prefix_of(name) {
        assert(name.subrange(0, 7)[5] == '/');
        assert(name.contains(name[5]));
    }
    if "https://"@.is_prefix_of(name) {
        assert(name.subrange(0, 8)[6] == '/');
        assert(name.contains(name[6]));
    }
}

/// Whether a name can name one directory directly below the plugins' root: it
/// is not empty, holds no `/` and no `\`, and is neither `.` nor `..`.
pub open spec fn safe_name(name: Seq<char>) -> bool {
    &&& name.len() > 0
    &&& !name.contains('/')
    &&& !name.contains('\\')
    &&& name != seq!['.']
    &&& name != seq!['.', '.']
}

/// Whether a name can name one directory directly below the plugins' root.
pub fn is_safe_name(name: &str) -> (r: bool)
    ensures
        r == safe_name(name@),
{
    let cs = chars_of(name);
    let n = cs.len();
    if n == 0 {
        return false;
    }
    if n == 1 && cs[0] == '.' {
        assert(name@ =~= seq!['.']);
        return false;
    }
    if n == 2 && cs[0] == '.' && cs[1] == '.' {
        assert(name@ =~= seq!['.', '.']);
        return false;
    }
    let mut i: usize = 0;
    while i < n
        invariant
            i <= n,
            n == cs@.len(),
            cs@ == name@,
            forall|j: int| 0 <= j < i ==> cs@[j] != '/' && cs@[j] != '\\',
        decreases n - i,
    {
        if cs[i] == '/' || cs[i] == '\\' {
            assert(name@.contains(cs@[i as int]));
            return false;
        }
        i = i + 1;
    }
    assert(seq!['.'].len() == 1 && seq!['.'][0] == '.');
    assert(seq!['.', '.'].len() == 2 && seq!['.', '.'][0] == '.' && seq!['.', '.'][1] == '.');
    true
}

/// The entry point that is made for an exported function.
pub open spec fn synthesized_entry(function: Seq<char>) -> EntryPointView {
    EntryPointView {
        name: function,
        function,
        description: "Exported function: "@ + function,
        input_format: "json"@,
        output_format: "json"@,
    }
}

/// The manifest that is made for a module that came from `url` and exports
/// these functions: one entry point for each of them, in order.
pub open spec fn synthesized_manifest(url: Seq<char>, functions: Seq<Seq<char>>) -> PluginManifestView {
    PluginManifestView {
        name: plugin_name_of(url),
        version: "0.1.0"@,
        description: "Plugin loaded from "@ + url,
        author: Some("Remote"@),
        plugin_type: "remote"@,
        wasm_module: "plugin.wasm"@,
        wasm_config: empty_config(),
        capabilities: Seq::empty(),
        entry_points: functions.map_values(|f: Seq<char>| synthesized_entry(f)),
        dependencies: Seq::empty(),
    }
}

/// The manifest that is made for a module passes validation, where the
/// plugin's name can name a directory.
pub proof fn lemma_synthesized_is_valid(url: Seq<char>, functions: Seq<Seq<char>>)
    requires
        safe_name(plugin_name_of(url)),
    ensures
        is_valid(synthesized_manifest(url, functions)),
        synthesized_manifest(url, functions).entry_points.len() == functions.len(),
        forall|i: int|
            0 <= i < functions.len() ==> (#[trigger] synthesized_manifest(
                url,
                functions,
            ).entry_points[i]).name == functions[i],
{
    reveal_strlit("0.1.0");
    reveal_strlit("plugin.wasm");
}

/// The manifest for a module that came from `url` and exports these functions.
pub fn synthesize_manifest(url: &str, functions: &Vec<String>) -> (r: PluginManifest)
    ensures
        r@ == synthesized_manifest(url@, functions.deep_view()),
{
    let mut entry_points: Vec<EntryPoint> = Vec::new();
    let mut i: usize = 0;
    while i < functions.len()
        invariant
            i <= functions.len(),
            entry_points.len() == i,
            forall|j: int| 0 <= j < i ==> (#[trigger] entry_points[j])@ == synthesized_entry(functions[j]@),
        decreases functions.len() - i,
    {
        let name = functions[i].clone();
        entry_points.push(
            EntryPoint {
                name: name.clone(),
                function: name,
                description: joined("Exported function: ", functions[i].as_str()),
                input_format: "json".to_owned(),
                output_format: "json".to_owned(),
            },
        );
        i = i + 1;
    }
    let r = PluginManifest {
        name: plugin_name_from_url(url),
        version: "0.1.0".to_owned(),
        description: joined("Plugin loaded from ", url),
        author: Some("Remote".to_owned()),
        plugin_type: "remote".to_owned(),
        wasm_module: "plugin.wasm".to_owned(),
        wasm_config: Default::default(),
        capabilities: Vec::new(),
        entry_points,
        dependencies: Vec::new(),
    };
    proof {
        assert(r.capabilities.deep_view() =~= Seq::empty());
        assert(r.dependencies.deep_view() =~= Seq::empty());
        assert(r.entry_points.deep_view() =~= functions.deep_view().map_values(
            |f: Seq<char>| synthesized_entry(f),
        ));
        assert(r.author.deep_view() == Some("Remote"@));
    }
    r
}

/// Where the module of a plugin that is being installed comes from.
#[derive(Debug)]
pub enum ModuleOrigin {
    /// The content that was fetched from the URL is the module.
    Fetched,
    /// The module lies at this URL and has yet to be fetched.
    Remote(String),
    /// The manifest names a file that is expected in the plugin's directory.
    InPlace,
}

/// What is to be done to install a plugin: the directory below the plugins'
/// root is named by `plugin_name`; the manifest is stored there as
/// `plugin.json`; the module is stored there under the manifest's module
/// location; then the manifest is loaded from there.
#[derive(Debug)]
pub struct InstallPlan {
    pub plugin_name: String,
    pub manifest: PluginManifest,
    pub module: ModuleOrigin,
}

/// The name of the file in which a plugin's manifest is stored.
pub const MANIFEST_FILE: &'static str = "plugin.json";

/// The manifest as it is stored: with the module's file name in place of a
/// module location that is a URL.
pub open spec fn localized(manifest: PluginManifestView) -> PluginManifestView {
    if is_remote(manifest.wasm_module) {
        PluginManifestView { wasm_module: local_file_name(manifest.wasm_module), ..manifest }
    } else {
        manifest
    }
}

/// A stored manifest names no URL as its module location.
pub proof fn lemma_localized_is_local(manifest: PluginManifestView)
    ensures
        !is_remote(localized(manifest).wasm_module),
        localized(localized(manifest)) == localized(manifest),
{
    lemma_local_file_name_is_local(manifest.wasm_module);
}

/// Plans the installation of a module that was fetched from `url`: a manifest
/// is made with one entry point for each function that the module exports.
/// A name that cannot name a directory is refused first, then a module that
/// cannot be read to its end.
pub fn plan_module_install(url: &str, module: &[u8]) -> (r: Result<InstallPlan, InstallError>)
    ensures
        !safe_name(plugin_name_of(url@)) ==> r is Err && r->Err_0 is InvalidDestination
            && r->Err_0->InvalidDestination_0@ == plugin_name_of(url@),
        safe_name(plugin_name_of(url@)) && !wasm_scan(module@).1 ==> r is Err && r->Err_0 is ExportIntrospectionFailed
            && r->Err_0->ExportIntrospectionFailed_0@ == url@,
        safe_name(plugin_name_of(url@)) && wasm_scan(module@).1 ==> r is Ok && r->Ok_0.module is Fetched
            && r->Ok_0.plugin_name@ == plugin_name_of(url@) && r->Ok_0.manifest@
            == synthesized_manifest(url@, function_names_of(wasm_scan(module@).0)),
        r is Ok ==> is_valid(r->Ok_0.manifest@),
{
    proof {
        if safe_name(plugin_name_of(url@)) {
            lemma_synthesized_is_valid(url@, function_names_of(wasm_scan(module@).0));
        }
    }
    let plugin_name = plugin_name_from_url(url);
    if !is_safe_name(plugin_name.as_str()) {
        return Err(InstallError::InvalidDestination(plugin_name));
    }
    let scan = scan_module(module);
    if !scan.1 {
        return Err(InstallError::ExportIntrospectionFailed(url.to_owned()));
    }
    let functions = function_exports(&scan.0);
    let manifest = synthesize_manifest(url, &functions);
    Ok(InstallPlan { plugin_name, manifest, module: ModuleOrigin::Fetched })
}

/// Plans the installation of a plugin whose manifest was fetched: the plugin
/// is named by the manifest; a module location that is a URL is fetched and
/// stored under its file name, which the stored manifest then names.
pub fn plan_manifest_install(manifest: PluginManifest) -> (r: Result<InstallPlan, InstallError>)
    ensures
        !safe_name(manifest@.name) ==> r is Err && r->Err_0 is InvalidDestination
            && r->Err_0->InvalidDestination_0@ == manifest@.name,
        safe_name(manifest@.name) ==> r is Ok && r->Ok_0.plugin_name@ == manifest@.name
            && r->Ok_0.manifest@ == localized(manifest@) && !is_remote(r->Ok_0.manifest@.wasm_module)
            && match r->Ok_0.module {
            ModuleOrigin::Remote(url) => is_remote(manifest@.wasm_module) && url@
                == manifest@.wasm_module,
            ModuleOrigin::InPlace => !is_remote(manifest@.wasm_module),
            ModuleOrigin::Fetched => false,
        },
{
    proof {
        lemma_localized_is_local(manifest@);
    }
    if !is_safe_name(manifest.name.as_str()) {
        return Err(InstallError::InvalidDestination(manifest.name));
    }
    let plugin_name = manifest.name.clone();
    if is_remote_location(manifest.wasm_module.as_str()) {
        let file_name = last_segment_of(manifest.wasm_module.as_str(), '/');
        let mut local = manifest;
        let url = local.wasm_module;
        local.wasm_module = file_name;
        Ok(InstallPlan { plugin_name, manifest: local, module: ModuleOrigin::Remote(url) })
    } else {
        Ok(InstallPlan { plugin_name, manifest, module: ModuleOrigin::InPlace })
    }
}

} // verus!
