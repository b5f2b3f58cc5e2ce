//! The plugin manifest: a plugin's declared identity, sandbox policy and entry
//! points, and the rule that decides whether a manifest may be loaded.

use crate::text::{chars_of, joined};
use vstd::prelude::*;

verus! {

/// One function that a plugin offers to callers.
#[derive(Debug)]
pub struct EntryPoint {
    /// The name that callers use.
    pub name: String,
    /// The function of the module that is called.
    pub function: String,
    /// What the function does.
    pub description: String,
    /// The format of the input: `json`, `binary` or `text`.
    pub input_format: String,
    /// The format of the output.
    pub output_format: String,
}

/// What an entry point holds, as mathematical values.
pub struct EntryPointView {
    pub name: Seq<char>,
    pub function: Seq<char>,
    pub description: Seq<char>,
    pub input_format: Seq<char>,
    pub output_format: Seq<char>,
}

impl View for EntryPoint {
    type V = EntryPointView;

    open spec fn view(&self) -> EntryPointView {
        EntryPointView {
            name: self.name@,
            function: self.function@,
            description: self.description@,
            input_format: self.input_format@,
            output_format: self.output_format@,
        }
    }
}

impl DeepView for EntryPoint {
    type V = EntryPointView;

    open spec fn deep_view(&self) -> EntryPointView {
        self@
    }
}

impl Clone for EntryPoint {
    fn clone(&self) -> (r: Self)
        ensures
            r@ == self@,
    {
        EntryPoint {
            name: self.name.clone(),
            function: self.function.clone(),
            description: self.description.clone(),
            input_format: self.input_format.clone(),
            output_format: self.output_format.clone(),
        }
    }
}

/// The capabilities that a plugin asks of its sandbox. The two maps are kept
/// as lists of pairs, in the order in which they were declared; where a key
/// occurs twice, the later pair counts.
#[derive(Debug)]
pub struct WasmConfig {
    /// Host patterns that the plugin may reach.
    pub allowed_hosts: Vec<String>,
    /// Pairs of a path as the plugin sees it and the host's path behind it.
    pub allowed_paths: Vec<(String, String)>,
    /// Pairs of a configuration key and its value, handed to the plugin.
    pub config: Vec<(String, String)>,
    /// The most pages of memory (64 KiB each) that the plugin may have.
    pub memory_max_pages: Option<u32>,
}

/// What a sandbox policy holds, as mathematical values.
pub struct WasmConfigView {
    pub allowed_hosts: Seq<Seq<char>>,
    pub allowed_paths: Seq<(Seq<char>, Seq<char>)>,
    pub config: Seq<(Seq<char>, Seq<char>)>,
    pub memory_max_pages: Option<u32>,
}

impl View for WasmConfig {
    type V = WasmConfigView;

    open spec fn view(&self) -> WasmConfigView {
        WasmConfigView {
            allowed_hosts: self.allowed_hosts.deep_view(),
            allowed_paths: self.allowed_paths.deep_view(),
            config: self.config.deep_view(),
            memory_max_pages: self.memory_max_pages,
        }
    }
}

/// The policy that grants nothing.
pub open spec fn empty_config() -> WasmConfigView {
    WasmConfigView {
        allowed_hosts: Seq::empty(),
        allowed_paths: Seq::empty(),
        config: Seq::empty(),
        memory_max_pages: None,
    }
}

impl DeepView for WasmConfig {
    type V = WasmConfigView;

    open spec fn deep_view(&self) -> WasmConfigView {
        self@
    }
}

impl Default for WasmConfig {
    fn default() -> (r: Self)
        ensures
            r@ == empty_config(),
    {
        let r = WasmConfig {
            allowed_hosts: Vec::new(),
            allowed_paths: Vec::new(),
            config: Vec::new(),
            memory_max_pages: None,
        };
        assert(r.allowed_hosts.deep_view() =~= Seq::empty());
        assert(r.allowed_paths.deep_view() =~= Seq::empty());
        assert(r.config.deep_view() =~= Seq::empty());
        r
    }
}

/// A copy of a list of strings.
pub fn clone_strings(v: &Vec<String>) -> (r: Vec<String>)
    ensures
        r.deep_view() == v.deep_view(),
{
    let mut r: Vec<String> = Vec::new();
    let mut i: usize = 0;
    while i < v.len()
        invariant
            i <= v.len(),
            r.len() == i,
            forall|j: int| 0 <= j < i ==> r[j]@ == v[j]@,
        decreases v.len() - i,
    {
        r.push(v[i].clone());
        i = i + 1;
    }
    assert(r.deep_view() =~= v.deep_view());
    r
}

/// A copy of a list of pairs of strings.
pub fn clone_pairs(v: &Vec<(String, String)>) -> (r: Vec<(String, String)>)
    ensures
        r.deep_view() == v.deep_view(),
{
    let mut r: Vec<(String, String)> = Vec::new();
    let mut i: usize = 0;
    while i < v.len()
        invariant
            i <= v.len(),
            r.len() == i,
            forall|j: int| 0 <= j < i ==> r[j].deep_view() == v[j].deep_view(),
        decreases v.len() - i,
    {
        r.push((v[i].0.clone(), v[i].1.clone()));
        i = i + 1;
    }
    assert(r.deep_view() =~= v.deep_view());
    r
}

impl Clone for WasmConfig {
    fn clone(&self) -> (r: Self)
        ensures
            r@ == self@,
    {
        WasmConfig {
            allowed_hosts: clone_strings(&self.allowed_hosts),
            allowed_paths: clone_pairs(&self.allowed_paths),
            config: clone_pairs(&self.config),
            memory_max_pages: self.memory_max_pages,
        }
    }
}

/// A copy of a list of entry points.
pub fn clone_entry_points(v: &Vec<EntryPoint>) -> (r: Vec<EntryPoint>)
    ensures
        r.deep_view() == v.deep_view(),
{
    let mut r: Vec<EntryPoint> = Vec::new();
    let mut i: usize = 0;
    while i < v.len()
        invariant
            i <= v.len(),
            r.len() == i,
            forall|j: int| 0 <= j < i ==> r[j]@ == v[j]@,
        decreases v.len() - i,
    {
        r.push(v[i].clone());
        i = i + 1;
    }
    assert(r.deep_view() =~= v.deep_view());
    r
}

/// A copy of an optional string.
pub fn clone_optional(v: &Option<String>) -> (r: Option<String>)
    ensures
        r.deep_view() == v.deep_view(),
{
    match v {
        Some(s) => Some(s.clone()),
        None => None,
    }
}

/// The description of a plugin: who it is, what it may do and what it offers.
#[derive(Debug)]
pub struct PluginManifest {
    /// The plugin's name, by which it is registered.
    pub name: String,
    /// The plugin's version.
    pub version: String,
    /// What the plugin is for.
    pub description: String,
    /// Who wrote it.
    pub author: Option<String>,
    /// The plugin's category: `service`, `converter`, `processor`, `ui`.
    pub plugin_type: String,
    /// Where the module lies, relative to the plugin's directory.
    pub wasm_module: String,
    /// The sandbox policy.
    pub wasm_config: WasmConfig,
    /// Capability tags, for information.
    pub capabilities: Vec<String>,
    /// The functions that the plugin offers.
    pub entry_points: Vec<EntryPoint>,
    /// Pairs of a plugin's name and the versions of it that this one needs.
    pub dependencies: Vec<(String, String)>,
}

/// What a manifest holds, as mathematical values.
pub struct PluginManifestView {
    pub name: Seq<char>,
    pub version: Seq<char>,
    pub description: Seq<char>,
    pub author: Option<Seq<char>>,
    pub plugin_type: Seq<char>,
    pub wasm_module: Seq<char>,
    pub wasm_config: WasmConfigView,
    pub capabilities: Seq<Seq<char>>,
    pub entry_points: Seq<EntryPointView>,
    pub dependencies: Seq<(Seq<char>, Seq<char>)>,
}

impl View for PluginManifest {
    type V = PluginManifestView;

    open spec fn view(&self) -> PluginManifestView {
        PluginManifestView {
            name: self.name@,
            version: self.version@,
            description: self.description@,
            author: self.author.deep_view(),
            plugin_type: self.plugin_type@,
            wasm_module: self.wasm_module@,
            wasm_config: self.wasm_config@,
            capabilities: self.capabilities.deep_view(),
            entry_points: self.entry_points.deep_view(),
            dependencies: self.dependencies.deep_view(),
        }
    }
}

impl DeepView for PluginManifest {
    type V = PluginManifestView;

    open spec fn deep_view(&self) -> PluginManifestView {
        self@
    }
}

impl Clone for PluginManifest {
    fn clone(&self) -> (r: Self)
        ensures
            r@ == self@,
    {
        PluginManifest {
            name: self.name.clone(),
            version: self.version.clone(),
            description: self.description.clone(),
            author: clone_optional(&self.author),
            plugin_type: self.plugin_type.clone(),
            wasm_module: self.wasm_module.clone(),
            wasm_config: self.wasm_config.clone(),
            capabilities: clone_strings(&self.capabilities),
            entry_points: clone_entry_points(&self.entry_points),
            dependencies: clone_pairs(&self.dependencies),
        }
    }
}

/// An entry point as a document gives it: the two formats may be absent.
#[derive(Debug)]
pub struct EntryPointParts {
    pub name: String,
    pub function: String,
    pub description: String,
    pub input_format: Option<String>,
    pub output_format: Option<String>,
}

/// A sandbox policy as a document gives it: every part may be absent.
#[derive(Debug)]
pub struct WasmConfigParts {
    pub allowed_hosts: Option<Vec<String>>,
    pub allowed_paths: Option<Vec<(String, String)>>,
    pub config: Option<Vec<(String, String)>>,
    pub memory_max_pages: Option<u32>,
}

/// A manifest as a document gives it: the policy, the capabilities, the
/// entry points and the dependencies may be absent.
#[derive(Debug)]
pub struct ManifestParts {
    pub name: String,
    pub version: String,
    pub description: String,
    pub author: Option<String>,
    pub plugin_type: String,
    pub wasm_module: String,
    pub wasm_config: Option<WasmConfigParts>,
    pub capabilities: Option<Vec<String>>,
    pub entry_points: Option<Vec<EntryPointParts>>,
    pub dependencies: Option<Vec<(String, String)>>,
}

/// A text that may be absent: the empty text where it is.
pub open spec fn text_or_empty(text: Option<String>) -> Seq<char> {
    match text {
        Some(t) => t@,
        None => Seq::empty(),
    }
}

/// A list of texts that may be absent: the empty list where it is.
pub open spec fn texts_or_empty(list: Option<Vec<String>>) -> Seq<Seq<char>> {
    match list {
        Some(l) => l.deep_view(),
        None => Seq::empty(),
    }
}

/// A list of pairs that may be absent: the empty list where it is.
pub open spec fn pairs_or_empty(list: Option<Vec<(String, String)>>) -> Seq<(Seq<char>, Seq<char>)> {
    match list {
        Some(l) => l.deep_view(),
        None => Seq::empty(),
    }
}

/// The entry point that a document's entry point stands for: an absent
/// format is the empty text.
pub open spec fn completed_entry(parts: EntryPointParts) -> EntryPointView {
    EntryPointView {
        name: parts.name@,
        function: parts.function@,
        description: parts.description@,
        input_format: text_or_empty(parts.input_format),
        output_format: text_or_empty(parts.output_format),
    }
}

/// The policy that a document's policy stands for: an absent policy grants
/// nothing, and so does an absent part of a policy.
pub open spec fn completed_config(parts: Option<WasmConfigParts>) -> WasmConfigView {
    match parts {
        Some(p) => WasmConfigView {
            allowed_hosts: texts_or_empty(p.allowed_hosts),
            allowed_paths: pairs_or_empty(p.allowed_paths),
            config: pairs_or_empty(p.config),
            memory_max_pages: p.memory_max_pages,
        },
        None => empty_config(),
    }
}

/// The entry points that a document's entry points stand for: none where
/// they are absent.
pub open spec fn completed_entries(parts: Option<Vec<EntryPointParts>>) -> Seq<EntryPointView> {
    match parts {
        Some(list) => list@.map_values(|e: EntryPointParts| completed_entry(e)),
        None => Seq::empty(),
    }
}

/// The manifest that a document stands for: what the document holds, and
/// an empty list, an empty map or the policy that grants nothing for what it
/// does not hold.
pub open spec fn completed(parts: ManifestParts) -> PluginManifestView {
    PluginManifestView {
        name: parts.name@,
        version: parts.version@,
        description: parts.description@,
        author: parts.author.deep_view(),
        plugin_type: parts.plugin_type@,
        wasm_module: parts.wasm_module@,
        wasm_config: completed_config(parts.wasm_config),
        capabilities: texts_or_empty(parts.capabilities),
        entry_points: completed_entries(parts.entry_points),
        dependencies: pairs_or_empty(parts.dependencies),
    }
}

/// A text that may be absent: the empty text where it is.
fn or_empty(text: Option<String>) -> (r: String)
    ensures
        r@ == text_or_empty(text),
{
    match text {
        Some(t) => t,
        None => String::new(),
    }
}

/// A list of texts that may be absent: the empty list where it is.
fn texts_or_none(list: Option<Vec<String>>) -> (r: Vec<String>)
    ensures
        r.deep_view() == texts_or_empty(list),
{
    match list {
        Some(l) => l,
        None => {
            let l: Vec<String> = Vec::new();
            assert(l.deep_view() =~= Seq::empty());
            l
        },
    }
}

/// A list of pairs that may be absent: the empty list where it is.
fn pairs_or_none(list: Option<Vec<(String, String)>>) -> (r: Vec<(String, String)>)
    ensures
        r.deep_view() == pairs_or_empty(list),
{
    match list {
        Some(l) => l,
        None => {
            let l: Vec<(String, String)> = Vec::new();
            assert(l.deep_view() =~= Seq::empty());
            l
        },
    }
}

impl WasmConfig {
    /// The policy that a document's policy stands for.
    pub fn from_parts(parts: Option<WasmConfigParts>) -> (r: Self)
        ensures
            r@ == completed_config(parts),
    {
        match parts {
            Some(p) => WasmConfig {
                allowed_hosts: texts_or_none(p.allowed_hosts),
                allowed_paths: pairs_or_none(p.allowed_paths),
                config: pairs_or_none(p.config),
                memory_max_pages: p.memory_max_pages,
            },
            None => Default::default(),
        }
    }
}

impl PluginManifest {
    /// The manifest that a document stands for, with what the document does
    /// not hold filled in.
    pub fn from_parts(parts: ManifestParts) -> (r: Self)
        ensures
            r@ == completed(parts),
    {
        let ghost given = parts.entry_points;
        let mut entry_points: Vec<EntryPoint> = Vec::new();
        match parts.entry_points {
            Some(list) => {
                let ghost all = list@;
                let mut rest = list;
                assert(entry_points.deep_view() =~= Seq::empty());
                while rest.len() > 0
                    invariant
                        entry_points.len() + rest.len() == all.len(),
                        rest@ == all.skip(entry_points.len() as int),
                        forall|j: int|
                            0 <= j < entry_points.len() ==> (#[trigger] entry_points[j])@
                                == completed_entry(all[j]),
                    decreases rest.len(),
                {
                    let ghost done = entry_points.len() as int;
                    let e = rest.remove(0);
                    assert(e == all[done]);
                    assert(rest@ =~= all.skip(done + 1));
                    entry_points.push(
                        EntryPoint {
                            name: e.name,
                            function: e.function,
                            description: e.description,
                            input_format: or_empty(e.input_format),
                            output_format: or_empty(e.output_format),
                        },
                    );
                }
                assert(entry_points.deep_view() =~= completed_entries(given));
            },
            None => {
                assert(entry_points.deep_view() =~= completed_entries(given));
            },
        }
        PluginManifest {
            name: parts.name,
            version: parts.version,
            description: parts.description,
            author: parts.author,
            plugin_type: parts.plugin_type,
            wasm_module: parts.wasm_module,
            wasm_config: WasmConfig::from_parts(parts.wasm_config),
            capabilities: texts_or_none(parts.capabilities),
            entry_points,
            dependencies: pairs_or_none(parts.dependencies),
        }
    }
}

/// A field that a manifest must fill.
#[derive(Debug, Clone, Copy, PartialEq, Eq, Structural)]
pub enum ManifestField {
    Name,
    Version,
    ModuleLocation,
}

/// Why a manifest is refused.
#[derive(Debug)]
pub enum ManifestError {
    /// A field that must be filled is empty.
    EmptyField(ManifestField),
    /// The document is no manifest; the text says why.
    MalformedDocument(String),
}

/// The first of name, version and module location that is empty.
pub open spec fn first_empty_field(m: PluginManifestView) -> Option<ManifestField> {
    if m.name.len() == 0 {
        Some(ManifestField::Name)
    } else if m.version.len() == 0 {
        Some(ManifestField::Version)
    } else if m.wasm_module.len() == 0 {
        Some(ManifestField::ModuleLocation)
    } else {
        None
    }
}

/// A manifest is valid when its name, version and module location are filled.
pub open spec fn is_valid(m: PluginManifestView) -> bool {
    m.name.len() > 0 && m.version.len() > 0 && m.wasm_module.len() > 0
}

/// The separator of the parts of a path.
pub const PATH_SEPARATOR: char = '/';

/// `rel` seen from the directory `dir`: `rel` itself where it starts at the
/// root, else `dir`, a separator unless `dir` is empty or ends with one, and
/// `rel`.
pub open spec fn join_path(dir: Seq<char>, rel: Seq<char>) -> Seq<char> {
    if rel.len() > 0 && rel[0] == PATH_SEPARATOR {
        rel
    } else if dir.len() > 0 && dir.last() != PATH_SEPARATOR {
        dir.push(PATH_SEPARATOR) + rel
    } else {
        dir + rel
    }
}

/// The text of each error, as it is shown to a user.
pub open spec fn manifest_error_text(e: ManifestError) -> Seq<char> {
    match e {
        ManifestError::EmptyField(ManifestField::Name) => "Plugin name cannot be empty"@,
        ManifestError::EmptyField(ManifestField::Version) => "Plugin version cannot be empty"@,
        ManifestError::EmptyField(ManifestField::ModuleLocation) => "WASM module path cannot be empty"@,
        ManifestError::MalformedDocument(why) => "Failed to parse plugin manifest: "@ + why@,
    }
}

impl ManifestError {
    /// The error in words.
    pub fn message(&self) -> (r: String)
        ensures
            r@ == manifest_error_text(*self),
    {
        match self {
            ManifestError::EmptyField(ManifestField::Name) => "Plugin name cannot be empty".to_owned(),
            ManifestError::EmptyField(ManifestField::Version) => "Plugin version cannot be empty".to_owned(),
            ManifestError::EmptyField(ManifestField::ModuleLocation) => "WASM module path cannot be empty".to_owned(),
            ManifestError::MalformedDocument(why) => joined("Failed to parse plugin manifest: ", why.as_str()),
        }
    }
}

/// `rel` seen from the directory `dir`, as a new string.
pub fn join(dir: &str, rel: &str) -> (r: String)
    ensures
        r@ == join_path(dir@, rel@),
{
    let rel_chars = chars_of(rel);
    let dir_chars = chars_of(dir);
    if rel_chars.len() > 0 && rel_chars[0] == PATH_SEPARATOR {
        rel.to_owned()
    } else if dir_chars.len() > 0 && dir_chars[dir_chars.len() - 1] != PATH_SEPARATOR {
        proof {
            reveal_strlit("/");
            assert("/"@ =~= seq![PATH_SEPARATOR]);
            assert(dir@ + "/"@ =~= dir@.push(PATH_SEPARATOR));
        }
        let with_sep = joined(dir, "/");
        joined(with_sep.as_str(), rel)
    } else {
        joined(dir, rel)
    }
}

impl PluginManifest {
    /// Checks that name, version and module location are filled, in this
    /// order, and names the first that is not.
    pub fn validate(&self) -> (r: Result<(), ManifestError>)
        ensures
            r is Ok <==> is_valid(self@),
            match first_empty_field(self@) {
                Some(field) => r == Err::<(), ManifestError>(ManifestError::EmptyField(field)),
                None => r is Ok,
            },
    {
        if self.name.as_str().is_empty() {
            return Err(ManifestError::EmptyField(ManifestField::Name));
        }
        if self.version.as_str().is_empty() {
            return Err(ManifestError::EmptyField(ManifestField::Version));
        }
        if self.wasm_module.as_str().is_empty() {
            return Err(ManifestError::EmptyField(ManifestField::ModuleLocation));
        }
        Ok(())
    }

    /// Where the module lies, for a plugin that is kept in `plugin_dir`.
    pub fn wasm_path(&self, plugin_dir: &str) -> (r: String)
        ensures
            r@ == join_path(plugin_dir@, self.wasm_module@),
    {
        join(plugin_dir, self.wasm_module.as_str())
    }
}

} // verus!
