//! The execution engine, as far as the loader uses it: what is claimed here of
//! the `extism` crate is believed, not proved.

use vstd::prelude::*;

verus! {

/// `extism::Plugin`: a running instance. Nothing of its inside is known here.
#[verifier::external_type_specification]
#[verifier::external_body]
pub struct ExPlugin(extism::Plugin);

/// `extism::Manifest`: what the engine is told to build an instance from.
/// Of its inside only what the names below stand for is spoken of.
#[verifier::external_type_specification]
#[verifier::external_body]
pub struct ExEngineManifest(extism::Manifest);

/// `extism::Function`: a function of the host that an instance may call.
#[verifier::external_type_specification]
#[verifier::external_body]
pub struct ExFunction(extism::Function);

/// `extism::Error`: the engine's error. Nothing of its inside is known here.
#[verifier::external_type_specification]
#[verifier::external_body]
pub struct ExEngineError(extism::Error);

/// The modules of an engine manifest that are given as bytes, in order.
pub uninterp spec fn engine_modules(m: extism::Manifest) -> Seq<Seq<u8>>;

/// The configuration of an engine manifest: its field `config`.
pub uninterp spec fn engine_config(m: extism::Manifest) -> Map<Seq<char>, Seq<char>>;

/// The hosts that an engine manifest allows: its field `allowed_hosts`.
pub uninterp spec fn engine_hosts(m: extism::Manifest) -> Option<Seq<Seq<char>>>;

/// The paths that an engine manifest allows, from the path on the host's disk
/// to the path inside the plugin: its field `allowed_paths`.
pub uninterp spec fn engine_paths(m: extism::Manifest) -> Option<Map<Seq<char>, Seq<char>>>;

/// The most pages of memory that an engine manifest allows: the field
/// `max_pages` of its memory options.
pub uninterp spec fn engine_memory_max(m: extism::Manifest) -> Option<u32>;

/// The names for which a plugin's `function_exists` answers yes. They are a
/// matter of the modules that the plugin was built from, which no call changes.
pub uninterp spec fn plugin_entry_points(p: extism::Plugin) -> Set<Seq<char>>;

/// The name of a host function: what its `name` returns.
pub uninterp spec fn function_name(f: extism::Function) -> Seq<char>;

/// The policy under which a plugin runs: the configuration, the allowed
/// hosts, the allowed paths and the most pages of memory of the manifest that
/// the plugin was built from and keeps.
pub uninterp spec fn plugin_policy(p: extism::Plugin) -> (
    Map<Seq<char>, Seq<char>>,
    Option<Seq<Seq<char>>>,
    Option<Map<Seq<char>, Seq<char>>>,
    Option<u32>,
);

/// The names of the host functions that a plugin was built with and is
/// linked to, in order.
pub uninterp spec fn plugin_functions(p: extism::Plugin) -> Seq<Seq<char>>;

/// The policy that an engine manifest states.
pub open spec fn engine_policy(m: extism::Manifest) -> (
    Map<Seq<char>, Seq<char>>,
    Option<Seq<Seq<char>>>,
    Option<Map<Seq<char>, Seq<char>>>,
    Option<u32>,
) {
    (engine_config(m), engine_hosts(m), engine_paths(m), engine_memory_max(m))
}

/// The names of host functions, in order.
pub open spec fn function_names(fns: Seq<extism::Function>) -> Seq<Seq<char>> {
    fns.map_values(|f: extism::Function| function_name(f))
}

/// The map that holds no pair of texts.
pub open spec fn no_pairs() -> Map<Seq<char>, Seq<char>> {
    Map::empty()
}

/// `Manifest::new` on one module made by `Wasm::data`: a manifest of this one
/// module, with no configuration, no allowed host or path and no limit on memory.
#[verifier::external_body]
pub(crate) fn engine_manifest(module: Vec<u8>) -> (m: extism::Manifest)
    ensures
        engine_modules(m) == seq![module@],
        engine_config(m) == no_pairs(),
        engine_hosts(m) is None,
        engine_paths(m) is None,
        engine_memory_max(m) is None,
{
    extism::Manifest::new([extism::Wasm::data(module)])
}

/// `Manifest::with_config_key`: the configuration gets the key with this
/// value, in place of an earlier value of the key; nothing else changes.
#[verifier::external_body]
pub(crate) fn engine_with_config_key(m: extism::Manifest, key: &str, value: &str) -> (r: extism::Manifest)
    ensures
        engine_config(r) == engine_config(m).insert(key@, value@),
        engine_modules(r) == engine_modules(m),
        engine_hosts(r) == engine_hosts(m),
        engine_paths(r) == engine_paths(m),
        engine_memory_max(r) == engine_memory_max(m),
{
    m.with_config_key(key, value)
}

/// `Manifest::with_allowed_host`: the host is added behind the allowed hosts,
/// or is the first of them; nothing else changes.
#[verifier::external_body]
pub(crate) fn engine_with_allowed_host(m: extism::Manifest, host: &str) -> (r: extism::Manifest)
    ensures
        engine_hosts(r) == Some(
            match engine_hosts(m) {
                Some(hosts) => hosts.push(host@),
                None => seq![host@],
            },
        ),
        engine_modules(r) == engine_modules(m),
        engine_config(r) == engine_config(m),
        engine_paths(r) == engine_paths(m),
        engine_memory_max(r) == engine_memory_max(m),
{
    m.with_allowed_host(host)
}

/// `Manifest::with_allowed_path`: the path `src` on the host's disk is made
/// available inside the plugin as `dest`, in place of an earlier entry for
/// `src`; nothing else changes.
#[verifier::external_body]
pub(crate) fn engine_with_allowed_path(m: extism::Manifest, src: String, dest: &str) -> (r: extism::Manifest)
    ensures
        engine_paths(r) == Some(
            match engine_paths(m) {
                Some(paths) => paths.insert(src@, dest@),
                None => no_pairs().insert(src@, dest@),
            },
        ),
        engine_modules(r) == engine_modules(m),
        engine_config(r) == engine_config(m),
        engine_hosts(r) == engine_hosts(m),
        engine_memory_max(r) == engine_memory_max(m),
{
    m.with_allowed_path(src, dest)
}

/// `Manifest::with_memory_max`: the most pages of memory become `max`;
/// nothing else changes.
#[verifier::external_body]
pub(crate) fn engine_with_memory_max(m: extism::Manifest, max: u32) -> (r: extism::Manifest)
    ensures
        engine_memory_max(r) == Some(max),
        engine_modules(r) == engine_modules(m),
        engine_config(r) == engine_config(m),
        engine_hosts(r) == engine_hosts(m),
        engine_paths(r) == engine_paths(m),
{
    m.with_memory_max(max)
}

/// `Plugin::new`, with WASI: a plugin built from the manifest and the host
/// functions, or the engine's error. Nothing is claimed of which; a plugin
/// that is built keeps the manifest and the host functions that it was
/// built from.
#[verifier::external_body]
pub(crate) fn engine_new_plugin(m: &extism::Manifest, host_fns: Vec<extism::Function>) -> (r: Result<
    extism::Plugin,
    extism::Error,
>)
    ensures
        r is Ok ==> plugin_policy(r->Ok_0) == engine_policy(*m),
        r is Ok ==> plugin_functions(r->Ok_0) == function_names(host_fns@),
{
    extism::Plugin::new(m, host_fns, true)
}

/// `PluginBuilder::build` on the manifest, the host functions and WASI, with a
/// `wasmtime::Config` that reserves `reservation` bytes of address space for
/// each memory, `growth` bytes beyond a memory that has outgrown them, and
/// `guard` bytes behind it: a plugin, or the engine's error. Nothing is
/// claimed of which; a plugin that is built keeps the manifest and the host
/// functions that it was built from.
#[verifier::external_body]
pub(crate) fn engine_new_plugin_within(
    m: &extism::Manifest,
    host_fns: Vec<extism::Function>,
    reservation: u64,
    growth: u64,
    guard: u64,
) -> (r: Result<extism::Plugin, extism::Error>)
    ensures
        r is Ok ==> plugin_policy(r->Ok_0) == engine_policy(*m),
        r is Ok ==> plugin_functions(r->Ok_0) == function_names(host_fns@),
{
    let mut config = wasmtime::Config::new();
    config.memory_reservation(reservation).memory_reservation_for_growth(growth).memory_guard_size(guard);
    extism::PluginBuilder::new(m).with_functions(host_fns).with_wasi(true).with_wasmtime_config(config).build()
}

/// `Plugin::function_exists`: whether the plugin's main module exports a
/// function of this name that takes nothing and returns nothing or one
/// 32-bit number.
#[verifier::external_body]
pub(crate) fn engine_function_exists(p: &extism::Plugin, name: &str) -> (r: bool)
    ensures
        r == plugin_entry_points(*p).contains(name@),
{
    p.function_exists(name)
}

/// `Plugin::call` on bytes: what the function returned, or the engine's error.
/// Of the plugin only this is claimed: its entry points, its policy and its
/// host functions are as before.
#[verifier::external_body]
pub(crate) fn engine_call(p: &mut extism::Plugin, name: &str, input: &[u8]) -> (r: Result<
    Vec<u8>,
    extism::Error,
>)
    ensures
        plugin_entry_points(*final(p)) == plugin_entry_points(*old(p)),
        plugin_policy(*final(p)) == plugin_policy(*old(p)),
        plugin_functions(*final(p)) == plugin_functions(*old(p)),
{
    p.call::<&[u8], &[u8]>(name, input).map(|out| out.to_vec())
}

/// The alternate `Display` of `anyhow::Error`, which the engine's error is:
/// the error in words, with its causes. Nothing is claimed of the text.
#[verifier::external_body]
pub(crate) fn engine_error_text(e: &extism::Error) -> String {
    format!("{:#}", e)
}

/// `Function::name`: the name under which a host function is linked.
#[verifier::external_body]
pub(crate) fn engine_function_name(f: &extism::Function) -> (r: String)
    ensures
        r@ == function_name(*f),
{
    f.name().to_string()
}

} // verus!
