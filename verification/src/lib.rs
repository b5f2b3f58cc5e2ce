//! A host for sandboxed plugins.
//!
//! A plugin is a module of bytecode with a manifest that declares who the
//! plugin is, what it may reach and which functions it offers. The loader
//! binds a manifest and a module into an instance whose sandbox grants what
//! the manifest declares; the registry keeps at most one loaded plugin under
//! each name and calls plugins by name; the installation plans say what is
//! stored and loaded for a plugin that comes from a URL; and the bridge of
//! host functions is the one way by which a plugin reaches the host.
//!
//! The library reads no file and opens no connection: its callers hand it
//! the bytes they have read, and store and send what it hands back. The
//! engine that runs the modules, the parser of modules and the hash of
//! passwords are outside crates, which the library calls behind contracts
//! that are believed, not proved; each of them says in its comment what it
//! claims.

pub mod clock;
pub mod commands;
pub mod db;
pub mod engine;
pub mod guest;
pub mod host_functions;
pub mod install;
pub mod loader;
pub mod manager;
pub mod manifest;
pub mod text;
pub mod tick_manager;
