//! Keeps the source trees that a project depends on in step with its
//! manifest.
//!
//! A manifest declares an output directory and, by local name, the
//! dependencies that are to be found there: each with the tool that fetches
//! it, its source and its exact version. A ledger in the output directory
//! records what was installed. A run reads both, plans the installs and
//! removals that turn what is recorded into what is declared, and applies
//! them one by one, with the ledger rewritten after every change.
//!
//! The library decides and the host acts: the library never touches the file
//! system or the network. It hands out one `host::Request` at a time and goes
//! on with the `host::Reply` that it is given.

pub mod dep_tools;
pub mod deps;
pub mod host;
pub mod install;
pub mod ledger;
pub mod manifest;
pub mod plan;
pub mod reconcile;
pub mod render_errors;
pub mod text;
