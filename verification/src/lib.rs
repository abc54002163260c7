//! Bootstrap resolver for a language-tooling backend: decides which backend
//! process to launch and how, from user configuration and a snapshot of the
//! environment (probe outputs, registry response, operating system).

use vstd::prelude::*;

pub mod asset;
pub mod config;
pub mod error;
pub mod ext;
pub mod launch;
pub mod version;

verus! {

/// Operating systems the asset selector distinguishes when it picks a
/// download asset for the backend.
#[derive(Clone, Copy, PartialEq, Eq, Structural, Debug)]
pub enum Os {
    Windows,
    Macos,
    Linux,
    Other,
}

} // verus!
