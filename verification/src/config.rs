//! The configuration model: package metadata and build targets, as parsed
//! from the project manifest.

use vstd::prelude::*;

verus! {

/// A versioned package. `version` may hold any number of dot-separated
/// components; `edition` is passed through verbatim to the compiler's
/// language-standard flag.
#[derive(Debug)]
pub struct Package {
    pub name: String,
    pub version: String,
    pub edition: String,
}

/// One compilable binary target: its name and the path of its source file.
#[derive(Debug)]
pub struct Bin {
    pub name: String,
    pub path: String,
}

/// A parsed manifest: one package and an ordered list of binary targets.
/// List order is significant: it defines the build order.
#[derive(Debug)]
pub struct Config {
    pub package: Package,
    pub bin: Vec<Bin>,
}

} // verus!
