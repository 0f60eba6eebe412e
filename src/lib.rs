//! Builds a license-notices report from a graph of SBOM descriptor files.
//!
//! A product descriptor links to further descriptors; a dependency descriptor
//! names a dependency, its homepage and its license references. The walk in
//! [`walker`] visits the graph from one root, gathers each dependency's license
//! texts, and collects them by name in [`outputs`], which renders the report.

pub mod descriptor;
pub mod license;
pub mod outputs;
pub mod paths;
pub mod walker;
