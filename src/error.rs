use vstd::prelude::*;

verus! {

/// What can go wrong while scaffolding.
#[derive(Debug, PartialEq, Eq)]
pub enum Error {
    /// `Cargo.toml` is not a valid TOML document.
    ParseToml,
    /// `workspace` is not a table, or `workspace.members` is not an array.
    MalformedToml,
    /// A template could not be compiled or rendered; the text names the template.
    Template(String),
    /// The member is already listed in the workspace.
    CrateAlreadyExists(String),
    /// A rendered file would replace one that already exists; the text names it.
    DestinationExists(String),
    /// The directory asked for differs from the configured one: asked, configured.
    ConfigCliConflict(String, String),
}

} // verus!
