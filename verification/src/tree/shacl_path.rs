use vstd::prelude::*;

verus! {

/// A path as defined by [SHACL](https://www.w3.org/TR/shacl/#property-paths).
/// For the moment only supporting direct paths, hence the alias to a `String`.
pub type ShaclPath = String;

} // verus!
