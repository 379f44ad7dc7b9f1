use vstd::prelude::*;

use crate::tree::value::Value;
use std::collections::HashMap;

verus! {

/// A property url.
pub type Property = String;

/// Member inside a [Node](`crate::tree::node::Node`).
#[derive(Clone)]
pub struct Member {
    /// Url of the member.
    pub url: String,
    /// Properties of the member.
    pub properties: HashMap<Property, Value>,
}

} // verus!
