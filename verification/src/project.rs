//! A named project: a plain record carried alongside the configuration.

use vstd::prelude::*;

verus! {

/// A project is a name and a free-text description; no rule constrains
/// either field.
#[derive(Debug)]
pub struct Project {
    pub name: String,
    pub description: String,
}

} // verus!
