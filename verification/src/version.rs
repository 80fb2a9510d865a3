//! The version of a Plane node.
use vstd::prelude::*;

verus! {

#[derive(Clone, Debug, PartialEq, Eq)]
pub struct PlaneVersionInfo {
    pub version: String,
    pub git_hash: String,
}

} // verus!
