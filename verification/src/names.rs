//! Names of the entities of a Plane deployment.
use crate::text::{str_eq};
use vstd::prelude::*;

verus! {

/// The name of a backend.
#[derive(Debug, PartialEq, Eq, Hash)]
pub struct BackendName(String);

impl Clone for BackendName {
    fn clone(&self) -> (r: Self)
        ensures
            r == *self,
    {
        BackendName(self.0.clone())
    }
}

impl View for BackendName {
    type V = Seq<char>;

    closed spec fn view(&self) -> Seq<char> {
        self.0@
    }
}

impl BackendName {
    pub fn new(name: String) -> (r: BackendName)
        ensures
            r@ == name@,
    {
        BackendName(name)
    }

    pub fn as_str(&self) -> (r: &str)
        ensures
            r@ == self@,
    {
        self.0.as_str()
    }

    pub fn to_string(&self) -> (r: String)
        ensures
            r@ == self@,
    {
        self.0.clone()
    }

    /// Whether two names are the same.
    pub fn same_as(&self, other: &BackendName) -> (r: bool)
        ensures
            r == (self@ == other@),
    {
        str_eq(self.0.as_str(), other.0.as_str())
    }
}

/// The name of a drone.
#[derive(Clone, Debug, PartialEq, Eq, Hash)]
pub struct DroneName(String);

impl View for DroneName {
    type V = Seq<char>;

    closed spec fn view(&self) -> Seq<char> {
        self.0@
    }
}

impl DroneName {
    pub fn new(name: String) -> (r: DroneName)
        ensures
            r@ == name@,
    {
        DroneName(name)
    }

    pub fn as_str(&self) -> (r: &str)
        ensures
            r@ == self@,
    {
        self.0.as_str()
    }
}

} // verus!
