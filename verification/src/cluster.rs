//! Identity of the cluster this service reports for.

use vstd::prelude::*;

verus! {

/// The label under which the cluster introduces itself.
#[derive(Debug)]
pub struct ClusterIdentity {
    name: String,
}

impl View for ClusterIdentity {
    type V = Seq<char>;

    closed spec fn view(&self) -> Seq<char> {
        self.name@
    }
}

impl ClusterIdentity {
    pub fn new(name: String) -> (r: Self)
        ensures
            r@ == name@,
    {
        ClusterIdentity { name }
    }

    /// The label, for transport encoding.
    pub fn name(&self) -> (r: &str)
        ensures
            r@ == self@,
    {
        self.name.as_str()
    }
}

impl PartialEq for ClusterIdentity {
    fn eq(&self, other: &Self) -> (r: bool) {
        self.name == other.name
    }
}

impl vstd::std_specs::cmp::PartialEqSpecImpl for ClusterIdentity {
    open spec fn obeys_eq_spec() -> bool {
        true
    }

    open spec fn eq_spec(&self, other: &Self) -> bool {
        self@ == other@
    }
}

impl Eq for ClusterIdentity {

}

} // verus!
