use vstd::prelude::*;

verus! {

/// The position of a tab within a leaf's tab list.
#[derive(Clone, Copy, Debug, PartialEq, Eq, Structural)]
pub struct TabIndex(pub usize);

impl From<usize> for TabIndex {
    fn from(index: usize) -> (r: TabIndex) {
        TabIndex(index)
    }
}

impl vstd::std_specs::convert::FromSpecImpl<usize> for TabIndex {
    open spec fn obeys_from_spec() -> bool {
        true
    }

    open spec fn from_spec(v: usize) -> TabIndex {
        TabIndex(v)
    }
}

} // verus!
