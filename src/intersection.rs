use vstd::prelude::*;

verus! {

/// Which side of a shape's defining surface a ray came from.
#[derive(Debug, Clone, Copy, PartialEq, Eq, Structural)]
pub enum Side {
    Outside,
    Inside,
}

} // verus!
