use vstd::prelude::*;

verus! {

/// Yields the centre of the sample domain every time: deterministic, for tests.
#[derive(Debug, Clone, Copy)]
pub struct Fake;

/// Yields independent uniform samples.
#[derive(Debug, Clone, Copy)]
pub struct Independent;

} // verus!
