use vstd::prelude::*;

verus! {

/// The error that a retry run ends with when its delay sequence has run out
/// before any attempt's action completed.
#[derive(Debug, PartialEq, Eq, Structural, Clone, Copy)]
pub struct Exhausted {}

impl Exhausted {
    pub fn new() -> (r: Exhausted)
        ensures
            r == (Exhausted {}),
    {
        Exhausted {}
    }

    /// A human-readable description of the error.
    pub fn message(&self) -> (r: String)
        ensures
            r@ == "chances have been run out"@,
    {
        let r = String::from_str("chances have been run out");
        proof {
            reveal_strlit("chances have been run out");
        }
        r
    }
}

} // verus!
