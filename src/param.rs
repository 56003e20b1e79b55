use vstd::prelude::*;

verus! {

/// A bare positional value.
#[derive(Debug, Clone)]
pub struct Param {
    pub param: String,
}

impl Param {
    pub fn new(param: &str) -> (r: Self)
        ensures
            r.param@ == param@,
    {
        Param { param: param.to_owned() }
    }

    /// The value as an owned string.
    pub fn to_string(&self) -> (r: String)
        ensures
            r@ == self.param@,
    {
        self.param.clone()
    }
}

} // verus!
