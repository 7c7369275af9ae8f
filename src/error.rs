use vstd::prelude::*;

verus! {

/// A bike network that has no link to its stations.
#[derive(Debug)]
pub struct InvalidBikeNetwork {
    pub name: String,
}

impl InvalidBikeNetwork {
    pub fn new(name: String) -> (r: InvalidBikeNetwork)
        ensures
            r.name@ == name@,
    {
        InvalidBikeNetwork { name }
    }

    /// The error's text.
    pub fn message(&self) -> (r: String)
        ensures
            r@ == "InvalidBikeNetwork name: "@ + self.name@,
    {
        let mut r = String::from_str("InvalidBikeNetwork name: ");
        r.append(self.name.as_str());
        r
    }
}

} // verus!
