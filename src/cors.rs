use vstd::prelude::*;

verus! {

/// The cross-origin headers added to every response.
#[derive(Clone, Copy, Debug)]
pub struct CORS;

impl CORS {
    /// The name of the response hook that adds the headers.
    pub fn name(&self) -> (r: &'static str)
        ensures
            r@ == "Add CORS headers to responses"@,
    {
        "Add CORS headers to responses"
    }

    /// The header names and values, in the order they are set.
    pub fn headers(&self) -> (r: Vec<(&'static str, &'static str)>)
        ensures
            r@.len() == 4,
            r@[0].0@ == "Access-Control-Allow-Origin"@ && r@[0].1@ == "*"@,
            r@[1].0@ == "Access-Control-Allow-Methods"@ && r@[1].1@
                == "POST, GET, PATCH, DELETE, OPTIONS"@,
            r@[2].0@ == "Access-Control-Allow-Headers"@ && r@[2].1@ == "*"@,
            r@[3].0@ == "Access-Control-Allow-Credentials"@ && r@[3].1@ == "true"@,
    {
        let mut v: Vec<(&'static str, &'static str)> = Vec::new();
        v.push(("Access-Control-Allow-Origin", "*"));
        v.push(("Access-Control-Allow-Methods", "POST, GET, PATCH, DELETE, OPTIONS"));
        v.push(("Access-Control-Allow-Headers", "*"));
        v.push(("Access-Control-Allow-Credentials", "true"));
        v
    }
}

} // verus!
