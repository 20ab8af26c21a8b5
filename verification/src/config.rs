//! Settings read at start-up and the CORS headers added to every response.
use crate::text::{lowercase, to_lowercase};
use vstd::prelude::*;

verus! {

/// An environment switch is on when it reads `true` or `yes` in any case.
pub open spec fn switched_on(value: Seq<char>) -> bool {
    lowercase(value) == "true"@ || lowercase(value) == "yes"@
}

/// Whether an environment switch such as `ENABLE_MAL` is on.
pub fn flag_enabled(value: &str) -> (r: bool)
    ensures
        r == switched_on(value@),
{
    let lower = to_lowercase(value);
    lower == String::from_str("true") || lower == String::from_str("yes")
}

/// The headers that let any origin call the server.
pub struct CORS;

/// The CORS headers, name and value.
pub open spec fn cors_headers() -> Seq<(Seq<char>, Seq<char>)> {
    seq![
        ("Access-Control-Allow-Origin"@, "*"@),
        ("Access-Control-Allow-Methods"@, "POST, GET, PATCH, OPTIONS"@),
        ("Access-Control-Allow-Headers"@, "*"@),
        ("Access-Control-Allow-Credentials"@, "true"@),
    ]
}

fn header(name: &str, value: &str) -> (r: (String, String))
    ensures
        r.0@ == name@,
        r.1@ == value@,
{
    (String::from_str(name), String::from_str(value))
}

impl CORS {
    /// The name under which the server lists this response hook.
    pub fn name(&self) -> (r: String)
        ensures
            r@ == "Add CORS headers to requests"@,
    {
        String::from_str("Add CORS headers to requests")
    }

    /// The headers set on every response, in the order they are set.
    pub fn headers(&self) -> (r: Vec<(String, String)>)
        ensures
            r@.map_values(|h: (String, String)| (h.0@, h.1@)) == cors_headers(),
        r@.len() == 4,
        r@[0].0@ == "Access-Control-Allow-Origin"@ && r@[0].1@ == "*"@,
        r@[1].0@ == "Access-Control-Allow-Methods"@ && r@[1].1@ == "POST, GET, PATCH, OPTIONS"@,
        r@[2].0@ == "Access-Control-Allow-Headers"@ && r@[2].1@ == "*"@,
        r@[3].0@ == "Access-Control-Allow-Credentials"@ && r@[3].1@ == "true"@,
    {
        let mut r: Vec<(String, String)> = Vec::new();
        r.push(header("Access-Control-Allow-Origin", "*"));
        r.push(header("Access-Control-Allow-Methods", "POST, GET, PATCH, OPTIONS"));
        r.push(header("Access-Control-Allow-Headers", "*"));
        r.push(header("Access-Control-Allow-Credentials", "true"));
        assert(r@.map_values(|h: (String, String)| (h.0@, h.1@)) =~= cors_headers());
        r
    }
}

} // verus!
