//! The closed set of HTTP methods the executor supports.

use vstd::prelude::*;

verus! {

/// Supported request methods.
#[derive(Clone, Copy, PartialEq, Eq, Structural, Debug)]
pub enum FetchMethod {
    Get,
    Post,
    Put,
}

impl FetchMethod {
    /// The canonical uppercase wire-protocol token for this method.
    pub open spec fn token(self) -> Seq<char> {
        match self {
            FetchMethod::Get => "GET"@,
            FetchMethod::Post => "POST"@,
            FetchMethod::Put => "PUT"@,
        }
    }

    /// Return the string representation of the fetch method.
    pub fn as_str(&self) -> (r: &'static str)
        ensures
            r@ == self.token(),
    {
        match self {
            FetchMethod::Get => "GET",
            FetchMethod::Post => "POST",
            FetchMethod::Put => "PUT",
        }
    }
}

/// The transmitted method token is always one of the three literal strings
/// `"GET"`, `"POST"` and `"PUT"`, and it identifies the variant exactly.
pub proof fn lemma_method_token_canonical(m: FetchMethod)
    ensures
        m.token() == "GET"@ || m.token() == "POST"@ || m.token() == "PUT"@,
        m is Get <==> m.token() == "GET"@,
        m is Post <==> m.token() == "POST"@,
        m is Put <==> m.token() == "PUT"@,
{
    reveal_strlit("GET");
    reveal_strlit("POST");
    reveal_strlit("PUT");
    assert("GET"@ != "POST"@) by {
        assert("GET"@.len() != "POST"@.len());
    }
    assert("PUT"@ != "POST"@) by {
        assert("PUT"@.len() != "POST"@.len());
    }
    assert("GET"@ != "PUT"@) by {
        assert("GET"@[0] != "PUT"@[0]);
    }
}

} // verus!
