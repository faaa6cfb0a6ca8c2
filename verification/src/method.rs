//! The closed set of HTTP methods a route can be registered under.
//!
//! Unknown method names are rejected when a route is registered, never at
//! dispatch time.

use vstd::prelude::*;

use crate::strutil::str_eq;

verus! {

/// One of the nine HTTP request methods this core recognizes.
#[derive(Clone, Copy, Debug, PartialEq, Eq, Structural)]
pub enum HttpMethod {
    Get,
    Post,
    Put,
    Patch,
    Delete,
    Options,
    Head,
    Connect,
    Trace,
}

impl HttpMethod {
    /// The canonical upper-case wire name of the method.
    pub open spec fn spec_name(self) -> Seq<char> {
        match self {
            HttpMethod::Get => "GET"@,
            HttpMethod::Post => "POST"@,
            HttpMethod::Put => "PUT"@,
            HttpMethod::Patch => "PATCH"@,
            HttpMethod::Delete => "DELETE"@,
            HttpMethod::Options => "OPTIONS"@,
            HttpMethod::Head => "HEAD"@,
            HttpMethod::Connect => "CONNECT"@,
            HttpMethod::Trace => "TRACE"@,
        }
    }

    /// The method, if any, whose canonical name is `s`.
    pub open spec fn spec_from_name(s: Seq<char>) -> Option<HttpMethod> {
        if s == "GET"@ {
            Some(HttpMethod::Get)
        } else if s == "POST"@ {
            Some(HttpMethod::Post)
        } else if s == "PUT"@ {
            Some(HttpMethod::Put)
        } else if s == "PATCH"@ {
            Some(HttpMethod::Patch)
        } else if s == "DELETE"@ {
            Some(HttpMethod::Delete)
        } else if s == "OPTIONS"@ {
            Some(HttpMethod::Options)
        } else if s == "HEAD"@ {
            Some(HttpMethod::Head)
        } else if s == "CONNECT"@ {
            Some(HttpMethod::Connect)
        } else if s == "TRACE"@ {
            Some(HttpMethod::Trace)
        } else {
            None
        }
    }

    /// Canonical wire name of the method.
    pub fn name(&self) -> (r: &'static str)
        ensures
            r@ == self.spec_name(),
    {
        match self {
            HttpMethod::Get => "GET",
            HttpMethod::Post => "POST",
            HttpMethod::Put => "PUT",
            HttpMethod::Patch => "PATCH",
            HttpMethod::Delete => "DELETE",
            HttpMethod::Options => "OPTIONS",
            HttpMethod::Head => "HEAD",
            HttpMethod::Connect => "CONNECT",
            HttpMethod::Trace => "TRACE",
        }
    }

    /// Parse a wire name into a method; `None` exactly on names outside the
    /// closed set, so that registration can reject them up front.
    pub fn from_name(s: &str) -> (r: Option<HttpMethod>)
        ensures
            r == HttpMethod::spec_from_name(s@),
    {
        if str_eq(s, "GET") {
            Some(HttpMethod::Get)
        } else if str_eq(s, "POST") {
            Some(HttpMethod::Post)
        } else if str_eq(s, "PUT") {
            Some(HttpMethod::Put)
        } else if str_eq(s, "PATCH") {
            Some(HttpMethod::Patch)
        } else if str_eq(s, "DELETE") {
            Some(HttpMethod::Delete)
        } else if str_eq(s, "OPTIONS") {
            Some(HttpMethod::Options)
        } else if str_eq(s, "HEAD") {
            Some(HttpMethod::Head)
        } else if str_eq(s, "CONNECT") {
            Some(HttpMethod::Connect)
        } else if str_eq(s, "TRACE") {
            Some(HttpMethod::Trace)
        } else {
            None
        }
    }

    /// Round trip: parsing a method's canonical name yields the method back.
    pub proof fn lemma_name_round_trip(m: HttpMethod)
        ensures
            HttpMethod::spec_from_name(m.spec_name()) == Some(m),
    {
        reveal_strlit("GET");
        reveal_strlit("POST");
        reveal_strlit("PUT");
        reveal_strlit("PATCH");
        reveal_strlit("DELETE");
        reveal_strlit("OPTIONS");
        reveal_strlit("HEAD");
        reveal_strlit("CONNECT");
        reveal_strlit("TRACE");
        match m {
            HttpMethod::Get => {
                assert(HttpMethod::spec_from_name("GET"@) == Some(HttpMethod::Get));
            },
            HttpMethod::Post => {
                assert("POST"@ != "GET"@) by { assert("POST"@.len() == 4); assert("GET"@.len() == 3); };
                assert(HttpMethod::spec_from_name("POST"@) == Some(HttpMethod::Post));
            },
            HttpMethod::Put => {
                assert("PUT"@ != "GET"@) by { assert("PUT"@[0] != "GET"@[0]); }
                assert("PUT"@ != "POST"@) by { assert("PUT"@.len() == 3); assert("POST"@.len() == 4); };
                assert(HttpMethod::spec_from_name("PUT"@) == Some(HttpMethod::Put));
            },
            HttpMethod::Patch => {
                assert("PATCH"@ != "GET"@) by { assert("PATCH"@.len() == 5); assert("GET"@.len() == 3); };
                assert("PATCH"@ != "POST"@) by { assert("PATCH"@.len() == 5); assert("POST"@.len() == 4); };
                assert("PATCH"@ != "PUT"@) by { assert("PATCH"@.len() == 5); assert("PUT"@.len() == 3); };
                assert(HttpMethod::spec_from_name("PATCH"@) == Some(HttpMethod::Patch));
            },
            HttpMethod::Delete => {
                assert("DELETE"@ != "GET"@) by { assert("DELETE"@.len() == 6); assert("GET"@.len() == 3); };
                assert("DELETE"@ != "POST"@) by { assert("DELETE"@.len() == 6); assert("POST"@.len() == 4); };
                assert("DELETE"@ != "PUT"@) by { assert("DELETE"@.len() == 6); assert("PUT"@.len() == 3); };
                assert("DELETE"@ != "PATCH"@) by { assert("DELETE"@.len() == 6); assert("PATCH"@.len() == 5); };
                assert(HttpMethod::spec_from_name("DELETE"@) == Some(HttpMethod::Delete));
            },
            HttpMethod::Options => {
                assert("OPTIONS"@ != "GET"@) by { assert("OPTIONS"@.len() == 7); assert("GET"@.len() == 3); };
                assert("OPTIONS"@ != "POST"@) by { assert("OPTIONS"@.len() == 7); assert("POST"@.len() == 4); };
                assert("OPTIONS"@ != "PUT"@) by { assert("OPTIONS"@.len() == 7); assert("PUT"@.len() == 3); };
                assert("OPTIONS"@ != "PATCH"@) by { assert("OPTIONS"@.len() == 7); assert("PATCH"@.len() == 5); };
                assert("OPTIONS"@ != "DELETE"@) by { assert("OPTIONS"@.len() == 7); assert("DELETE"@.len() == 6); };
                assert(HttpMethod::spec_from_name("OPTIONS"@) == Some(HttpMethod::Options));
            },
            HttpMethod::Head => {
                assert("HEAD"@ != "GET"@) by { assert("HEAD"@.len() == 4); assert("GET"@.len() == 3); };
                assert("HEAD"@ != "POST"@) by { assert("HEAD"@[0] != "POST"@[0]); }
                assert("HEAD"@ != "PUT"@) by { assert("HEAD"@.len() == 4); assert("PUT"@.len() == 3); };
                assert("HEAD"@ != "PATCH"@) by { assert("HEAD"@.len() == 4); assert("PATCH"@.len() == 5); };
                assert("HEAD"@ != "DELETE"@) by { assert("HEAD"@.len() == 4); assert("DELETE"@.len() == 6); };
                assert("HEAD"@ != "OPTIONS"@) by { assert("HEAD"@.len() == 4); assert("OPTIONS"@.len() == 7); };
                assert(HttpMethod::spec_from_name("HEAD"@) == Some(HttpMethod::Head));
            },
            HttpMethod::Connect => {
                assert("CONNECT"@ != "GET"@) by { assert("CONNECT"@.len() == 7); assert("GET"@.len() == 3); };
                assert("CONNECT"@ != "POST"@) by { assert("CONNECT"@.len() == 7); assert("POST"@.len() == 4); };
                assert("CONNECT"@ != "PUT"@) by { assert("CONNECT"@.len() == 7); assert("PUT"@.len() == 3); };
                assert("CONNECT"@ != "PATCH"@) by { assert("CONNECT"@.len() == 7); assert("PATCH"@.len() == 5); };
                assert("CONNECT"@ != "DELETE"@) by { assert("CONNECT"@.len() == 7); assert("DELETE"@.len() == 6); };
                assert("CONNECT"@ != "OPTIONS"@) by { assert("CONNECT"@[0] != "OPTIONS"@[0]); }
                assert("CONNECT"@ != "HEAD"@) by { assert("CONNECT"@.len() == 7); assert("HEAD"@.len() == 4); };
                assert(HttpMethod::spec_from_name("CONNECT"@) == Some(HttpMethod::Connect));
            },
            HttpMethod::Trace => {
                assert("TRACE"@ != "GET"@) by { assert("TRACE"@.len() == 5); assert("GET"@.len() == 3); };
                assert("TRACE"@ != "POST"@) by { assert("TRACE"@.len() == 5); assert("POST"@.len() == 4); };
                assert("TRACE"@ != "PUT"@) by { assert("TRACE"@.len() == 5); assert("PUT"@.len() == 3); };
                assert("TRACE"@ != "PATCH"@) by { assert("TRACE"@[0] != "PATCH"@[0]); }
                assert("TRACE"@ != "DELETE"@) by { assert("TRACE"@.len() == 5); assert("DELETE"@.len() == 6); };
                assert("TRACE"@ != "OPTIONS"@) by { assert("TRACE"@.len() == 5); assert("OPTIONS"@.len() == 7); };
                assert("TRACE"@ != "HEAD"@) by { assert("TRACE"@.len() == 5); assert("HEAD"@.len() == 4); };
                assert("TRACE"@ != "CONNECT"@) by { assert("TRACE"@.len() == 5); assert("CONNECT"@.len() == 7); };
                assert(HttpMethod::spec_from_name("TRACE"@) == Some(HttpMethod::Trace));
            },
        }
    }
}

} // verus!
