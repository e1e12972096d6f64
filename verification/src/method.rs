//! The request methods and their names.

use crate::error::{ParseError, ParseErrorView};
use crate::grammar::is_spaceless;
use crate::text::str_eq;
use vstd::prelude::*;

verus! {

/// A request method.
#[derive(Debug, Clone, Copy, PartialEq, Eq, Hash, Structural)]
pub enum Method {
    GET,
    DELETE,
    POST,
    PUT,
    HEAD,
    CONNECT,
    OPTIONS,
    TRACE,
    PATCH,
}

impl Method {
    /// The name of the method as it is written in a request line.
    pub open spec fn token(self) -> Seq<char> {
        match self {
            Method::GET => "GET"@,
            Method::DELETE => "DELETE"@,
            Method::POST => "POST"@,
            Method::PUT => "PUT"@,
            Method::HEAD => "HEAD"@,
            Method::CONNECT => "CONNECT"@,
            Method::OPTIONS => "OPTIONS"@,
            Method::TRACE => "TRACE"@,
            Method::PATCH => "PATCH"@,
        }
    }

    /// The method that `token` names, if it names one. The match is exact:
    /// nothing is trimmed and no letter changes case.
    pub open spec fn of_token(token: Seq<char>) -> Option<Method> {
        if token == "GET"@ {
            Some(Method::GET)
        } else if token == "DELETE"@ {
            Some(Method::DELETE)
        } else if token == "POST"@ {
            Some(Method::POST)
        } else if token == "PUT"@ {
            Some(Method::PUT)
        } else if token == "HEAD"@ {
            Some(Method::HEAD)
        } else if token == "CONNECT"@ {
            Some(Method::CONNECT)
        } else if token == "OPTIONS"@ {
            Some(Method::OPTIONS)
        } else if token == "TRACE"@ {
            Some(Method::TRACE)
        } else if token == "PATCH"@ {
            Some(Method::PATCH)
        } else {
            None
        }
    }

    /// Reads a method from its name. Each of the nine names gives its
    /// method; any other string is handed back in the error, unchanged.
    pub fn from(s: &str) -> (r: Result<Method, ParseError>)
        ensures
            match Method::of_token(s@) {
                Some(method) => r == Ok::<Method, ParseError>(method),
                None => r matches Err(e) && e@ == ParseErrorView::UnknownMethod(s@),
            },
            forall|method: Method|
                s@ == #[trigger] method.token() ==> r == Ok::<Method, ParseError>(method),
            (forall|method: Method| s@ != #[trigger] method.token()) ==> (r matches Err(e) && e@
                == ParseErrorView::UnknownMethod(s@)),
    {
        proof {
            Method::lemma_of_token_names(s@);
            if let Some(method) = Method::of_token(s@) {
                assert(s@ == method.token());
            }
        }
        if str_eq(s, "GET") {
            Ok(Method::GET)
        } else if str_eq(s, "DELETE") {
            Ok(Method::DELETE)
        } else if str_eq(s, "POST") {
            Ok(Method::POST)
        } else if str_eq(s, "PUT") {
            Ok(Method::PUT)
        } else if str_eq(s, "HEAD") {
            Ok(Method::HEAD)
        } else if str_eq(s, "CONNECT") {
            Ok(Method::CONNECT)
        } else if str_eq(s, "OPTIONS") {
            Ok(Method::OPTIONS)
        } else if str_eq(s, "TRACE") {
            Ok(Method::TRACE)
        } else if str_eq(s, "PATCH") {
            Ok(Method::PATCH)
        } else {
            Err(ParseError::UnknownMethod(s.to_owned()))
        }
    }

    /// The nine names are pairwise distinct.
    pub proof fn lemma_tokens_distinct(a: Method, b: Method)
        ensures
            a.token() == b.token() <==> a == b,
    {
        reveal_strlit("GET");
        reveal_strlit("DELETE");
        reveal_strlit("POST");
        reveal_strlit("PUT");
        reveal_strlit("HEAD");
        reveal_strlit("CONNECT");
        reveal_strlit("OPTIONS");
        reveal_strlit("TRACE");
        reveal_strlit("PATCH");
        if a != b && a.token() == b.token() {
            assert(a.token()[0] == b.token()[0]);
            assert(a.token()[1] == b.token()[1]);
        }
    }

    /// A name is not empty and holds no white space.
    pub proof fn lemma_token_spaceless(self)
        ensures
            self.token().len() > 0,
            is_spaceless(self.token()),
    {
        reveal_strlit("GET");
        reveal_strlit("DELETE");
        reveal_strlit("POST");
        reveal_strlit("PUT");
        reveal_strlit("HEAD");
        reveal_strlit("CONNECT");
        reveal_strlit("OPTIONS");
        reveal_strlit("TRACE");
        reveal_strlit("PATCH");
    }

    /// A token names a method exactly when it is that method's name.
    pub proof fn lemma_of_token_names(token: Seq<char>)
        ensures
            forall|method: Method|
                Method::of_token(token) == Some(method) <==> token == #[trigger] method.token(),
    {
        assert forall|method: Method|
            Method::of_token(token) == Some(method) <==> token == #[trigger] method.token() by {
            if token == method.token() {
                match Method::of_token(token) {
                    Some(found) => {
                        Method::lemma_tokens_distinct(found, method);
                    },
                    None => {},
                }
            }
        }
    }
}

} // verus!
