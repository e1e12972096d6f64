//! Writing a request line and reading it back.

use crate::error::ParseErrorView;
use crate::grammar::{
    fits_target, join_target, lemma_join_target_spaceless, lemma_target_parts_joined,
};
use crate::method::Method;
use crate::request::{lemma_parse_framed, lemma_parse_shape, parse_request, RequestView};
use vstd::prelude::*;

verus! {

/// The text of a request line that names `method` and asks for `path` and
/// `query`: the method's name, a space, the target, a space, and the
/// protocol version.
pub open spec fn request_text(method: Method, path: Seq<char>, query: Option<Seq<char>>) -> Seq<
    char,
> {
    method.token() + " "@ + join_target(path, query) + " HTTP/1.1"@
}

/// Writing a path and a query string into a request line and parsing that
/// line gives them back, with the method, whenever a target can carry
/// them.
pub proof fn lemma_round_trip(method: Method, path: Seq<char>, query: Option<Seq<char>>)
    requires
        fits_target(path, query),
    ensures
        parse_request(request_text(method, path, query)) == Ok::<RequestView, ParseErrorView>(
            RequestView { path, query_string: query, method },
        ),
{
    let target = join_target(path, query);
    reveal_strlit(" ");
    reveal_strlit(" HTTP/1.1");
    method.lemma_token_spaceless();
    lemma_join_target_spaceless(path, query);
    lemma_parse_framed(Seq::empty(), method.token(), " "@, target, " HTTP/1.1"@);
    assert(request_text(method, path, query) =~= Seq::empty() + method.token() + " "@ + target
        + " HTTP/1.1"@);
    Method::lemma_of_token_names(method.token());
    lemma_target_parts_joined(path, query);
}

/// A request line gives back only what a target can carry: where parsing
/// the line written for a path and a query string gives those two,
/// neither holds white space, the path holds no question mark, and the
/// two together are not empty.
pub proof fn lemma_round_trip_only(method: Method, path: Seq<char>, query: Option<Seq<char>>)
    requires
        parse_request(request_text(method, path, query)) == Ok::<RequestView, ParseErrorView>(
            RequestView { path, query_string: query, method },
        ),
    ensures
        fits_target(path, query),
{
    lemma_parse_shape(request_text(method, path, query));
}

/// A request line written for an empty path and no query string holds no
/// target of its own: the parser takes the protocol version for it.
pub proof fn lemma_round_trip_without_target(method: Method)
    ensures
        parse_request(request_text(method, Seq::empty(), None)) == Ok::<
            RequestView,
            ParseErrorView,
        >(RequestView { path: "HTTP/1.1"@, query_string: None, method }),
{
    reveal_strlit("HTTP/1.1");
    reveal_strlit(" HTTP/1.1");
    reveal_strlit(" ");
    let version = "HTTP/1.1"@;
    let gap = seq![' ', ' '];
    method.lemma_token_spaceless();
    lemma_parse_framed(Seq::empty(), method.token(), gap, version, Seq::empty());
    assert(request_text(method, Seq::empty(), None) =~= Seq::empty() + method.token() + gap
        + version + Seq::empty());
    Method::lemma_of_token_names(method.token());
    lemma_target_parts_joined(version, None);
}

} // verus!
