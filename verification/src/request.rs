//! Requests and the parser that reads them.

use crate::error::{ParseError, ParseErrorView};
use crate::grammar::{
    after_first_token, first_token, fits_target, is_blank, is_spaceless, lemma_first_token_bounded,
    lemma_target_parts_fit, lemma_token_framed, line_end, next_token, request_line, target_parts,
};
use crate::method::Method;
use crate::text::{
    decode_lossy, is_whitespace, lemma_run_len, lossy_text, scan, str_eq, to_chars, CharClass,
};
use vstd::prelude::*;
use vstd::utf8::{decode_utf8, valid_utf8};

verus! {

/// What a request line asks for.
#[derive(Debug)]
pub struct Request {
    /// The target up to its first question mark.
    pub path: String,
    /// The target after its first question mark, if it has one.
    pub query_string: Option<String>,
    /// The method that the line names.
    pub method: Method,
}

/// The mathematical value of a [`Request`].
pub struct RequestView {
    /// The characters of the path.
    pub path: Seq<char>,
    /// The characters of the query string, if there is one.
    pub query_string: Option<Seq<char>>,
    /// The method.
    pub method: Method,
}

impl View for Request {
    type V = RequestView;

    open spec fn view(&self) -> RequestView {
        RequestView {
            path: self.path@,
            query_string: self.query_string.deep_view(),
            method: self.method,
        }
    }
}

impl PartialEq for Request {
    fn eq(&self, other: &Self) -> (equal: bool) {
        let same_query = match (&self.query_string, &other.query_string) {
            (Some(text), Some(other_text)) => str_eq(text.as_str(), other_text.as_str()),
            (None, None) => true,
            _ => false,
        };
        same_query && self.method == other.method && str_eq(
            self.path.as_str(),
            other.path.as_str(),
        )
    }
}

impl Eq for Request {

}

impl vstd::std_specs::cmp::PartialEqSpecImpl for Request {
    open spec fn obeys_eq_spec() -> bool {
        true
    }

    /// Two requests are equal when they have the same value.
    open spec fn eq_spec(&self, other: &Self) -> bool {
        self@ == other@
    }
}

impl Clone for Request {
    fn clone(&self) -> (copy: Self)
        ensures
            copy@ == self@,
    {
        let query_string = match &self.query_string {
            Some(text) => Some(text.clone()),
            None => None,
        };
        Request { path: self.path.clone(), query_string, method: self.method }
    }
}

/// What parsing `raw` gives. The request line is the first line of `raw`;
/// its first token names the method and its second token is the target.
/// Whatever follows the target on that line, and every later line, is
/// left unread.
pub open spec fn parse_request(raw: Seq<char>) -> Result<RequestView, ParseErrorView> {
    match request_line(raw) {
        None => Err(ParseErrorView::EmptyRequest),
        Some(line) => {
            let name = first_token(line);
            let target = first_token(after_first_token(line));
            if name.len() == 0 {
                Err(ParseErrorView::MissingMethod)
            } else if target.len() == 0 {
                Err(ParseErrorView::MissingPath)
            } else {
                match Method::of_token(name) {
                    None => Err(ParseErrorView::UnknownMethod(name)),
                    Some(method) => Ok(
                        RequestView {
                            path: target_parts(target).0,
                            query_string: target_parts(target).1,
                            method,
                        },
                    ),
                }
            }
        },
    }
}

/// The mathematical value of the outcome of a parse.
pub open spec fn outcome_view(outcome: Result<Request, ParseError>) -> Result<
    RequestView,
    ParseErrorView,
> {
    match outcome {
        Ok(request) => Ok(request@),
        Err(error) => Err(error@),
    }
}

/// Splits a target into its path and its query string. The split is at
/// the first question mark; nothing is trimmed or decoded. An empty target
/// gives the path `/`.
pub fn split_target(target: &str) -> (parts: (String, Option<String>))
    ensures
        parts.deep_view() == target_parts(target@),
{
    let chars = to_chars(target);
    let len = chars.len();
    if len == 0 {
        return (String::from_str("/"), None);
    }
    let mark = scan(chars.as_slice(), 0, len, CharClass::Except('?'));
    assert(chars@.subrange(0, len as int) =~= target@);
    if mark < len {
        let path = target.substring_char(0, mark);
        let query = target.substring_char(mark + 1, len);
        (path.to_owned(), Some(query.to_owned()))
    } else {
        (target.to_owned(), None)
    }
}

impl Request {
    /// Parses the request line at the head of `request`.
    ///
    /// Fails with `EmptyRequest` on an input without characters, with
    /// `MissingMethod` where the first line holds no token, with
    /// `MissingPath` where it holds one token only, and with
    /// `UnknownMethod` where its first token names no method. A third
    /// token and whatever follows it are not looked at. The path and the
    /// query string of a request that was read hold no white space, and
    /// the path holds no question mark.
    pub fn from(request: &str) -> (outcome: Result<Request, ParseError>)
        ensures
            outcome_view(outcome) == parse_request(request@),
            outcome matches Ok(parsed) ==> fits_target(parsed@.path, parsed@.query_string),
    {
        proof {
            lemma_parse_shape(request@);
        }
        let chars = to_chars(request);
        let s = chars.as_slice();
        let end = match line_end(s) {
            Some(end) => end,
            None => {
                return Err(ParseError::EmptyRequest);
            },
        };
        let (name_start, name_end) = next_token(s, 0, end);
        if name_start == name_end {
            return Err(ParseError::MissingMethod);
        }
        let (target_start, target_end) = next_token(s, name_end, end);
        if target_start == target_end {
            return Err(ParseError::MissingPath);
        }
        let method = match Method::from(request.substring_char(name_start, name_end)) {
            Ok(method) => method,
            Err(error) => {
                return Err(error);
            },
        };
        let (path, query_string) = split_target(request.substring_char(target_start, target_end));
        Ok(Request { path, query_string, method })
    }

    /// Parses the request line at the head of a buffer of bytes. The bytes
    /// are read as UTF-8, and a replacement character stands for each
    /// sequence that is not.
    pub fn from_bytes(buffer: &[u8]) -> (outcome: Result<Request, ParseError>)
        ensures
            outcome_view(outcome) == parse_request(lossy_text(buffer@)),
            valid_utf8(buffer@) ==> outcome_view(outcome) == parse_request(decode_utf8(buffer@)),
            outcome matches Ok(parsed) ==> fits_target(parsed@.path, parsed@.query_string),
    {
        let text = decode_lossy(buffer);
        Request::from(text.as_str())
    }
}

/// Parsing is a function of the input: two outcomes of parsing the same
/// input have the same value.
pub proof fn lemma_parse_deterministic(
    raw: Seq<char>,
    first: Result<Request, ParseError>,
    second: Result<Request, ParseError>,
)
    requires
        outcome_view(first) == parse_request(raw),
        outcome_view(second) == parse_request(raw),
    ensures
        outcome_view(first) == outcome_view(second),
{
}

/// Every request that the parser gives has a path and a query string that
/// a target can carry, and every method token that it turns down is a
/// token that names no method.
pub proof fn lemma_parse_shape(raw: Seq<char>)
    ensures
        parse_request(raw) matches Ok(request) ==> fits_target(request.path, request.query_string),
        parse_request(raw) matches Err(ParseErrorView::UnknownMethod(name)) ==> name.len() > 0
            && is_spaceless(name) && Method::of_token(name) is None,
{
    if let Some(line) = request_line(raw) {
        lemma_first_token_bounded(line);
        lemma_first_token_bounded(after_first_token(line));
        lemma_target_parts_fit(first_token(after_first_token(line)));
    }
}

/// When the parser fails before it looks at the method: on an input
/// without characters, on a request line of nothing but white space, and
/// on a request line with nothing but white space after its first token.
pub proof fn lemma_parse_failures(raw: Seq<char>)
    ensures
        parse_request(raw) == Err::<RequestView, ParseErrorView>(ParseErrorView::EmptyRequest)
            <==> raw.len() == 0,
        parse_request(raw) == Err::<RequestView, ParseErrorView>(ParseErrorView::MissingMethod)
            <==> (request_line(raw) matches Some(line) && is_blank(line)),
        parse_request(raw) == Err::<RequestView, ParseErrorView>(ParseErrorView::MissingPath)
            <==> (request_line(raw) matches Some(line) && !is_blank(line) && is_blank(
            after_first_token(line),
        )),
{
    if let Some(line) = request_line(raw) {
        lemma_first_token_bounded(line);
        lemma_first_token_bounded(after_first_token(line));
    }
}

/// The shape of an input with a method token and a target. White space
/// without a line feed may stand before the method token; white space
/// without a line feed parts the two tokens; what follows the target is
/// empty or starts with white space, and is otherwise free. Such an input
/// parses to the method that the token names and the parts of the target,
/// or fails on the token if it names no method.
pub proof fn lemma_parse_framed(
    lead: Seq<char>,
    name: Seq<char>,
    gap: Seq<char>,
    target: Seq<char>,
    rest: Seq<char>,
)
    requires
        is_blank(lead) && !lead.contains('\n'),
        is_spaceless(name) && name.len() > 0,
        is_blank(gap) && !gap.contains('\n') && gap.len() > 0,
        is_spaceless(target) && target.len() > 0,
        rest.len() > 0 ==> is_whitespace(rest[0]),
    ensures
        parse_request(lead + name + gap + target + rest) == (match Method::of_token(name) {
            Some(method) => Ok(
                RequestView {
                    path: target_parts(target).0,
                    query_string: target_parts(target).1,
                    method,
                },
            ),
            None => Err(ParseErrorView::UnknownMethod(name)),
        }),
{
    let head = lead + name + gap + target;
    let raw = head + rest;
    // No line feed stands before the end of the target, so the request line
    // reaches at least that far.
    assert forall|i: int| 0 <= i < head.len() implies raw[i] != '\n' by {
        if i < lead.len() {
            assert(raw[i] == lead[i]);
        } else if i < lead.len() + name.len() {
            assert(raw[i] == name[i - lead.len()]);
        } else if i < lead.len() + name.len() + gap.len() {
            assert(raw[i] == gap[i - lead.len() - name.len()]);
        } else {
            assert(raw[i] == target[i - lead.len() - name.len() - gap.len()]);
        }
    }
    lemma_run_len(raw, CharClass::Except('\n'));
    let line = request_line(raw).unwrap();
    let tail = rest.take(line.len() - head.len());
    assert(line =~= lead + name + (gap + target + tail));
    // The line is the two tokens in their white space, and a part of `rest`.
    lemma_token_framed(lead, name, gap + target + tail);
    lemma_token_framed(gap, target, tail);
}

} // verus!
