//! Requests to send and replies to read.

use crate::json;
use crate::text;
use serde_json::Value;
use vstd::prelude::*;

verus! {

pub struct Header {
    pub name: String,
    pub value: String,
}

/// A request: a `POST` with a JSON body, or a `GET`.
pub struct Request {
    pub url: String,
    pub headers: Vec<Header>,
    pub body: Option<Value>,
}

pub struct RequestView {
    pub url: Seq<char>,
    pub headers: Seq<(Seq<char>, Seq<char>)>,
    pub body: Option<json::Json>,
}

pub open spec fn header_views(v: Seq<Header>) -> Seq<(Seq<char>, Seq<char>)> {
    v.map_values(|h: Header| (h.name@, h.value@))
}

impl View for Request {
    type V = RequestView;

    open spec fn view(&self) -> RequestView {
        RequestView {
            url: self.url@,
            headers: header_views(self.headers@),
            body: match self.body {
                Some(b) => Some(json::json_of(b)),
                None => None,
            },
        }
    }
}

/// Headers under construction.
pub struct Headers {
    pub list: Vec<Header>,
}

impl View for Headers {
    type V = Seq<(Seq<char>, Seq<char>)>;

    open spec fn view(&self) -> Seq<(Seq<char>, Seq<char>)> {
        header_views(self.list@)
    }
}

impl Headers {
    pub fn new() -> (r: Headers)
        ensures
            r@ == Seq::<(Seq<char>, Seq<char>)>::empty(),
    {
        let r = Headers { list: Vec::new() };
        assert(r@ =~= Seq::<(Seq<char>, Seq<char>)>::empty());
        r
    }

    pub fn add(&mut self, name: &str, value: &str)
        ensures
            final(self)@ == old(self)@.push((name@, value@)),
    {
        self.list.push(Header { name: text::owned(name), value: text::owned(value) });
        assert(self@ =~= old(self)@.push((name@, value@)));
    }
}

/// What came back: the status code and the body.
pub struct Reply {
    pub status: u16,
    pub body: String,
}

impl Reply {
    /// Whether the status is one that HTTP has.
    pub open spec fn valid(self) -> bool {
        100 <= self.status <= 999
    }

    pub open spec fn succeeded(self) -> bool {
        200 <= self.status < 300
    }

    pub fn is_success(&self) -> (r: bool)
        ensures
            r == self.succeeded(),
    {
        200 <= self.status && self.status < 300
    }
}

/// The reason that HTTP gives for a status code.
pub uninterp spec fn status_reason(code: u16) -> Seq<char>;

/// A status code with its reason.
pub open spec fn status_shown(code: u16) -> Seq<char> {
    text::dec(code as nat) + " "@ + status_reason(code)
}

/// `Display` of `reqwest::StatusCode`: the digits of the code, a space and its
/// reason. The codes that HTTP has are 100 to 999.
#[verifier::external_body]
pub(crate) fn status_text(code: u16) -> (r: Option<String>)
    ensures
        r is Some == (100 <= code <= 999),
        r matches Some(s) ==> s@ == text::dec(code as nat) + " "@ + status_reason(code),
{
    reqwest::StatusCode::from_u16(code).ok().map(|s| s.to_string())
}

pub fn status_line(code: u16) -> (r: String)
    requires
        100 <= code <= 999,
    ensures
        r@ == status_shown(code),
{
    status_text(code).unwrap()
}

} // verus!
