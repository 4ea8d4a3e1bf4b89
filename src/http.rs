//! Requests, responses and the parameters bound while routing.

use vstd::prelude::*;
use vstd::string::*;
use vstd::utf8::encode_utf8;

use crate::text::same_text;

verus! {

/// The request methods a controller answers, and all others.
#[derive(Clone, Copy, Debug, PartialEq, Eq, Structural)]
pub enum Method {
    Get,
    Post,
    Put,
    Delete,
    Other,
}

/// One header line.
#[derive(Clone, Debug)]
pub struct Header {
    pub name: String,
    pub value: String,
}

/// An inbound request as the transport hands it over.
#[derive(Clone, Debug)]
pub struct Request {
    pub method: Method,
    pub path: String,
    pub headers: Vec<Header>,
    pub body: Vec<u8>,
}

/// A response ready to be sent.
#[derive(Clone, Debug)]
pub struct Response {
    pub status: u16,
    pub headers: Vec<Header>,
    pub body: Vec<u8>,
}

/// The headers as name and value pairs.
pub open spec fn header_views(hs: Seq<Header>) -> Seq<(Seq<char>, Seq<char>)> {
    hs.map_values(|h: Header| (h.name@, h.value@))
}

/// What a request holds.
pub struct RequestView {
    pub method: Method,
    pub path: Seq<char>,
    pub headers: Seq<(Seq<char>, Seq<char>)>,
    pub body: Seq<u8>,
}

impl View for Request {
    type V = RequestView;

    open spec fn view(&self) -> RequestView {
        RequestView {
            method: self.method,
            path: self.path@,
            headers: header_views(self.headers@),
            body: self.body@,
        }
    }
}

/// What a response holds.
pub struct ResponseView {
    pub status: u16,
    pub headers: Seq<(Seq<char>, Seq<char>)>,
    pub body: Seq<u8>,
}

impl View for Response {
    type V = ResponseView;

    open spec fn view(&self) -> ResponseView {
        ResponseView { status: self.status, headers: header_views(self.headers@), body: self.body@ }
    }
}

/// A response with the given status, no header and an empty body.
pub open spec fn bare_view(status: u16) -> ResponseView {
    ResponseView { status, headers: Seq::empty(), body: Seq::empty() }
}

/// `r` has the given status, no header and an empty body.
pub open spec fn is_bare(r: Response, status: u16) -> bool {
    &&& r.status == status
    &&& r.headers@.len() == 0
    &&& r.body@.len() == 0
}

/// `r` has the given status, a JSON content type and the UTF-8 bytes of `text`.
pub open spec fn is_json(r: Response, status: u16, text: Seq<char>) -> bool {
    &&& r.status == status
    &&& r.headers@.len() == 1
    &&& r.headers@[0].name@ == "content-type"@
    &&& r.headers@[0].value@ == "application/json"@
    &&& r.body@ == encode_utf8(text)
}

impl Response {
    /// A response with the given status, no header and no body.
    pub fn bare(status: u16) -> (r: Response)
        ensures
            is_bare(r, status),
            r@ == bare_view(status),
    {
        let r = Response { status, headers: Vec::new(), body: Vec::new() };
        proof {
            assert(r@.headers =~= Seq::empty());
            assert(r@.body =~= Seq::empty());
        }
        r
    }

    /// A response with the given status whose body is the JSON text `text`.
    pub fn json(status: u16, text: String) -> (r: Response)
        ensures
            is_json(r, status, text@),
    {
        let mut headers: Vec<Header> = Vec::new();
        headers.push(
            Header {
                name: String::from_str("content-type"),
                value: String::from_str("application/json"),
            },
        );
        Response { status, headers, body: text.as_str().as_bytes_vec() }
    }
}

/// One named value bound by a route template or a query string.
#[derive(Clone, Debug)]
pub struct Param {
    pub name: String,
    pub value: String,
}

/// The value first bound to `key` in `entries`, if any.
pub open spec fn lookup(entries: Seq<(Seq<char>, Seq<char>)>, key: Seq<char>) -> Option<Seq<char>>
    decreases entries.len(),
{
    if entries.len() == 0 {
        None
    } else if entries[0].0 == key {
        Some(entries[0].1)
    } else {
        lookup(entries.drop_first(), key)
    }
}

/// Named values in the order they were bound; the first binding of a name counts.
#[derive(Clone, Debug)]
pub struct ParamMap {
    pub entries: Vec<Param>,
}

impl View for ParamMap {
    type V = Seq<(Seq<char>, Seq<char>)>;

    open spec fn view(&self) -> Seq<(Seq<char>, Seq<char>)> {
        self.entries@.map_values(|p: Param| (p.name@, p.value@))
    }
}

impl ParamMap {
    /// A map with no binding.
    pub fn new() -> (m: ParamMap)
        ensures
            m@ == Seq::<(Seq<char>, Seq<char>)>::empty(),
    {
        ParamMap { entries: Vec::new() }
    }

    /// Binds `name` to `value` after the bindings already made.
    pub fn insert(&mut self, name: String, value: String)
        ensures
            final(self)@ == old(self)@.push((name@, value@)),
    {
        let ghost n = name@;
        let ghost v = value@;
        self.entries.push(Param { name, value });
        proof {
            assert(final(self)@ =~= old(self)@.push((n, v)));
        }
    }

    /// The value bound to `key`.
    pub fn get(&self, key: &str) -> (r: Option<&String>)
        ensures
            r matches Some(v) ==> lookup(self@, key@) == Some(v@),
            r is None ==> lookup(self@, key@) is None,
    {
        let mut i: usize = 0;
        proof {
            assert(self@.skip(0) =~= self@);
        }
        while i < self.entries.len()
            invariant
                i <= self.entries@.len(),
                lookup(self@, key@) == lookup(self@.skip(i as int), key@),
            decreases self.entries@.len() - i,
        {
            let p = &self.entries[i];
            proof {
                assert(self@.skip(i as int)[0] == (p.name@, p.value@));
                assert(self@.skip(i as int).drop_first() =~= self@.skip(i + 1));
            }
            if same_text(p.name.as_str(), key) {
                return Some(&p.value);
            }
            i = i + 1;
        }
        None
    }

    /// Whether `key` is bound.
    pub fn contains_key(&self, key: &str) -> (r: bool)
        ensures
            r == lookup(self@, key@) is Some,
    {
        self.get(key).is_some()
    }
}

} // verus!

verus! {

/// Two replies made for the same status and JSON text hold the same bytes:
/// a reply depends on nothing else.
pub proof fn law_same_reply_same_bytes(a: Response, b: Response, status: u16, text: Seq<char>)
    requires
        is_json(a, status, text),
        is_json(b, status, text),
    ensures
        a.status == b.status,
        a.body@ == b.body@,
        a@ == b@,
{
    assert(a@.headers =~= b@.headers);
}

} // verus!
