//! The head of an HTTP request as the listener reads it.

use crate::text::equal;
use vstd::prelude::*;

verus! {

/// One header line of a request.
#[derive(Debug, PartialEq, Eq)]
pub struct Header {
    pub name: Vec<u8>,
    pub value: Vec<u8>,
}

/// What a `Header` holds, as sequences of bytes.
pub struct HeaderView {
    pub name: Seq<u8>,
    pub value: Seq<u8>,
}

impl View for Header {
    type V = HeaderView;

    open spec fn view(&self) -> HeaderView {
        HeaderView { name: self.name@, value: self.value@ }
    }
}

/// The head of a request: method, path and the header slots in their order.
///
/// `method` and `path` are `None` where the bytes ended before them. A slot
/// that no header line filled has an empty name and an empty value.
#[derive(Debug, PartialEq, Eq)]
pub struct ParsedRequest {
    pub method: Option<Vec<u8>>,
    pub path: Option<Vec<u8>>,
    pub headers: Vec<Header>,
}

/// What a `ParsedRequest` holds, as sequences of bytes.
pub struct RequestView {
    pub method: Option<Seq<u8>>,
    pub path: Option<Seq<u8>>,
    pub headers: Seq<HeaderView>,
}

/// An optional byte string as an optional sequence.
pub open spec fn bytes_view(bytes: Option<Vec<u8>>) -> Option<Seq<u8>> {
    match bytes {
        Some(b) => Some(b@),
        None => None,
    }
}

impl View for ParsedRequest {
    type V = RequestView;

    open spec fn view(&self) -> RequestView {
        RequestView {
            method: bytes_view(self.method),
            path: bytes_view(self.path),
            headers: Seq::new(self.headers@.len(), |i: int| self.headers@[i]@),
        }
    }
}

/// An optional request as an optional view.
pub open spec fn request_view(request: Option<ParsedRequest>) -> Option<RequestView> {
    match request {
        Some(r) => Some(r@),
        None => None,
    }
}

/// What `httparse` makes of `data` read as a request head into sixteen header
/// slots: `None` where it reports an error, else the method, the path and all
/// sixteen slots as they stand after the call.
pub uninterp spec fn httparse_head(data: Seq<u8>) -> Option<RequestView>;

/// Parses `data` with `httparse::Request::parse`, on sixteen slots that start
/// out as `httparse::EMPTY_HEADER`.
///
/// Trusted: the result is the one that `httparse_head` names. An incomplete
/// head is no error to `httparse`; it then hands back what it has read so far.
#[verifier::external_body]
fn parse_head(data: &[u8]) -> (r: Option<ParsedRequest>)
    ensures
        request_view(r) == httparse_head(data@),
{
    let mut slots = [httparse::EMPTY_HEADER; 16];
    let mut request = httparse::Request::new(&mut slots);
    if request.parse(data).is_err() {
        return None;
    }
    let method = request.method.map(|m| m.as_bytes().to_vec());
    let path = request.path.map(|p| p.as_bytes().to_vec());
    let mut headers = Vec::new();
    for slot in slots.iter() {
        headers.push(Header { name: slot.name.as_bytes().to_vec(), value: slot.value.to_vec() });
    }
    Some(ParsedRequest { method, path, headers })
}

/// Reads the head of a request from the bytes of a connection.
pub fn parse(data: &[u8]) -> (r: Option<ParsedRequest>)
    ensures
        request_view(r) == httparse_head(data@),
{
    parse_head(data)
}

/// The value of the first header called `name`, if there is one.
pub open spec fn first_value(headers: Seq<HeaderView>, name: Seq<u8>) -> Option<Seq<u8>>
    decreases headers.len(),
{
    if headers.len() == 0 {
        None
    } else if headers[0].name == name {
        Some(headers[0].value)
    } else {
        first_value(headers.drop_first(), name)
    }
}

/// The value of the last header called `name`, if there is one.
pub open spec fn last_value(headers: Seq<HeaderView>, name: Seq<u8>) -> Option<Seq<u8>>
    decreases headers.len(),
{
    if headers.len() == 0 {
        None
    } else if headers.last().name == name {
        Some(headers.last().value)
    } else {
        last_value(headers.drop_last(), name)
    }
}

/// Where the first header called `name` stands, its value is what `first_value` gives.
pub proof fn first_value_at(headers: Seq<HeaderView>, name: Seq<u8>, at: int)
    requires
        0 <= at < headers.len(),
        headers[at].name == name,
        forall|k: int| 0 <= k < at ==> headers[k].name != name,
    ensures
        first_value(headers, name) == Some(headers[at].value),
    decreases at,
{
    if at > 0 {
        assert(headers[0].name != name);
        let rest = headers.drop_first();
        assert forall|k: int| 0 <= k < at - 1 implies rest[k].name != name by {
            assert(rest[k] == headers[k + 1]);
        }
        first_value_at(rest, name, at - 1);
    }
}

/// Where the last header called `name` stands, its value is what `last_value` gives.
pub proof fn last_value_at(headers: Seq<HeaderView>, name: Seq<u8>, at: int)
    requires
        0 <= at < headers.len(),
        headers[at].name == name,
        forall|k: int| at < k < headers.len() ==> headers[k].name != name,
    ensures
        last_value(headers, name) == Some(headers[at].value),
    decreases headers.len(),
{
    if at < headers.len() - 1 {
        assert(headers.last().name != name);
        let rest = headers.drop_last();
        assert forall|k: int| at < k < rest.len() implies rest[k].name != name by {
            assert(rest[k] == headers[k]);
        }
        last_value_at(rest, name, at);
    }
}

/// Among headers of which none is called `name`, neither lookup finds a value.
pub proof fn no_value_without_name(headers: Seq<HeaderView>, name: Seq<u8>)
    requires
        forall|k: int| 0 <= k < headers.len() ==> headers[k].name != name,
    ensures
        first_value(headers, name) is None,
        last_value(headers, name) is None,
    decreases headers.len(),
{
    if headers.len() > 0 {
        assert(headers[0].name != name);
        assert(headers.last().name != name);
        let front = headers.drop_last();
        let back = headers.drop_first();
        assert forall|k: int| 0 <= k < front.len() implies front[k].name != name by {
            assert(front[k] == headers[k]);
        }
        assert forall|k: int| 0 <= k < back.len() implies back[k].name != name by {
            assert(back[k] == headers[k + 1]);
        }
        no_value_without_name(front, name);
        no_value_without_name(back, name);
    }
}

impl ParsedRequest {
    /// Looks up the value of the first header called `name`.
    pub fn first_header(&self, name: &[u8]) -> (r: Option<&Vec<u8>>)
        ensures
            match r {
                Some(value) => first_value(self@.headers, name@) == Some(value@),
                None => first_value(self@.headers, name@) is None,
            },
    {
        let ghost all = self@.headers;
        let mut i: usize = 0;
        assert(all.skip(0) =~= all);
        while i < self.headers.len()
            invariant
                i <= self.headers.len(),
                all == self@.headers,
                first_value(all, name@) == first_value(all.skip(i as int), name@),
            decreases self.headers.len() - i,
        {
            assert(all.skip(i as int)[0] == self.headers@[i as int]@);
            if equal(self.headers[i].name.as_slice(), name) {
                return Some(&self.headers[i].value);
            }
            assert(all.skip(i as int).drop_first() =~= all.skip(i + 1));
            i += 1;
        }
        None
    }

    /// Looks up the value of the last header called `name`.
    pub fn last_header(&self, name: &[u8]) -> (r: Option<&Vec<u8>>)
        ensures
            match r {
                Some(value) => last_value(self@.headers, name@) == Some(value@),
                None => last_value(self@.headers, name@) is None,
            },
    {
        let ghost all = self@.headers;
        let mut found: Option<&Vec<u8>> = None;
        let mut i: usize = 0;
        while i < self.headers.len()
            invariant
                i <= self.headers.len(),
                all == self@.headers,
                match found {
                    Some(value) => last_value(all.take(i as int), name@) == Some(value@),
                    None => last_value(all.take(i as int), name@) is None,
                },
            decreases self.headers.len() - i,
        {
            assert(all.take(i + 1).last() == self.headers@[i as int]@);
            assert(all.take(i + 1).drop_last() =~= all.take(i as int));
            if equal(self.headers[i].name.as_slice(), name) {
                found = Some(&self.headers[i].value);
            }
            i += 1;
        }
        assert(all.take(i as int) =~= all);
        found
    }
}

/// The path that a request asks for; empty where the bytes ended before it.
pub open spec fn path_of(request: RequestView) -> Seq<u8> {
    match request.path {
        Some(path) => path,
        None => Seq::empty(),
    }
}

} // verus!
