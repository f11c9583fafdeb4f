//! One connection: what the bytes read from it ask for, what is sent back,
//! and what the accept loop learns from it.

use crate::request::{
    bytes_view, first_value, httparse_head, last_value, last_value_at, no_value_without_name,
    parse, path_of, request_view, ParsedRequest, RequestView,
};
use crate::response::{
    document, document_text, http_response, response_text, script, script_text, template_view,
};
use crate::sentinel::{is_exit, opens_with_exit};
use crate::text::{equal, occurs_at, starts_with};
use vstd::prelude::*;
use vstd::string::*;
use vstd::utf8::*;

verus! {

/// How many bytes the listener reads from a connection at most.
pub const BUFFER_SIZE: usize = 4048;

/// The path that asks the listener to shut down.
pub open spec fn exit_path() -> Seq<u8> {
    "/exit".spec_bytes()
}

/// The path that the script sends the browser's address to.
pub open spec fn callback_path() -> Seq<u8> {
    "/cb".spec_bytes()
}

/// The name of the header that carries the browser's address.
pub open spec fn full_url_name() -> Seq<u8> {
    "Full-Url".spec_bytes()
}

/// The name of the header that tells which host the browser addressed.
pub open spec fn host_name() -> Seq<u8> {
    "Host".spec_bytes()
}

/// What `String::from_utf8_lossy` makes of `bytes`.
pub uninterp spec fn utf8_lossy(bytes: Seq<u8>) -> Seq<char>;

/// Decodes `bytes` with `String::from_utf8_lossy`.
///
/// Trusted: the result is the one that `utf8_lossy` names, and bytes that are
/// valid UTF-8 come back as the text that they encode.
#[verifier::external_body]
fn decode_lossy(bytes: &[u8]) -> (text: String)
    ensures
        text@ == utf8_lossy(bytes@),
        valid_utf8(bytes@) ==> text@ == decode_utf8(bytes@),
{
    String::from_utf8_lossy(bytes).into_owned()
}

/// Where a connection stands once its bytes are read.
#[derive(Debug, PartialEq, Eq)]
pub enum ConnectionState {
    /// The bytes open with the cancellation message.
    ShutdownSentinel,
    /// The bytes are no request head.
    MalformedRequest,
    /// The request asks for the path that shuts the listener down.
    ShutdownPath,
    /// The request carries the browser's address.
    FullUrlHeaderPresent { url: String },
    /// The request is the browser's first: the script has to go out.
    /// `lacks_header` marks a request for the callback path without the header.
    NeedsScriptRoundTrip { localhost: bool, lacks_header: bool },
}

/// A `ConnectionState` with its text as a sequence of characters.
pub enum StateView {
    ShutdownSentinel,
    MalformedRequest,
    ShutdownPath,
    FullUrlHeaderPresent { url: Seq<char> },
    NeedsScriptRoundTrip { localhost: bool, lacks_header: bool },
}

impl View for ConnectionState {
    type V = StateView;

    open spec fn view(&self) -> StateView {
        match *self {
            ConnectionState::ShutdownSentinel => StateView::ShutdownSentinel,
            ConnectionState::MalformedRequest => StateView::MalformedRequest,
            ConnectionState::ShutdownPath => StateView::ShutdownPath,
            ConnectionState::FullUrlHeaderPresent { url } => StateView::FullUrlHeaderPresent {
                url: url@,
            },
            ConnectionState::NeedsScriptRoundTrip {
                localhost,
                lacks_header,
            } => StateView::NeedsScriptRoundTrip { localhost, lacks_header },
        }
    }
}

/// Whether the browser addressed the listener as `localhost`: whether the
/// value of the last `Host` header opens with that name.
pub open spec fn asks_localhost(request: RequestView) -> bool {
    match last_value(request.headers, host_name()) {
        Some(value) => occurs_at(value, "localhost".spec_bytes(), 0),
        None => false,
    }
}

/// The state of a connection that sent `data`, of which the parser made `parsed`.
pub open spec fn state_of(data: Seq<u8>, parsed: Option<RequestView>) -> StateView {
    if opens_with_exit(data) {
        StateView::ShutdownSentinel
    } else {
        match parsed {
            None => StateView::MalformedRequest,
            Some(request) => if path_of(request) == exit_path() {
                StateView::ShutdownPath
            } else {
                match first_value(request.headers, full_url_name()) {
                    Some(value) => StateView::FullUrlHeaderPresent { url: utf8_lossy(value) },
                    None => StateView::NeedsScriptRoundTrip {
                        localhost: asks_localhost(request),
                        lacks_header: path_of(request) == callback_path(),
                    },
                }
            },
        }
    }
}

/// What the accept loop learns from a connection in `state`: nothing, a
/// request to shut down (the empty text), or the browser's address.
pub open spec fn captured_of(state: StateView) -> Option<Seq<char>> {
    match state {
        StateView::ShutdownSentinel => Some(Seq::empty()),
        StateView::ShutdownPath => Some(Seq::empty()),
        StateView::FullUrlHeaderPresent { url } => Some(url),
        StateView::MalformedRequest => None,
        StateView::NeedsScriptRoundTrip { .. } => None,
    }
}

/// What is sent back on a connection in `state`: the page with the script to
/// the browser's first request, an empty response to the request that carries
/// the address, and nothing otherwise.
pub open spec fn reply_of(state: StateView, template: Option<Seq<u8>>, port: u16) -> Option<
    Seq<u8>,
> {
    match state {
        StateView::NeedsScriptRoundTrip { localhost, .. } => Some(
            response_text(document_text(template, script_text(localhost, port))),
        ),
        StateView::FullUrlHeaderPresent { .. } => Some(response_text(Seq::empty())),
        _ => None,
    }
}

/// An optional text as an optional sequence of characters.
pub open spec fn text_view(text: Option<String>) -> Option<Seq<char>> {
    match text {
        Some(t) => Some(t@),
        None => None,
    }
}

/// The bytes in which a request carries the browser's address, if it does.
pub open spec fn address_of(parsed: Option<RequestView>) -> Option<Seq<u8>> {
    match parsed {
        Some(request) => first_value(request.headers, full_url_name()),
        None => None,
    }
}

/// Whether `state` hands on, as it came, an address that is valid UTF-8.
pub open spec fn keeps_address(state: StateView, parsed: Option<RequestView>) -> bool {
    state matches StateView::FullUrlHeaderPresent { url } ==> {
        &&& address_of(parsed) is Some
        &&& valid_utf8(address_of(parsed)->0) ==> url == decode_utf8(address_of(parsed)->0)
    }
}

/// Tells where a connection stands that sent `data`, of which the parser made `parsed`.
pub fn classify(data: &[u8], parsed: Option<ParsedRequest>) -> (state: ConnectionState)
    ensures
        state@ == state_of(data@, request_view(parsed)),
        keeps_address(state@, request_view(parsed)),
{
    if is_exit(data) {
        return ConnectionState::ShutdownSentinel;
    }
    let request = match parsed {
        None => {
            return ConnectionState::MalformedRequest;
        },
        Some(request) => request,
    };
    let empty: Vec<u8> = Vec::new();
    let path: &Vec<u8> = match &request.path {
        Some(path) => path,
        None => &empty,
    };
    assert(path@ =~= path_of(request@));
    if equal(path.as_slice(), "/exit".as_bytes()) {
        return ConnectionState::ShutdownPath;
    }
    if let Some(value) = request.first_header("Full-Url".as_bytes()) {
        return ConnectionState::FullUrlHeaderPresent { url: decode_lossy(value.as_slice()) };
    }
    let localhost = match request.last_header("Host".as_bytes()) {
        Some(value) => starts_with(value.as_slice(), "localhost".as_bytes()),
        None => false,
    };
    let lacks_header = equal(path.as_slice(), "/cb".as_bytes());
    ConnectionState::NeedsScriptRoundTrip { localhost, lacks_header }
}

impl ConnectionState {
    /// What the accept loop learns from the connection.
    pub fn captured(self) -> (r: Option<String>)
        ensures
            text_view(r) == captured_of(self@),
    {
        match self {
            ConnectionState::ShutdownSentinel => Some(String::new()),
            ConnectionState::ShutdownPath => Some(String::new()),
            ConnectionState::FullUrlHeaderPresent { url } => Some(url),
            ConnectionState::MalformedRequest => None,
            ConnectionState::NeedsScriptRoundTrip { .. } => None,
        }
    }

    /// Writes what is sent back on the connection, if anything is.
    pub fn reply(&self, template: Option<&[u8]>, port: u16) -> (r: Option<Vec<u8>>)
        ensures
            bytes_view(r) == reply_of(self@, template_view(template), port),
    {
        match self {
            ConnectionState::NeedsScriptRoundTrip { localhost, .. } => {
                let script = script(*localhost, port);
                let page = document(template, script.as_slice());
                Some(http_response(page.as_slice()))
            },
            ConnectionState::FullUrlHeaderPresent { .. } => {
                let empty: Vec<u8> = Vec::new();
                Some(http_response(empty.as_slice()))
            },
            _ => None,
        }
    }
}

/// A connection that has been dealt with: where it stood, and what to send back.
#[derive(Debug, PartialEq, Eq)]
pub struct Handled {
    pub state: ConnectionState,
    pub reply: Option<Vec<u8>>,
}

/// Deals with one connection, given the bytes read from it: `response` is the
/// page to send to the browser, if the caller has one, and `port` the port of
/// the listener.
///
/// Bytes that open with the cancellation message are not parsed.
pub fn handle_connection(buffer: &[u8], response: Option<&[u8]>, port: u16) -> (handled: Handled)
    ensures
        handled.state@ == state_of(buffer@, httparse_head(buffer@)),
        keeps_address(handled.state@, httparse_head(buffer@)),
        bytes_view(handled.reply) == reply_of(handled.state@, template_view(response), port),
{
    let parsed = if is_exit(buffer) {
        None
    } else {
        parse(buffer)
    };
    let state = classify(buffer, parsed);
    let reply = state.reply(response, port);
    Handled { state, reply }
}

/// Whether a request is the browser's first: the listener is not asked to
/// shut down, and no header carries the address.
pub open spec fn is_first_request(data: Seq<u8>, request: RequestView) -> bool {
    &&& !opens_with_exit(data)
    &&& path_of(request) != exit_path()
    &&& forall|k: int| 0 <= k < request.headers.len() ==> request.headers[k].name != full_url_name()
}

/// To the browser's first request the script goes out, and it addresses
/// `localhost` if the value of the last `Host` header opens with that name,
/// and `127.0.0.1` if it does not. Nothing is learnt from the connection.
pub proof fn host_header_picks_script_host(
    data: Seq<u8>,
    request: RequestView,
    at: int,
    template: Option<Seq<u8>>,
    port: u16,
)
    requires
        is_first_request(data, request),
        0 <= at < request.headers.len(),
        request.headers[at].name == host_name(),
        forall|k: int| at < k < request.headers.len() ==> request.headers[k].name != host_name(),
    ensures
        reply_of(state_of(data, Some(request)), template, port) == Some(
            response_text(
                document_text(
                    template,
                    script_text(
                        occurs_at(request.headers[at].value, "localhost".spec_bytes(), 0),
                        port,
                    ),
                ),
            ),
        ),
        captured_of(state_of(data, Some(request))) is None,
{
    no_value_without_name(request.headers, full_url_name());
    last_value_at(request.headers, host_name(), at);
}

/// To a first request whose last `Host` header says `localhost` and no more,
/// the script addresses `localhost`.
pub proof fn host_localhost_addresses_localhost(
    data: Seq<u8>,
    request: RequestView,
    at: int,
    template: Option<Seq<u8>>,
    port: u16,
)
    requires
        is_first_request(data, request),
        0 <= at < request.headers.len(),
        request.headers[at].name == host_name(),
        request.headers[at].value == "localhost".spec_bytes(),
        forall|k: int| at < k < request.headers.len() ==> request.headers[k].name != host_name(),
    ensures
        reply_of(state_of(data, Some(request)), template, port) == Some(
            response_text(document_text(template, script_text(true, port))),
        ),
{
    let name = "localhost".spec_bytes();
    assert(name.subrange(0, name.len() as int) =~= name);
    host_header_picks_script_host(data, request, at, template, port);
}

/// To a first request without a `Host` header the script addresses `127.0.0.1`.
pub proof fn script_host_without_host_header(
    data: Seq<u8>,
    request: RequestView,
    template: Option<Seq<u8>>,
    port: u16,
)
    requires
        is_first_request(data, request),
        forall|k: int| 0 <= k < request.headers.len() ==> request.headers[k].name != host_name(),
    ensures
        reply_of(state_of(data, Some(request)), template, port) == Some(
            response_text(document_text(template, script_text(false, port))),
        ),
        captured_of(state_of(data, Some(request))) is None,
{
    no_value_without_name(request.headers, full_url_name());
    no_value_without_name(request.headers, host_name());
}

} // verus!
