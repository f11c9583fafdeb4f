//! What the listener sends back: the script, the page around it, and the
//! HTTP response that carries the page.

use crate::text::{
    append, append_decimal, contains, decimal, find, first_occurrence, replace, replaced,
    replaced_at_first_occurrence, replaced_without_occurrence,
};
use vstd::prelude::*;
use vstd::string::*;

verus! {

/// The host that the script addresses: the name that the browser used.
pub open spec fn host_text(localhost: bool) -> Seq<u8> {
    if localhost {
        "localhost".spec_bytes()
    } else {
        "127.0.0.1".spec_bytes()
    }
}

/// The script that sends the browser's full address, fragment included, back
/// to the listener on `port`, in the header `Full-Url` of a request for `/cb`.
pub open spec fn script_text(localhost: bool, port: u16) -> Seq<u8> {
    "<script>fetch(\"http://".spec_bytes() + host_text(localhost) + ":".spec_bytes() + decimal(
        port as nat,
    ) + "/cb\",{headers:{\"Full-Url\":window.location.href}})</script>".spec_bytes()
}

/// The opening tag of a page's head.
pub open spec fn head_tag() -> Seq<u8> {
    "<head>".spec_bytes()
}

/// The opening tag of a page's body.
pub open spec fn body_tag() -> Seq<u8> {
    "<body>".spec_bytes()
}

/// The page that carries `script`.
///
/// Without a template it is a small page of its own. A template that has a
/// head gets the script right behind each opening head tag. Any other template
/// gets a head with the script in front of each opening body tag.
pub open spec fn document_text(template: Option<Seq<u8>>, script: Seq<u8>) -> Seq<u8> {
    match template {
        None => "<html><head>".spec_bytes() + script
            + "</head><body>Please return to the app.</body></html>".spec_bytes(),
        Some(page) => if contains(page, head_tag()) {
            replaced(page, head_tag(), head_tag() + script)
        } else {
            replaced(page, body_tag(), head_tag() + script + "</head><body>".spec_bytes())
        },
    }
}

/// The HTTP response that carries `body`: status line, the length of the body
/// in bytes, an empty line, the body.
pub open spec fn response_text(body: Seq<u8>) -> Seq<u8> {
    "HTTP/1.1 200 OK\r\nContent-Length: ".spec_bytes() + decimal(body.len()) + "\r\n\r\n".spec_bytes()
        + body
}

/// The optional template as an optional sequence.
pub open spec fn template_view(template: Option<&[u8]>) -> Option<Seq<u8>> {
    match template {
        Some(t) => Some(t@),
        None => None,
    }
}

/// Writes the script for the listener on `port`.
pub fn script(localhost: bool, port: u16) -> (out: Vec<u8>)
    ensures
        out@ == script_text(localhost, port),
{
    let mut out: Vec<u8> = Vec::new();
    append(&mut out, "<script>fetch(\"http://".as_bytes());
    if localhost {
        append(&mut out, "localhost".as_bytes());
    } else {
        append(&mut out, "127.0.0.1".as_bytes());
    }
    append(&mut out, ":".as_bytes());
    append_decimal(&mut out, port as u64);
    append(&mut out, "/cb\",{headers:{\"Full-Url\":window.location.href}})</script>".as_bytes());
    assert(out@ =~= script_text(localhost, port));
    out
}

/// Writes the page that carries `script`, from `template` if there is one.
pub fn document(template: Option<&[u8]>, script: &[u8]) -> (out: Vec<u8>)
    ensures
        out@ == document_text(template_view(template), script@),
{
    match template {
        None => {
            let mut out: Vec<u8> = Vec::new();
            append(&mut out, "<html><head>".as_bytes());
            append(&mut out, script);
            append(&mut out, "</head><body>Please return to the app.</body></html>".as_bytes());
            out
        },
        Some(page) => {
            let mut with: Vec<u8> = Vec::new();
            append(&mut with, "<head>".as_bytes());
            append(&mut with, script);
            if find(page, "<head>".as_bytes()).is_some() {
                replace(page, "<head>".as_bytes(), with.as_slice())
            } else {
                append(&mut with, "</head><body>".as_bytes());
                replace(page, "<body>".as_bytes(), with.as_slice())
            }
        },
    }
}

/// Writes the HTTP response that carries `body`.
pub fn http_response(body: &[u8]) -> (out: Vec<u8>)
    ensures
        out@ == response_text(body@),
{
    let mut out: Vec<u8> = Vec::new();
    append(&mut out, "HTTP/1.1 200 OK\r\nContent-Length: ".as_bytes());
    append_decimal(&mut out, body.len() as u64);
    append(&mut out, "\r\n\r\n".as_bytes());
    append(&mut out, body);
    out
}

/// Each of the two tags is six bytes long.
pub proof fn tags_have_six_bytes()
    ensures
        head_tag().len() == 6,
        body_tag().len() == 6,
{
    reveal_strlit("<head>");
    reveal_strlit("<body>");
    is_ascii_spec_bytes("<head>");
    is_ascii_spec_bytes("<body>");
}

/// In a page made from a template with a head, the script stands right
/// behind the first opening head tag, and what stands before that tag is the
/// template's.
pub proof fn script_follows_head_tag(page: Seq<u8>, script: Seq<u8>, at: int)
    requires
        first_occurrence(page, head_tag(), at),
    ensures
        document_text(Some(page), script) == page.subrange(0, at) + head_tag() + script + replaced(
            page.skip(at + head_tag().len()),
            head_tag(),
            head_tag() + script,
        ),
{
    tags_have_six_bytes();
    replaced_at_first_occurrence(page, head_tag(), head_tag() + script, at);
    assert(page.subrange(0, at) + (head_tag() + script) =~= page.subrange(0, at) + head_tag()
        + script);
}

/// In a page made from a template without a head, a head with the script
/// stands right before the first opening body tag, and what stands before it
/// is the template's.
pub proof fn head_goes_before_body_tag(page: Seq<u8>, script: Seq<u8>, at: int)
    requires
        !contains(page, head_tag()),
        first_occurrence(page, body_tag(), at),
    ensures
        document_text(Some(page), script) == page.subrange(0, at) + head_tag() + script
            + "</head>".spec_bytes() + body_tag() + replaced(
            page.skip(at + body_tag().len()),
            body_tag(),
            head_tag() + script + "</head><body>".spec_bytes(),
        ),
{
    tags_have_six_bytes();
    let with = head_tag() + script + "</head><body>".spec_bytes();
    replaced_at_first_occurrence(page, body_tag(), with, at);
    assert("</head><body>".spec_bytes() =~= "</head>".spec_bytes() + body_tag()) by {
        reveal_strlit("</head><body>");
        reveal_strlit("</head>");
        reveal_strlit("<body>");
        is_ascii_spec_bytes("</head><body>");
        is_ascii_spec_bytes("</head>");
        is_ascii_spec_bytes("<body>");
    }
    assert(page.subrange(0, at) + with =~= page.subrange(0, at) + head_tag() + script
        + "</head>".spec_bytes() + body_tag());
}

/// A template with neither tag is sent as it is, without the script.
pub proof fn template_without_tags_is_kept(page: Seq<u8>, script: Seq<u8>)
    requires
        !contains(page, head_tag()),
        !contains(page, body_tag()),
    ensures
        document_text(Some(page), script) == page,
{
    replaced_without_occurrence(
        page,
        body_tag(),
        head_tag() + script + "</head><body>".spec_bytes(),
    );
}

} // verus!
