//! The response-formatting half of the connection handler.
//!
//! The pool's caller serves HTTP: it reads a request into a byte buffer,
//! picks a status line and a file to serve depending on whether the request
//! is `GET /`, and formats the response as
//! `protocol SP status CRLF CRLF body`. Reading the socket and the file is
//! I/O and stays with the caller; the routing decision and the formatting
//! are pure and verified here.

use vstd::prelude::*;
use vstd::slice::slice_index_get;
use vstd::string::StringExecFns;

verus! {

/// The pieces of a response that are fixed before the body is known.
pub struct ResponseData {
    pub protocol: String,
    pub status_header: String,
    pub body: String,
}

/// Whether the raw request starts with the six bytes of `"GET / "`:
/// a request for the site root.
pub open spec fn is_get_root_request(request: Seq<u8>) -> bool {
    &&& request.len() >= 6
    &&& request[0] == 71u8  // 'G'
    &&& request[1] == 69u8  // 'E'
    &&& request[2] == 84u8  // 'T'
    &&& request[3] == 32u8  // ' '
    &&& request[4] == 47u8  // '/'
    &&& request[5] == 32u8  // ' '
}

/// Decides whether the buffered request asks for the site root.
pub fn request_is_get_root(request: &[u8]) -> (root: bool)
    ensures
        root == is_get_root_request(request@),
{
    request.len() >= 6 && *slice_index_get(request, 0) == 71 && *slice_index_get(request, 1)
        == 69 && *slice_index_get(request, 2) == 84 && *slice_index_get(request, 3) == 32
        && *slice_index_get(request, 4) == 47 && *slice_index_get(request, 5) == 32
}

/// Picks the response skeleton and the file to serve for one request:
/// a request for the site root is answered `200 OK` with the index page,
/// anything else `404 NOT FOUND` with the not-found page. The caller reads
/// the named file and formats the response with `construct_response_string`.
pub fn route_request(request: &[u8]) -> (choice: (ResponseData, String))
    ensures
        choice.0.protocol@ == "HTTP/1.1"@,
        choice.0.body@ == Seq::<char>::empty(),
        is_get_root_request(request@) ==> choice.0.status_header@ == "200 OK"@ && choice.1@
            == "webapp/index.html"@,
        !is_get_root_request(request@) ==> choice.0.status_header@ == "404 NOT FOUND"@
            && choice.1@ == "webapp/404.html"@,
{
    let protocol = String::from_str("HTTP/1.1");
    if request_is_get_root(request) {
        let seed = ResponseData {
            protocol,
            status_header: String::from_str("200 OK"),
            body: String::new(),
        };
        (seed, String::from_str("webapp/index.html"))
    } else {
        let seed = ResponseData {
            protocol,
            status_header: String::from_str("404 NOT FOUND"),
            body: String::new(),
        };
        (seed, String::from_str("webapp/404.html"))
    }
}

/// The full response text: `protocol SP status CRLF CRLF content`.
pub open spec fn response_text(
    protocol: Seq<char>,
    status_header: Seq<char>,
    content: Seq<char>,
) -> Seq<char> {
    protocol + " "@ + status_header + "\r\n\r\n"@ + content
}

/// Formats the response line, the blank header section and the body into
/// one string, exactly as `response_text` describes.
pub fn construct_response_string(seed: &ResponseData, content: &str) -> (response: String)
    ensures
        response@ == response_text(seed.protocol@, seed.status_header@, content@),
{
    let mut response = String::from_str(seed.protocol.as_str());
    response.append(" ");
    response.append(seed.status_header.as_str());
    response.append("\r\n\r\n");
    response.append(content);
    response
}

} // verus!
