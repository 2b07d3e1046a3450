//! The loopback endpoint that serves the proxy auto-configuration script:
//! which requests it answers and what it answers.
use vstd::prelude::*;

use crate::script::utf8_len;
use crate::text::{decimal, decimal_string};

verus! {

/// `b` holds `p` starting at `i`.
pub open spec fn bytes_at(b: Seq<u8>, p: Seq<u8>, i: int) -> bool {
    0 <= i && i + p.len() <= b.len() && b.subrange(i, i + p.len()) == p
}

pub open spec fn header_end() -> Seq<u8> {
    seq![13u8, 10u8, 13u8, 10u8]
}

/// The request's header block is complete: it holds an empty line.
pub open spec fn request_complete(b: Seq<u8>) -> bool {
    exists|i: int| bytes_at(b, header_end(), i)
}

/// `GET /proxy.pac HTTP/1.` as bytes.
pub open spec fn pac_request_line() -> Seq<u8> {
    seq![71u8, 69, 84, 32, 47, 112, 114, 111, 120, 121, 46, 112, 97, 99, 32, 72, 84, 84, 80, 47, 49, 46]
}

/// Only a complete `GET /proxy.pac` request over HTTP/1.x is answered with the script.
pub open spec fn pac_request(b: Seq<u8>) -> bool {
    bytes_at(b, pac_request_line(), 0) && request_complete(b)
}

fn matches_at(b: &[u8], p: &[u8], i: usize) -> (r: bool)
    ensures
        r == bytes_at(b@, p@, i as int),
{
    if i > b.len() || p.len() > b.len() - i {
        return false;
    }
    let mut k: usize = 0;
    let n = b.len();
    while k < p.len()
        invariant
            n == b@.len(),
            i + p@.len() <= b@.len(),
            k <= p@.len(),
            forall|j: int| 0 <= j < k ==> b@[i + j] == p@[j],
        decreases p.len() - k,
    {
        if b[i + k] != p[k] {
            assert(b@.subrange(i as int, i + p@.len())[k as int] != p@[k as int]);
            return false;
        }
        k = k + 1;
    }
    assert(b@.subrange(i as int, i + p@.len()) =~= p@);
    true
}

/// Whether the header block has ended.
pub fn has_header_end(b: &[u8]) -> (r: bool)
    ensures
        r == request_complete(b@),
{
    let end: [u8; 4] = [13, 10, 13, 10];
    assert(end@ =~= header_end());
    let mut i: usize = 0;
    while i < b.len()
        invariant
            end@ == header_end(),
            i <= b@.len(),
            forall|j: int| 0 <= j < i ==> !bytes_at(b@, header_end(), j),
        decreases b.len() - i,
    {
        if matches_at(b, &end, i) {
            return true;
        }
        i = i + 1;
    }
    assert forall|j: int| !bytes_at(b@, header_end(), j) by {
        if j >= b@.len() as int {
            assert(!(j + 4 <= b@.len()));
        }
    }
    false
}

/// Whether the request asks for the script.
pub fn is_pac_request(b: &[u8]) -> (r: bool)
    ensures
        r == pac_request(b@),
{
    let line: [u8; 22] = [71, 69, 84, 32, 47, 112, 114, 111, 120, 121, 46, 112, 97, 99, 32, 72, 84, 84, 80, 47, 49, 46];
    assert(line@ =~= pac_request_line());
    matches_at(b, &line, 0) && has_header_end(b)
}

pub open spec fn response_text(valid: bool, script: Seq<char>) -> Seq<char> {
    let body = if valid { script } else { "Not found"@ };
    let status = if valid { "200 OK"@ } else { "404 Not Found"@ };
    "HTTP/1.1 "@ + status
        + "\r\nContent-Type: application/x-ns-proxy-autoconfig\r\nCache-Control: no-store\r\nConnection: close\r\nContent-Length: "@
        + decimal(utf8_len(body)) + "\r\n\r\n"@ + body
}

/// The whole response: the script for a valid request, `Not found` otherwise;
/// the length counts bytes of UTF-8.
pub fn response(valid: bool, script: &str) -> (r: String)
    ensures
        r@ == response_text(valid, script@),
{
    let body = if valid { script } else { "Not found" };
    let status = if valid { "200 OK" } else { "404 Not Found" };
    let length = body.as_bytes().len();
    String::from_str("HTTP/1.1 ").concat(status).concat(
        "\r\nContent-Type: application/x-ns-proxy-autoconfig\r\nCache-Control: no-store\r\nConnection: close\r\nContent-Length: ",
    ).concat(decimal_string(length as u64).as_str()).concat("\r\n\r\n").concat(body)
}

pub open spec fn url_text(port: u16) -> Seq<char> {
    "http://127.0.0.1:"@ + decimal(port as nat) + "/proxy.pac"@
}

/// Where the script is served.
pub fn url(port: u16) -> (r: String)
    ensures
        r@ == url_text(port),
{
    String::from_str("http://127.0.0.1:").concat(decimal_string(port as u64).as_str()).concat("/proxy.pac")
}

} // verus!
