//! Routing for the tiny web server: deciding whether a raw request asks for
//! the root page, and which status line and page belong to the answer.

use vstd::prelude::*;

verus! {

/// The bytes of the request line `GET / HTTP/1.1` followed by a carriage
/// return and a line feed: a well-formed request for the root page starts
/// with exactly these.
pub open spec fn root_request_prefix() -> Seq<u8> {
    seq![71u8, 69u8, 84u8, 32u8, 47u8, 32u8, 72u8, 84u8, 84u8, 80u8, 47u8, 49u8, 46u8, 49u8, 13u8, 10u8]
}

/// Whether `data` starts with `prefix`.
pub fn starts_with(data: &[u8], prefix: &[u8]) -> (r: bool)
    ensures
        r == (data@.len() >= prefix@.len() && data@.take(prefix@.len() as int) =~= prefix@),
{
    if data.len() < prefix.len() {
        return false;
    }
    let mut i: usize = 0;
    while i < prefix.len()
        invariant
            i <= prefix@.len() <= data@.len(),
            forall|j: int| 0 <= j < i ==> data@[j] == prefix@[j],
        decreases prefix@.len() - i,
    {
        if data[i] != prefix[i] {
            return false;
        }
        i = i + 1;
    }
    proof {
        assert(data@.take(prefix@.len() as int) =~= prefix@);
    }
    true
}

/// Builds the request-line prefix that identifies a request for the root
/// page.
fn root_request_prefix_bytes() -> (v: Vec<u8>)
    ensures
        v@ == root_request_prefix(),
{
    let mut v: Vec<u8> = Vec::new();
    v.push(71u8);
    v.push(69u8);
    v.push(84u8);
    v.push(32u8);
    v.push(47u8);
    v.push(32u8);
    v.push(72u8);
    v.push(84u8);
    v.push(84u8);
    v.push(80u8);
    v.push(47u8);
    v.push(49u8);
    v.push(46u8);
    v.push(49u8);
    v.push(13u8);
    v.push(10u8);
    proof {
        assert(v@ =~= root_request_prefix());
    }
    v
}

/// Whether the raw request asks for the root page: true exactly when it
/// starts with the request line `GET / HTTP/1.1` and its line ending.
pub fn is_root_request(request: &[u8]) -> (r: bool)
    ensures
        r == (request@.len() >= root_request_prefix().len() && request@.take(
            root_request_prefix().len() as int,
        ) =~= root_request_prefix()),
{
    let prefix = root_request_prefix_bytes();
    starts_with(request, prefix.as_slice())
}

/// The status line of the answer: success for the root page, not-found for
/// everything else.
pub fn status_line(root: bool) -> (r: &'static str)
    ensures
        r@ == if root {
            "HTTP/1.1 200 OK"@
        } else {
            "HTTP/1.1 404 NOT FOUND"@
        },
{
    if root {
        "HTTP/1.1 200 OK"
    } else {
        "HTTP/1.1 404 NOT FOUND"
    }
}

/// The page served with the answer: the hello page for the root, the
/// not-found page for everything else.
pub fn page_filename(root: bool) -> (r: &'static str)
    ensures
        r@ == if root {
            "hello.html"@
        } else {
            "404.html"@
        },
{
    if root {
        "hello.html"
    } else {
        "404.html"
    }
}

} // verus!
