//! The choice of the page that answers a request, and the bytes of the answer.

use vstd::prelude::*;

verus! {

/// The page that answers a request.
#[derive(Clone, Copy, Debug, PartialEq, Eq, Structural)]
pub enum Page {
    /// The greeting, for a request of the root path.
    Hello,
    /// The error page, for every other request.
    NotFound,
}

/// The request line that asks for the root path: `GET / HTTP/1.1`, then a
/// carriage return and a line feed.
pub open spec fn root_request() -> Seq<u8> {
    seq![
        71, 69, 84, 32, 47, 32, 72, 84, 84, 80, 47, 49, 46, 49,
        13, 10,
    ]
}

/// The status line of the greeting, with the empty line that ends the head.
pub open spec fn status_ok() -> Seq<u8> {
    seq![
        72, 84, 84, 80, 47, 49, 46, 49, 32, 50, 48, 48, 32, 79,
        75, 13, 10, 13, 10,
    ]
}

/// The status line of the error page, with the empty line that ends the head.
pub open spec fn status_not_found() -> Seq<u8> {
    seq![
        72, 84, 84, 80, 47, 49, 46, 49, 32, 52, 48, 52, 32, 78,
        79, 84, 32, 70, 79, 85, 78, 68, 13, 10, 13, 10,
    ]
}

impl Page {
    /// The bytes that open the answer.
    pub open spec fn status(self) -> Seq<u8> {
        match self {
            Page::Hello => status_ok(),
            Page::NotFound => status_not_found(),
        }
    }

    /// The path of the file that holds the page's body.
    pub open spec fn path(self) -> Seq<char> {
        match self {
            Page::Hello => "view/hello.html"@,
            Page::NotFound => "view/404.html"@,
        }
    }

    /// The path of the file that holds the page's body.
    pub fn filename(&self) -> (name: &'static str)
        ensures
            name@ == self.path(),
    {
        match self {
            Page::Hello => "view/hello.html",
            Page::NotFound => "view/404.html",
        }
    }

    /// The bytes that open the answer: the status line and an empty line.
    pub fn status_line(&self) -> (line: Vec<u8>)
        ensures
            line@ == self.status(),
    {
        match self {
            Page::Hello => {
                let bytes: [u8; 19] = [
                    72, 84, 84, 80, 47, 49, 46, 49, 32, 50, 48, 48,
                    32, 79, 75, 13, 10, 13, 10,
                ];
                let line = copy_of(bytes.as_slice());
                assert(line@ =~= status_ok());
                line
            },
            Page::NotFound => {
                let bytes: [u8; 26] = [
                    72, 84, 84, 80, 47, 49, 46, 49, 32, 52, 48, 52,
                    32, 78, 79, 84, 32, 70, 79, 85, 78, 68, 13, 10,
                    13, 10,
                ];
                let line = copy_of(bytes.as_slice());
                assert(line@ =~= status_not_found());
                line
            },
        }
    }
}

/// A vector with the bytes of a slice.
fn copy_of(bytes: &[u8]) -> (copy: Vec<u8>)
    ensures
        copy@ == bytes@,
{
    let mut copy: Vec<u8> = Vec::with_capacity(bytes.len());
    let mut at: usize = 0;
    while at < bytes.len()
        invariant
            at <= bytes@.len(),
            copy@ == bytes@.subrange(0, at as int),
        decreases bytes@.len() - at,
    {
        copy.push(bytes[at]);
        at = at + 1;
        assert(copy@ =~= bytes@.subrange(0, at as int));
    }
    assert(bytes@.subrange(0, at as int) =~= bytes@);
    copy
}

/// Whether `buffer` begins with `prefix`.
pub fn starts_with(buffer: &[u8], prefix: &[u8]) -> (found: bool)
    ensures
        found == prefix@.is_prefix_of(buffer@),
{
    if prefix.len() > buffer.len() {
        return false;
    }
    let mut at: usize = 0;
    while at < prefix.len()
        invariant
            at <= prefix@.len() <= buffer@.len(),
            forall|i: int| 0 <= i < at ==> prefix@[i] == buffer@[i],
        decreases prefix@.len() - at,
    {
        if prefix[at] != buffer[at] {
            assert(prefix@ != buffer@.subrange(0, prefix@.len() as int)) by {
                assert(buffer@.subrange(0, prefix@.len() as int)[at as int] == buffer@[at as int]);
            }
            return false;
        }
        at = at + 1;
    }
    assert(prefix@ =~= buffer@.subrange(0, prefix@.len() as int));
    true
}

/// Chooses the page for the request that was read into `buffer`. A request
/// that begins with the request line for the root path gets the greeting;
/// anything else, an empty buffer too, gets the error page.
pub fn handle_connection(buffer: &[u8]) -> (page: Page)
    ensures
        page == (if root_request().is_prefix_of(buffer@) {
            Page::Hello
        } else {
            Page::NotFound
        }),
{
    let get: [u8; 16] = [
        71, 69, 84, 32, 47, 32, 72, 84, 84, 80, 47, 49, 46, 49,
        13, 10,
    ];
    assert(get@ =~= root_request());
    if starts_with(buffer, get.as_slice()) {
        Page::Hello
    } else {
        Page::NotFound
    }
}

/// The whole answer: the page's status line and empty line, then the
/// contents of its file.
pub fn response(page: Page, contents: &[u8]) -> (bytes: Vec<u8>)
    ensures
        bytes@ == page.status() + contents@,
{
    let mut bytes = page.status_line();
    let mut at: usize = 0;
    while at < contents.len()
        invariant
            at <= contents@.len(),
            bytes@ == page.status() + contents@.subrange(0, at as int),
        decreases contents@.len() - at,
    {
        bytes.push(contents[at]);
        at = at + 1;
        assert(bytes@ =~= page.status() + contents@.subrange(0, at as int));
    }
    assert(contents@.subrange(0, at as int) =~= contents@);
    bytes
}

} // verus!
