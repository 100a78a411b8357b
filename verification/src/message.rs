//! The parts of HTTP messages that the gateway reads and writes, as plain
//! values, each with its mathematical view.

use vstd::prelude::*;

verus! {

/// A header as a mathematical value.
pub struct HeaderView {
    pub name: Seq<char>,
    pub value: Seq<u8>,
}

/// One header line: a name and the bytes of its value. A header that occurs
/// several times in a message is several such lines.
#[derive(Debug, PartialEq, Eq)]
pub struct Header {
    pub name: String,
    pub value: Vec<u8>,
}

impl View for Header {
    type V = HeaderView;

    open spec fn view(&self) -> HeaderView {
        HeaderView { name: self.name@, value: self.value@ }
    }
}

/// The views of a list of headers, in the list's order.
pub open spec fn header_views(headers: Seq<Header>) -> Seq<HeaderView> {
    headers.map_values(|h: Header| h@)
}

/// An outbound request as a mathematical value.
pub struct ForwardedRequestView {
    pub method: Seq<char>,
    pub target_url: Seq<char>,
    pub headers: Seq<HeaderView>,
    pub body: Seq<u8>,
    pub decompress: bool,
}

/// The request that goes out to a backend.
#[derive(Debug, PartialEq, Eq)]
pub struct ForwardedRequest {
    pub method: String,
    pub target_url: String,
    pub headers: Vec<Header>,
    pub body: Vec<u8>,
    /// Whether the client that sends the request may decompress the
    /// response's body on its own.
    pub decompress: bool,
}

impl View for ForwardedRequest {
    type V = ForwardedRequestView;

    open spec fn view(&self) -> ForwardedRequestView {
        ForwardedRequestView {
            method: self.method@,
            target_url: self.target_url@,
            headers: header_views(self.headers@),
            body: self.body@,
            decompress: self.decompress,
        }
    }
}

/// A response as a mathematical value.
pub struct RelayedResponseView {
    pub status: u16,
    pub headers: Seq<HeaderView>,
    pub body: Seq<u8>,
}

/// The response that goes back to the caller.
#[derive(Debug, PartialEq, Eq)]
pub struct RelayedResponse {
    pub status: u16,
    pub headers: Vec<Header>,
    pub body: Vec<u8>,
}

impl View for RelayedResponse {
    type V = RelayedResponseView;

    open spec fn view(&self) -> RelayedResponseView {
        RelayedResponseView {
            status: self.status,
            headers: header_views(self.headers@),
            body: self.body@,
        }
    }
}

impl Clone for Header {
    fn clone(&self) -> (copy: Header)
        ensures
            copy@ == self@,
    {
        copy_header(self)
    }
}

/// A copy of `header` with the same name and the same value bytes.
pub fn copy_header(header: &Header) -> (copy: Header)
    ensures
        copy@ == header@,
{
    let mut value: Vec<u8> = Vec::new();
    let mut i: usize = 0;
    while i < header.value.len()
        invariant
            i <= header.value@.len(),
            value@ == header.value@.take(i as int),
        decreases header.value@.len() - i,
    {
        value.push(header.value[i]);
        assert(header.value@.take(i + 1) =~= header.value@.take(i as int).push(
            header.value@[i as int],
        ));
        i += 1;
    }
    assert(header.value@.take(i as int) =~= header.value@);
    Header { name: header.name.clone(), value }
}

} // verus!
