//! The response that the dispatcher hands to its driver, as plain data.

use vstd::prelude::*;

verus! {

/// What a response carries after its head.
#[derive(Debug, Clone, PartialEq, Eq)]
pub enum Body {
    /// Nothing at all.
    Empty,
    /// The bytes of a file.
    Bytes(Vec<u8>),
}

/// The mathematical value of a [`Body`].
pub enum BodyView {
    Empty,
    Bytes(Seq<u8>),
}

impl View for Body {
    type V = BodyView;

    open spec fn view(&self) -> BodyView {
        match *self {
            Body::Empty => BodyView::Empty,
            Body::Bytes(bytes) => BodyView::Bytes(bytes@),
        }
    }
}

/// An HTTP response: a status number, header lines in order, and a body.
#[derive(Debug, Clone, PartialEq, Eq)]
pub struct Response {
    pub status: u16,
    pub headers: Vec<(String, String)>,
    pub body: Body,
}

/// The mathematical value of a [`Response`].
pub struct ResponseView {
    pub status: u16,
    pub headers: Seq<(Seq<char>, Seq<char>)>,
    pub body: BodyView,
}

impl View for Response {
    type V = ResponseView;

    open spec fn view(&self) -> ResponseView {
        ResponseView {
            status: self.status,
            headers: self.headers@.map_values(|line: (String, String)| (line.0@, line.1@)),
            body: self.body@,
        }
    }
}

/// The response with the given status, no header and an empty body.
pub open spec fn empty_response(status: u16) -> ResponseView {
    ResponseView { status, headers: Seq::empty(), body: BodyView::Empty }
}

impl Response {
    /// A response that carries only a status.
    pub fn empty(status: u16) -> (response: Response)
        ensures
            response@ == empty_response(status),
    {
        let response = Response { status, headers: Vec::new(), body: Body::Empty };
        assert(response@.headers =~= Seq::empty());
        response
    }
}

} // verus!
