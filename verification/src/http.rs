//! The parts of a request and of a response that the policy reads or writes.

use vstd::prelude::*;

verus! {

/// Status of a successful response.
pub const OK: u16 = 200;

/// Status of a response to a request for something that is not there.
pub const NOT_FOUND: u16 = 404;

/// Status of a response to a request whose method the target does not take.
pub const METHOD_NOT_ALLOWED: u16 = 405;

/// Status of a response to a request that failed on the server's side.
pub const INTERNAL_SERVER_ERROR: u16 = 500;

/// The method that asks for a resource, as requests name it.
pub const GET: &'static str = "GET";

/// The kind of text that a reply's body holds.
#[derive(Clone, Copy, Debug, PartialEq, Eq, Structural)]
pub enum ContentType {
    PlainText,
    Html,
}

/// A response that the policy itself writes: a status, the kind of its body
/// (none where the body is empty), and the body.
#[derive(Debug, PartialEq, Eq)]
pub struct Reply {
    pub status: u16,
    pub content_type: Option<ContentType>,
    pub body: String,
}

/// What a [`Reply`] says, with the body as a sequence of characters.
pub struct ReplyView {
    pub status: u16,
    pub content_type: Option<ContentType>,
    pub body: Seq<char>,
}

impl View for Reply {
    type V = ReplyView;

    open spec fn view(&self) -> ReplyView {
        ReplyView { status: self.status, content_type: self.content_type, body: self.body@ }
    }
}

impl ReplyView {
    /// A reply of plain text.
    pub open spec fn text(status: u16, body: Seq<char>) -> ReplyView {
        ReplyView { status, content_type: Some(ContentType::PlainText), body }
    }

    /// A successful reply that carries an HTML document.
    pub open spec fn html(body: Seq<char>) -> ReplyView {
        ReplyView { status: OK, content_type: Some(ContentType::Html), body }
    }

    /// A reply that is a status and nothing else.
    pub open spec fn bare(status: u16) -> ReplyView {
        ReplyView { status, content_type: None, body: Seq::empty() }
    }
}

impl Reply {
    /// A reply of plain text.
    pub fn text(status: u16, body: String) -> (reply: Reply)
        ensures
            reply@ == ReplyView::text(status, body@),
    {
        Reply { status, content_type: Some(ContentType::PlainText), body }
    }

    /// A successful reply that carries an HTML document.
    pub fn html(body: String) -> (reply: Reply)
        ensures
            reply@ == ReplyView::html(body@),
    {
        Reply { status: OK, content_type: Some(ContentType::Html), body }
    }

    /// A reply that is a status and nothing else.
    pub fn bare(status: u16) -> (reply: Reply)
        ensures
            reply@ == ReplyView::bare(status),
    {
        Reply { status, content_type: None, body: String::new() }
    }
}

} // verus!
