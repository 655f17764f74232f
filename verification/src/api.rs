//! The greeting endpoint.

use vstd::prelude::*;
use crate::http::{Reply, ReplyView, GET, METHOD_NOT_ALLOWED, OK};
use crate::text::same_text;

verus! {

/// The text that the greeting endpoint answers with.
pub const GREETING: &'static str = "hello from server!";

/// What the greeting endpoint answers to a request of `method`: the greeting
/// as plain text for `GET`, method-not-allowed for anything else.
pub open spec fn hello_reply(method: Seq<char>) -> ReplyView {
    if method == GET@ {
        ReplyView::text(OK, GREETING@)
    } else {
        ReplyView::bare(METHOD_NOT_ALLOWED)
    }
}

/// Answers a request of `method` to the greeting endpoint. Methods are
/// compared as they are written: only `GET` in capitals is `GET`.
pub fn hello(method: &str) -> (reply: Reply)
    ensures
        reply@ == hello_reply(method@),
{
    if same_text(method, GET) {
        Reply::text(OK, GREETING.to_owned())
    } else {
        Reply::bare(METHOD_NOT_ALLOWED)
    }
}

} // verus!
