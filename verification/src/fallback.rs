//! The fallback policy around the static file service.
//!
//! The static file service answers first. Whatever it answers is sent on as it
//! is, with one exception: where it found no file, a client-side route of the
//! application gets the application shell, and any other path gets a
//! not-found reply that names the path.

use vstd::prelude::*;
use vstd::string::StringExecFns;
use crate::http::{Reply, ReplyView, INTERNAL_SERVER_ERROR, NOT_FOUND};
use crate::routes::{is_known_route, known_routes};

verus! {

/// Name of the application shell, a file directly under the static directory.
pub const INDEX_FILE: &'static str = "index.html";

/// What follows the path in the body of a not-found reply.
pub const NOT_FOUND_SUFFIX: &'static str = " not found";

/// Body of the reply to a request for a client-side route where the
/// application shell could not be read.
pub const INDEX_MISSING: &'static str = "index.html not found";

/// What the fallback router does once the static file service has answered.
#[derive(Debug)]
pub enum Decision<R> {
    /// Send the static file service's response as it is.
    PassThrough(R),
    /// Read the application shell and answer with [`index_reply`].
    ServeIndex,
    /// Send this reply.
    Respond(Reply),
}

/// What a [`Decision`] says, with the reply it may hold taken by its view.
pub enum DecisionView<R> {
    PassThrough(R),
    ServeIndex,
    Respond(ReplyView),
}

impl<R> View for Decision<R> {
    type V = DecisionView<R>;

    open spec fn view(&self) -> DecisionView<R> {
        match *self {
            Decision::PassThrough(response) => DecisionView::PassThrough(response),
            Decision::ServeIndex => DecisionView::ServeIndex,
            Decision::Respond(reply) => DecisionView::Respond(reply@),
        }
    }
}

/// The reply to a request for `path` where there is no such file and the
/// path is no client-side route.
pub open spec fn not_found_reply(path: Seq<char>) -> ReplyView {
    ReplyView::text(NOT_FOUND, path + NOT_FOUND_SUFFIX@)
}

/// The reply to a request for a client-side route, given what reading the
/// application shell gave: its contents, or nothing where it could not be read.
pub open spec fn shell_reply(shell: Option<Seq<char>>) -> ReplyView {
    match shell {
        Some(contents) => ReplyView::html(contents),
        None => ReplyView::text(INTERNAL_SERVER_ERROR, INDEX_MISSING@),
    }
}

/// The decision table of the fallback router, for a request for `path` that
/// the static file service answered with `response`, of status `status`.
pub open spec fn decision<R>(path: Seq<char>, status: u16, response: R) -> DecisionView<R> {
    if status != NOT_FOUND {
        DecisionView::PassThrough(response)
    } else if known_routes().contains(path) {
        DecisionView::ServeIndex
    } else {
        DecisionView::Respond(not_found_reply(path))
    }
}

/// A request on its way through the fallback router: its path, taken before
/// the request is handed to the static file service, and whether that path is
/// a client-side route.
#[derive(Debug)]
pub struct Fallback {
    path: String,
    known: bool,
}

impl Fallback {
    #[verifier::type_invariant]
    spec fn consistent(self) -> bool {
        self.known == known_routes().contains(self.path@)
    }

    /// The path that was captured.
    pub closed spec fn path(self) -> Seq<char> {
        self.path@
    }

    /// Captures the path of a request before the static file service gets it.
    pub fn capture(path: &str) -> (fallback: Fallback)
        ensures
            fallback.path() == path@,
    {
        Fallback { path: path.to_owned(), known: is_known_route(path) }
    }

    /// Decides what to send, given the static file service's `response` and
    /// its `status`. A response of any status but not-found comes back
    /// untouched; the path decides the rest.
    pub fn resolve<R>(self, status: u16, response: R) -> (outcome: Decision<R>)
        ensures
            outcome@ == decision(self.path(), status, response),
    {
        proof {
            use_type_invariant(&self);
        }
        if status != NOT_FOUND {
            Decision::PassThrough(response)
        } else if self.known {
            Decision::ServeIndex
        } else {
            Decision::Respond(Reply::text(NOT_FOUND, self.path.concat(NOT_FOUND_SUFFIX)))
        }
    }
}

/// The reply to a request for a client-side route once the application shell
/// was read: the shell as an HTML document, or an internal error where the
/// read failed (`None`).
pub fn index_reply(shell: Option<String>) -> (reply: Reply)
    ensures
        reply@ == shell_reply(
            match shell {
                Some(contents) => Some(contents@),
                None => None,
            },
        ),
{
    match shell {
        Some(contents) => Reply::html(contents),
        None => Reply::text(INTERNAL_SERVER_ERROR, INDEX_MISSING.to_owned()),
    }
}

} // verus!
