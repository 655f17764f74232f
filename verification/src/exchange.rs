//! One request from arrival to response, as the composition of the policy's
//! steps, and what holds of every such exchange.
//!
//! The world outside the policy is a [`Site`]: what the static file service
//! answers to each request, and what reading the application shell gives.
//! A caller that dispatches a request with
//! [`dispatch`](crate::routes::dispatch), answers it with
//! [`hello`](crate::api::hello) or hands it to the static file service as the
//! target says, and then follows the
//! [`Decision`](crate::fallback::Decision) of
//! [`resolve`](crate::fallback::Fallback::resolve), ends with [`exchange`] of
//! that request and the site.

use vstd::prelude::*;
use crate::api::hello_reply;
use crate::fallback::{
    decision, not_found_reply, shell_reply, DecisionView, INDEX_MISSING, NOT_FOUND_SUFFIX,
};
use crate::http::{ReplyView, GET, INTERNAL_SERVER_ERROR, METHOD_NOT_ALLOWED, NOT_FOUND, OK};
use crate::routes::{
    known_routes, lemma_api_path_is_no_known_route, target_of, Target, API_HELLO_PATH,
};

verus! {

/// What a request says, as far as the policy reads it.
pub struct Request {
    pub method: Seq<char>,
    pub path: Seq<char>,
}

/// An answer of the static file service: the response and its status.
pub struct StaticAnswer<R> {
    pub status: u16,
    pub response: R,
}

/// The world outside the policy at one moment.
pub struct Site<R> {
    /// What the static file service answers to a request of a method for a
    /// path, with the static directory as it is.
    pub files: spec_fn(Seq<char>, Seq<char>) -> StaticAnswer<R>,
    /// The contents of the application shell, or `None` where it cannot be
    /// read.
    pub shell: Option<Seq<char>>,
}

impl<R> Site<R> {
    /// The static file service's answer to `request`.
    pub open spec fn answer(self, request: Request) -> StaticAnswer<R> {
        (self.files)(request.method, request.path)
    }
}

/// How an exchange ends.
pub enum Outcome<R> {
    /// The static file service's response went out as it was.
    Forwarded(R),
    /// A reply of the policy's own went out.
    Sent(ReplyView),
}

/// The end of the exchange that `request` starts against `site`.
pub open spec fn exchange<R>(request: Request, site: Site<R>) -> Outcome<R> {
    match target_of(request.path) {
        Target::ApiHandler => Outcome::Sent(hello_reply(request.method)),
        Target::FallbackRouter => {
            let answer = site.answer(request);
            match decision(request.path, answer.status, answer.response) {
                DecisionView::PassThrough(response) => Outcome::Forwarded(response),
                DecisionView::ServeIndex => Outcome::Sent(shell_reply(site.shell)),
                DecisionView::Respond(reply) => Outcome::Sent(reply),
            }
        },
    }
}

/// A request, and the site as it is when the request arrives.
pub struct Arrival<R> {
    pub request: Request,
    pub site: Site<R>,
}

/// The ends of the exchanges of a run of arrivals, in their order. The site
/// may change from one arrival to the next.
pub open spec fn exchanges<R>(arrivals: Seq<Arrival<R>>) -> Seq<Outcome<R>> {
    arrivals.map_values(|arrival: Arrival<R>| exchange(arrival.request, arrival.site))
}

/// Whether `part` occurs in `text` as a run of consecutive characters.
pub open spec fn occurs_in(part: Seq<char>, text: Seq<char>) -> bool {
    exists|start: int|
        0 <= start && start + part.len() <= text.len() && #[trigger] text.subrange(
            start,
            start + part.len(),
        ) == part
}

/// What the static file service found is what the client gets. Where the
/// service answers a request with any status but not-found, as it does for a
/// file that exists, the decision is to pass its response through and the
/// response goes out untouched, whether or not the path is a client-side
/// route. The greeting endpoint's own path is left out: the endpoint shadows
/// a file of that path.
pub proof fn lemma_found_file_is_served<R>(request: Request, site: Site<R>)
    requires
        request.path != API_HELLO_PATH@,
        site.answer(request).status != NOT_FOUND,
    ensures
        decision(request.path, site.answer(request).status, site.answer(request).response)
            == DecisionView::PassThrough(site.answer(request).response),
        exchange(request, site) == Outcome::Forwarded(site.answer(request).response),
{
}

/// A path that is no client-side route and has no file gets a not-found
/// reply in plain text whose body is the path followed by ` not found`, so
/// the body contains the path. The greeting endpoint's own path is left out:
/// it has an answer without a file.
pub proof fn lemma_unknown_path_is_not_found<R>(request: Request, site: Site<R>)
    requires
        request.path != API_HELLO_PATH@,
        !known_routes().contains(request.path),
        site.answer(request).status == NOT_FOUND,
    ensures
        exchange(request, site) == Outcome::<R>::Sent(not_found_reply(request.path)),
        not_found_reply(request.path) == ReplyView::text(
            NOT_FOUND,
            request.path + NOT_FOUND_SUFFIX@,
        ),
        occurs_in(request.path, not_found_reply(request.path).body),
{
    let body = not_found_reply(request.path).body;
    assert(body.subrange(0int, 0int + request.path.len()) == request.path);
}

/// A client-side route that has no file gets the application shell: a
/// successful reply that holds the shell's contents at that moment as an
/// HTML document.
pub proof fn lemma_known_route_gets_shell<R>(
    request: Request,
    site: Site<R>,
    contents: Seq<char>,
)
    requires
        known_routes().contains(request.path),
        site.answer(request).status == NOT_FOUND,
        site.shell == Some(contents),
    ensures
        decision(request.path, site.answer(request).status, site.answer(request).response)
            == DecisionView::<R>::ServeIndex,
        shell_reply(site.shell) == ReplyView::html(contents),
        exchange(request, site) == Outcome::<R>::Sent(ReplyView::html(contents)),
{
    lemma_api_path_is_no_known_route();
}

/// A client-side route that has no file, at a moment when the application
/// shell cannot be read, gets an internal error with a fixed body.
pub proof fn lemma_unreadable_shell_is_internal_error<R>(request: Request, site: Site<R>)
    requires
        known_routes().contains(request.path),
        site.answer(request).status == NOT_FOUND,
        site.shell is None,
    ensures
        exchange(request, site) == Outcome::<R>::Sent(
            ReplyView::text(INTERNAL_SERVER_ERROR, INDEX_MISSING@),
        ),
{
    lemma_api_path_is_no_known_route();
}

/// The greeting endpoint answers the same whatever the static directory
/// holds: its path goes to the endpoint, never to the static file service,
/// and the reply is settled by the request's method alone.
pub proof fn lemma_greeting_ignores_site<R>(method: Seq<char>, one: Site<R>, other: Site<R>)
    ensures
        target_of(API_HELLO_PATH@) == Target::ApiHandler,
        exchange(Request { method, path: API_HELLO_PATH@ }, one) == exchange(
            Request { method, path: API_HELLO_PATH@ },
            other,
        ),
        exchange(Request { method, path: API_HELLO_PATH@ }, one) == Outcome::<R>::Sent(
            hello_reply(method),
        ),
{
}

/// Requests are served each on its own, and serving changes nothing. In a
/// run of arrivals, the response to a request is settled by that request and
/// the site at that moment, so a request that is repeated against an
/// unchanged site gets the response it got before, whatever was served in
/// between.
pub proof fn lemma_repeated_requests_agree<R>(arrivals: Seq<Arrival<R>>, first: int, again: int)
    requires
        0 <= first < arrivals.len(),
        0 <= again < arrivals.len(),
        arrivals[first] == arrivals[again],
    ensures
        exchanges(arrivals).len() == arrivals.len(),
        exchanges(arrivals)[first] == exchange(arrivals[first].request, arrivals[first].site),
        exchanges(arrivals)[again] == exchanges(arrivals)[first],
{
}

/// When the policy refuses or fails. A reply of its own is
/// method-not-allowed exactly for the greeting endpoint under a method other
/// than `GET`; not-found exactly for a path that is neither the endpoint's
/// nor a client-side route and has no file; an internal error exactly for a
/// client-side route that has no file while the application shell cannot be
/// read. Every other reply of its own is a success.
pub proof fn lemma_when_the_policy_refuses<R>(request: Request, site: Site<R>, reply: ReplyView)
    requires
        exchange(request, site) == Outcome::<R>::Sent(reply),
    ensures
        reply.status == METHOD_NOT_ALLOWED <==> request.path == API_HELLO_PATH@ && request.method
            != GET@,
        reply.status == NOT_FOUND <==> request.path != API_HELLO_PATH@ && !known_routes().contains(
            request.path,
        ) && site.answer(request).status == NOT_FOUND,
        reply.status == INTERNAL_SERVER_ERROR <==> known_routes().contains(request.path)
            && site.answer(request).status == NOT_FOUND && site.shell is None,
        reply.status == OK || reply.status == METHOD_NOT_ALLOWED || reply.status == NOT_FOUND
            || reply.status == INTERNAL_SERVER_ERROR,
{
    lemma_api_path_is_no_known_route();
}

} // verus!
