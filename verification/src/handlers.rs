//! The request handlers: what the service answers to `GET /blogs` and to
//! `GET /blogs/{id}`.
//!
//! A handler performs no I/O. It is called with what is known of the request
//! so far and answers with the next [`Step`]: a statement for the caller to
//! run against the store, or the response that ends the request. The caller
//! calls it first without a reply and then, if it asked for a statement, once
//! more with the store's reply to it.
//!
//! No failure leaves a handler in any other form than a response: an absent
//! post is 404, a malformed identifier is 400, a failure of the store is 500.

use vstd::prelude::*;
use crate::error::{ServiceError, spec_status_code};
use crate::path::{parse_id, spec_parse_id};
use crate::post::{BlogPost, BlogPostView, posts_view};
use crate::repository::{
    fetched, get_blog_post, get_blog_post_statement, get_blog_posts, get_blog_posts_statement,
    get_statement, list_statement, listed,
};
use crate::store::{FetchReply, FetchReplyView, Statement, StatementView};

verus! {

/// What a response carries. Writing it out as JSON is the caller's part.
#[derive(Clone, Debug, PartialEq, Eq)]
pub enum Body {
    /// Nothing.
    Empty,
    /// One post, to be written as a JSON object.
    Post(BlogPost),
    /// A list of posts, to be written as a JSON array.
    Posts(Vec<BlogPost>),
}

/// What a [`Body`] is, mathematically.
pub ghost enum BodyView {
    Empty,
    Post(BlogPostView),
    Posts(Seq<BlogPostView>),
}

impl View for Body {
    type V = BodyView;

    open spec fn view(&self) -> BodyView {
        match self {
            Body::Empty => BodyView::Empty,
            Body::Post(post) => BodyView::Post(post@),
            Body::Posts(posts) => BodyView::Posts(posts_view(posts@)),
        }
    }
}

/// An HTTP response: the status and what the body carries.
#[derive(Clone, Debug, PartialEq, Eq)]
pub struct Response {
    pub status: u16,
    pub body: Body,
}

/// What a [`Response`] is, mathematically.
pub ghost struct ResponseView {
    pub status: u16,
    pub body: BodyView,
}

impl View for Response {
    type V = ResponseView;

    open spec fn view(&self) -> ResponseView {
        ResponseView { status: self.status, body: self.body@ }
    }
}

/// What a handler wants done next.
#[derive(Clone, Debug, PartialEq, Eq)]
pub enum Step {
    /// Run this statement and call the handler again with the reply.
    Query(Statement),
    /// Send this response; the request is over.
    Respond(Response),
}

/// What a [`Step`] is, mathematically.
pub ghost enum StepView {
    Query(StatementView),
    Respond(ResponseView),
}

impl View for Step {
    type V = StepView;

    open spec fn view(&self) -> StepView {
        match self {
            Step::Query(stmt) => StepView::Query(stmt@),
            Step::Respond(response) => StepView::Respond(response@),
        }
    }
}

/// The view of a reply that may not have come yet.
pub open spec fn reply_view(reply: Option<FetchReply>) -> Option<FetchReplyView> {
    match reply {
        Some(r) => Some(r@),
        None => None,
    }
}

/// The response to a request that failed with `e`: the status of `e` and an
/// empty body.
pub open spec fn failure(e: ServiceError) -> ResponseView {
    ResponseView { status: spec_status_code(e), body: BodyView::Empty }
}

/// The response to `GET /blogs` once the store has replied: 200 with the
/// posts, or the failure.
pub open spec fn posts_response(reply: FetchReplyView) -> ResponseView {
    match listed(reply) {
        Ok(posts) => ResponseView { status: 200, body: BodyView::Posts(posts) },
        Err(e) => failure(e),
    }
}

/// The response to `GET /blogs/{id}` once the store has replied: 200 with
/// the post `id`, or the failure.
pub open spec fn post_response(id: int, reply: FetchReplyView) -> ResponseView {
    match fetched(id, reply) {
        Ok(post) => ResponseView { status: 200, body: BodyView::Post(post) },
        Err(e) => failure(e),
    }
}

/// The step of `GET /blogs`: first the statement that lists the posts, then
/// the response to the store's reply.
pub open spec fn posts_step(reply: Option<FetchReplyView>) -> StepView {
    match reply {
        None => StepView::Query(list_statement()),
        Some(r) => StepView::Respond(posts_response(r)),
    }
}

/// The step of `GET /blogs/{id}` for the path segment that stands for `id`.
/// A segment that is no identifier is answered with 400 at once, and nothing
/// is asked of the store. Otherwise: first the statement that reads the post,
/// then the response to the store's reply.
pub open spec fn post_step(segment: Seq<char>, reply: Option<FetchReplyView>) -> StepView {
    match spec_parse_id(segment) {
        None => StepView::Respond(failure(ServiceError::BadRequest)),
        Some(id) => match reply {
            None => StepView::Query(get_statement(id)),
            Some(r) => StepView::Respond(post_response(id, r)),
        },
    }
}

/// The response to a request that failed with `e`.
pub fn error_response(e: ServiceError) -> (response: Response)
    ensures
        response@ == failure(e),
{
    Response { status: e.status_code(), body: Body::Empty }
}

/// Handles `GET /blogs`.
///
/// Without a reply it asks for the statement that lists the posts. With the
/// reply it responds: 200 and the posts in the order of the rows, or 500 if
/// the store failed or returned a row that is no post.
pub fn get_blog_posts_handler(reply: Option<FetchReply>) -> (step: Step)
    ensures
        step@ == posts_step(reply_view(reply)),
{
    match reply {
        None => Step::Query(get_blog_posts_statement()),
        Some(reply) => match get_blog_posts(reply) {
            Ok(posts) => Step::Respond(Response { status: 200, body: Body::Posts(posts) }),
            Err(e) => Step::Respond(error_response(e)),
        },
    }
}

/// Handles `GET /blogs/{id}`, where `id_segment` is the path segment that
/// stands for `id`.
///
/// A segment that is no identifier is answered with 400, whether or not a
/// reply is at hand. For an identifier: without a reply it asks for the
/// statement that reads that post; with the reply it responds 200 and the
/// post, 404 if the store returned no row, or 500 if the store failed or
/// returned a row that is not that post.
pub fn get_blog_post_handler(id_segment: &str, reply: Option<FetchReply>) -> (step: Step)
    ensures
        step@ == post_step(id_segment@, reply_view(reply)),
{
    match parse_id(id_segment) {
        None => Step::Respond(error_response(ServiceError::BadRequest)),
        Some(id) => match reply {
            None => Step::Query(get_blog_post_statement(id)),
            Some(reply) => match get_blog_post(id, reply) {
                Ok(post) => Step::Respond(Response { status: 200, body: Body::Post(post) }),
                Err(e) => Step::Respond(error_response(e)),
            },
        },
    }
}

/// A handler that has the store's reply responds: it never asks for a
/// second statement, so a request ends after at most one.
pub proof fn lemma_reply_ends_request(segment: Seq<char>, reply: FetchReplyView)
    ensures
        posts_step(Some(reply)) is Respond,
        post_step(segment, Some(reply)) is Respond,
{
}

/// A path segment that is no identifier is answered with 400 and an empty
/// body, and the store is not asked.
pub proof fn lemma_malformed_id_is_bad_request(segment: Seq<char>, reply: Option<FetchReplyView>)
    requires
        spec_parse_id(segment) is None,
    ensures
        post_step(segment, reply) == StepView::Respond(
            ResponseView { status: 400, body: BodyView::Empty },
        ),
{
}

/// The status of the response to `GET /blogs/{id}` tells what happened:
/// 200 exactly when the reply held the post, 404 exactly when it held no
/// row, 500 in every other case. There is no other status, and only a 200
/// has a body.
pub proof fn lemma_post_response_status(id: i32, reply: FetchReplyView)
    ensures
        post_response(id as int, reply).status == 200 <==> fetched(id as int, reply) is Ok,
        post_response(id as int, reply).status == 404 <==> reply == FetchReplyView::Rows(seq![]),
        post_response(id as int, reply).status == 500 <==> fetched(id as int, reply) == Err::<
            BlogPostView,
            ServiceError,
        >(ServiceError::StoreError),
        post_response(id as int, reply).status == 200 || post_response(id as int, reply).status
            == 404 || post_response(id as int, reply).status == 500,
        fetched(id as int, reply) matches Ok(post) ==> post_response(id as int, reply).body
            == BodyView::Post(post) && post.id == id,
        fetched(id as int, reply) is Err ==> post_response(id as int, reply).body
            == BodyView::Empty,
{
    if let FetchReplyView::Rows(rows) = reply {
        if rows.len() == 0 {
            assert(rows =~= seq![]);
        }
    }
}

/// The status of the response to `GET /blogs` tells what happened: 200
/// exactly when every row of the reply was a post, 500 in every other case.
pub proof fn lemma_posts_response_status(reply: FetchReplyView)
    ensures
        posts_response(reply).status == 200 <==> listed(reply) is Ok,
        posts_response(reply).status == 500 <==> listed(reply) is Err,
        listed(reply) matches Ok(posts) ==> posts_response(reply).body == BodyView::Posts(posts),
        listed(reply) is Err ==> posts_response(reply).body == BodyView::Empty,
{
}

/// A reply without rows is answered with 404: whatever identifier the
/// segment denotes, when the store returns no row for it the response has
/// the status 404 and an empty body.
pub proof fn lemma_no_row_is_404(segment: Seq<char>)
    requires
        spec_parse_id(segment) is Some,
    ensures
        post_step(segment, Some(FetchReplyView::Rows(seq![]))) == StepView::Respond(
            ResponseView { status: 404, body: BodyView::Empty },
        ),
{
}

} // verus!
