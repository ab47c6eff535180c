//! Which HTTP requests the handlers accept, and the text they answer with.

use vstd::prelude::*;
use crate::text::same_text;

verus! {

/// What the handler does with a request.
#[derive(Clone, Copy, Debug, PartialEq, Eq, Structural)]
pub enum Route {
    /// The body is pushed onto the shared buffer for the batch sender.
    Queue,
    /// The body is sent to Kafka straight away.
    Forward,
    /// The body is decoded as a payload and relayed.
    Accept,
    /// A request to any other place than `POST /`.
    NotFound,
    /// A request with another method than `POST`.
    PostOnly,
}

/// How a handler that serves `POST /` passes the body on.
#[derive(Clone, Copy, Debug, PartialEq, Eq, Structural)]
pub enum ForwardMode {
    Queued,
    Direct,
}

pub const QUEUED_REPLY: &'static str = "Message queued for Kafka";
pub const SENT_REPLY: &'static str = "Message sent to Kafka";
pub const ACCEPTED_REPLY: &'static str = "Payload received";
pub const NOT_FOUND_REPLY: &'static str = "404 Not Found";
pub const POST_ONLY_REPLY: &'static str = "Only POST is supported";

/// The route of a request with `method` to `path`, for a handler that
/// serves `POST /` only.
pub open spec fn payload_route(method: Seq<char>, path: Seq<char>, mode: ForwardMode) -> Route {
    if method == "POST"@ && path == "/"@ {
        match mode {
            ForwardMode::Queued => Route::Queue,
            ForwardMode::Direct => Route::Forward,
        }
    } else {
        Route::NotFound
    }
}

/// Routes a request for a handler that serves `POST /` only.
pub fn route_payload_request(method: &str, path: &str, mode: ForwardMode) -> (route: Route)
    ensures
        route == payload_route(method@, path@, mode),
{
    if same_text(method, "POST") && same_text(path, "/") {
        match mode {
            ForwardMode::Queued => Route::Queue,
            ForwardMode::Direct => Route::Forward,
        }
    } else {
        Route::NotFound
    }
}

/// Routes a request for a handler that takes `POST` to any path.
pub fn route_post_request(method: &str) -> (route: Route)
    ensures
        route == (if method@ == "POST"@ { Route::Accept } else { Route::PostOnly }),
{
    if same_text(method, "POST") {
        Route::Accept
    } else {
        Route::PostOnly
    }
}

impl Route {
    /// The text of the immediate reply to a request on this route.
    pub open spec fn spec_reply(self) -> &'static str {
        match self {
            Route::Queue => QUEUED_REPLY,
            Route::Forward => SENT_REPLY,
            Route::Accept => ACCEPTED_REPLY,
            Route::NotFound => NOT_FOUND_REPLY,
            Route::PostOnly => POST_ONLY_REPLY,
        }
    }

    /// The text of the immediate reply to a request on this route.
    pub fn reply_text(&self) -> (text: &'static str)
        ensures
            text == self.spec_reply(),
    {
        match self {
            Route::Queue => QUEUED_REPLY,
            Route::Forward => SENT_REPLY,
            Route::Accept => ACCEPTED_REPLY,
            Route::NotFound => NOT_FOUND_REPLY,
            Route::PostOnly => POST_ONLY_REPLY,
        }
    }
}

/// Only `POST /` passes a body on, queued or forwarded as the handler's mode
/// says; every other method or path is answered "404 Not Found".
pub proof fn law_only_post_root_is_served(method: Seq<char>, path: Seq<char>, mode: ForwardMode)
    ensures
        path != "/"@ ==> payload_route(method, path, mode) == Route::NotFound,
        method != "POST"@ ==> payload_route(method, path, mode) == Route::NotFound,
        method == "POST"@ && path == "/"@ && mode == ForwardMode::Queued ==> payload_route(
            method,
            path,
            mode,
        ) == Route::Queue,
        method == "POST"@ && path == "/"@ && mode == ForwardMode::Direct ==> payload_route(
            method,
            path,
            mode,
        ) == Route::Forward,
        payload_route(method, path, mode) != Route::Accept,
        payload_route(method, path, mode) != Route::PostOnly,
{
}

/// The reply texts of the routes, word for word.
pub proof fn law_route_replies()
    ensures
        Route::Queue.spec_reply() == "Message queued for Kafka",
        Route::Forward.spec_reply() == "Message sent to Kafka",
        Route::Accept.spec_reply() == "Payload received",
        Route::NotFound.spec_reply() == "404 Not Found",
        Route::PostOnly.spec_reply() == "Only POST is supported",
{
}

} // verus!
