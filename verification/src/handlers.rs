//! The HTTP boundary: what the gateway answers for each result of a service.

use vstd::prelude::*;
use crate::errors::{result_view, ApiError, ApiErrorView};
use crate::stock_service::{completed, get_k_line, k_line_planned, Fetch, Upstream};

verus! {

/// The body of an answer.
#[derive(Debug, PartialEq, Eq)]
pub enum Body {
    /// A JSON document, served as `application/json`.
    Document(serde_json::Value),
    /// A message in plain text.
    Message(String),
}

/// An HTTP answer of the gateway.
#[derive(Debug, PartialEq, Eq)]
pub struct Response {
    pub status: u16,
    pub body: Body,
}

/// The mathematical value of a [`Body`].
pub enum BodyView {
    Document(serde_json::Value),
    Message(Seq<char>),
}

/// The mathematical value of a [`Response`].
pub struct ResponseView {
    pub status: u16,
    pub body: BodyView,
}

impl View for Body {
    type V = BodyView;

    open spec fn view(&self) -> BodyView {
        match *self {
            Body::Document(document) => BodyView::Document(document),
            Body::Message(text) => BodyView::Message(text@),
        }
    }
}

impl View for Response {
    type V = ResponseView;

    open spec fn view(&self) -> ResponseView {
        ResponseView { status: self.status, body: self.body@ }
    }
}

/// The answer for the result of a service: 200 with the payload, or the
/// status and the message of the error.
pub open spec fn response_of(outcome: Result<serde_json::Value, ApiErrorView>) -> ResponseView {
    match outcome {
        Ok(payload) => ResponseView { status: 200, body: BodyView::Document(payload) },
        Err(error) => ResponseView {
            status: error.status_code(),
            body: BodyView::Message(error.message()),
        },
    }
}

/// The answer of an endpoint for what came back from upstream.
pub open spec fn answer(endpoint: crate::endpoints::Endpoint, reply: Upstream) -> ResponseView {
    response_of(completed(endpoint, reply))
}

/// Turns the result of a service into the answer for the client.
pub fn generic_handler(outcome: Result<serde_json::Value, ApiError>) -> (response: Response)
    ensures
        response@ == response_of(result_view(outcome)),
{
    match outcome {
        Ok(payload) => Response { status: 200, body: Body::Document(payload) },
        Err(error) => Response { status: error.status_code(), body: Body::Message(error.message()) },
    }
}

impl Fetch {
    /// Answers the client with what came back from upstream.
    pub fn respond(&self, reply: Upstream) -> (response: Response)
        ensures
            response@ == answer(self.endpoint, reply),
    {
        generic_handler(self.complete(reply))
    }
}

/// The path parameters of a K-line request.
#[derive(Debug, Clone, PartialEq, Eq)]
pub struct KLineParams {
    symbol: String,
    period: String,
}

impl KLineParams {
    /// The symbol of the request.
    pub closed spec fn symbol_view(&self) -> Seq<char> {
        self.symbol@
    }

    /// The period of the request.
    pub closed spec fn period_view(&self) -> Seq<char> {
        self.period@
    }

    /// Parameters for a symbol and a period, both taken as they are.
    pub fn new(symbol: String, period: String) -> (params: KLineParams)
        ensures
            params.symbol_view() == symbol@,
            params.period_view() == period@,
    {
        KLineParams { symbol, period }
    }

    /// The symbol of the request.
    pub fn symbol(&self) -> (symbol: &str)
        ensures
            symbol@ == self.symbol_view(),
    {
        self.symbol.as_str()
    }

    /// The period of the request.
    pub fn period(&self) -> (period: &str)
        ensures
            period@ == self.period_view(),
    {
        self.period.as_str()
    }

    /// Plans the K-line call for these parameters, running backwards from
    /// now.
    pub fn plan(self) -> (planned: Result<Fetch, ApiError>)
        ensures
            exists|begin: int|
                0 <= begin <= i64::MAX && k_line_planned(
                    planned,
                    self.symbol_view(),
                    self.period_view(),
                    begin,
                ),
    {
        let planned = get_k_line(self.symbol, self.period);
        proof {
            let begin = choose|begin: int|
                0 <= begin <= i64::MAX && k_line_planned(
                    planned,
                    self.symbol@,
                    self.period@,
                    begin,
                );
            assert(k_line_planned(planned, self.symbol_view(), self.period_view(), begin));
        }
        planned
    }
}

} // verus!
