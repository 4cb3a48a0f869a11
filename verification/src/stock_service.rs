//! The service behind each endpoint, in two halves around the upstream call:
//! planning the call, and interpreting what came back.

use vstd::prelude::*;
use vstd::string::StringExecFns;
use crate::endpoints::{build_k_line_url, is_valid_period, k_line_url, valid_period, Endpoint};
use crate::errors::{result_view, ApiError, ApiErrorView};
use crate::json::{descend, lookup, parse, parse_outcome};
use crate::text::{decimal, push_decimal_nat};

verus! {

/// An upstream call that is due: the endpoint it serves and the address to
/// get.
#[derive(Debug, Clone, PartialEq, Eq)]
pub struct Fetch {
    pub endpoint: Endpoint,
    pub url: String,
}

/// What became of an upstream call.
#[derive(Debug, Clone, PartialEq, Eq)]
pub enum Upstream {
    /// No response arrived; the detail says why.
    Unreachable(String),
    /// A response arrived, but its body could not be read to the end.
    Truncated { status: u16, detail: String },
    /// A response arrived in full.
    Answered { status: u16, body: String },
}

/// Whether an HTTP status reports success.
pub open spec fn success(status: u16) -> bool {
    200 <= status < 300
}

/// Whether an HTTP status reports success.
pub fn is_success(status: u16) -> (yes: bool)
    ensures
        yes == success(status),
{
    200 <= status && status < 300
}

/// The reason that the HTTP library displays behind a status code: the
/// canonical phrase of the code, or a fixed remark for a code that has none.
pub uninterp spec fn status_reason(status: u16) -> Seq<char>;

/// `reqwest::StatusCode::from_u16`, then the status code's `Display`: a code
/// from 100 to 999 is accepted, any other is refused. The display writes the
/// number in decimal, a space, and the reason.
#[verifier::external_body]
fn display_status(status: u16) -> (text: Option<String>)
    ensures
        text is Some <==> 100 <= status <= 999,
        text matches Some(words) ==> words@ == decimal(status as int) + " "@ + status_reason(
            status,
        ),
{
    match reqwest::StatusCode::from_u16(status) {
        Ok(code) => Some(code.to_string()),
        Err(_) => None,
    }
}

/// How a status is written in an error: the number and, for a number that is
/// a status code, a space and the reason that the HTTP library gives for it.
pub open spec fn status_words(status: u16) -> Seq<char> {
    if 100 <= status <= 999 {
        decimal(status as int) + " "@ + status_reason(status)
    } else {
        decimal(status as int)
    }
}

/// The detail of the error that reports an unsuccessful status.
pub open spec fn failure_detail(status: u16) -> Seq<char> {
    "请求失败，状态码: "@ + status_words(status)
}

/// The document that an upstream call delivered, or the error that stands in
/// its place.
pub open spec fn delivered(reply: Upstream) -> Result<serde_json::Value, ApiErrorView> {
    match reply {
        Upstream::Unreachable(detail) => Err(ApiErrorView::ReqwestError(detail@)),
        Upstream::Truncated { status, detail } => if success(status) {
            Err(ApiErrorView::ReqwestError(detail@))
        } else {
            Err(ApiErrorView::ServiceError(failure_detail(status)))
        },
        Upstream::Answered { status, body } => if success(status) {
            parse_outcome(body@)
        } else {
            Err(ApiErrorView::ServiceError(failure_detail(status)))
        },
    }
}

/// The payload of an endpoint within an upstream document, or the error that
/// reports its absence.
pub open spec fn extracted(endpoint: Endpoint, document: serde_json::Value) -> Result<serde_json::Value, ApiErrorView> {
    match descend(document, endpoint.pointer()) {
        Some(payload) => Ok(payload),
        None => Err(ApiErrorView::NotFound(endpoint.missing())),
    }
}

/// The result of an endpoint for what came back from upstream.
pub open spec fn completed(endpoint: Endpoint, reply: Upstream) -> Result<serde_json::Value, ApiErrorView> {
    match delivered(reply) {
        Ok(document) => extracted(endpoint, document),
        Err(error) => Err(error),
    }
}

fn service_error(status: u16) -> (error: ApiError)
    ensures
        error@ == ApiErrorView::ServiceError(failure_detail(status)),
{
    let mut detail = String::from_str("请求失败，状态码: ");
    match display_status(status) {
        Some(words) => {
            detail.append(words.as_str());
        },
        None => {
            push_decimal_nat(&mut detail, status as u64);
        },
    }
    ApiError::ServiceError(detail)
}

/// Interprets what came back from upstream: a transport failure, an
/// unsuccessful status and a body that is no JSON each give their error; a
/// successful response gives its document.
pub fn get_data_from_url(reply: Upstream) -> (outcome: Result<serde_json::Value, ApiError>)
    ensures
        result_view(outcome) == delivered(reply),
{
    match reply {
        Upstream::Unreachable(detail) => Err(ApiError::ReqwestError(detail)),
        Upstream::Truncated { status, detail } => {
            if is_success(status) {
                Err(ApiError::ReqwestError(detail))
            } else {
                Err(service_error(status))
            }
        },
        Upstream::Answered { status, body } => {
            if is_success(status) {
                parse(body.as_str())
            } else {
                Err(service_error(status))
            }
        },
    }
}

/// Takes the payload of an endpoint out of an upstream document.
pub fn extract(endpoint: Endpoint, document: serde_json::Value) -> (outcome: Result<serde_json::Value, ApiError>)
    ensures
        result_view(outcome) == extracted(endpoint, document),
{
    let keys = endpoint.pointer_keys();
    match lookup(&document, &keys) {
        Some(payload) => Ok(payload),
        None => Err(ApiError::NotFound(String::from_str(endpoint.missing_text()))),
    }
}

impl Fetch {
    /// Completes the call with what came back from upstream.
    pub fn complete(&self, reply: Upstream) -> (outcome: Result<serde_json::Value, ApiError>)
        ensures
            result_view(outcome) == completed(self.endpoint, reply),
    {
        match get_data_from_url(reply) {
            Ok(document) => extract(self.endpoint, document),
            Err(error) => Err(error),
        }
    }
}

fn plan(endpoint: Endpoint, symbol: String) -> (fetch: Fetch)
    ensures
        fetch.endpoint == endpoint,
        fetch.url@ == endpoint.url(symbol@),
{
    Fetch { endpoint, url: endpoint.build_url(symbol.as_str()) }
}

/// Plans the call for the quote of a symbol.
pub fn get_stock_data(symbol: String) -> (fetch: Fetch)
    ensures
        fetch.endpoint == Endpoint::Quote,
        fetch.url@ == Endpoint::Quote.url(symbol@),
{
    plan(Endpoint::Quote, symbol)
}

/// Plans the call for the company profile of a symbol.
pub fn get_company_data(symbol: String) -> (fetch: Fetch)
    ensures
        fetch.endpoint == Endpoint::Company,
        fetch.url@ == Endpoint::Company.url(symbol@),
{
    plan(Endpoint::Company, symbol)
}

/// Plans the call for the ten largest holders of a symbol.
pub fn get_top_holders(symbol: String) -> (fetch: Fetch)
    ensures
        fetch.endpoint == Endpoint::TopHolders,
        fetch.url@ == Endpoint::TopHolders.url(symbol@),
{
    plan(Endpoint::TopHolders, symbol)
}

/// Plans the call for the holder counts of a symbol.
pub fn get_holders_nums(symbol: String) -> (fetch: Fetch)
    ensures
        fetch.endpoint == Endpoint::Holders,
        fetch.url@ == Endpoint::Holders.url(symbol@),
{
    plan(Endpoint::Holders, symbol)
}

/// Plans the call for the dividends of a symbol.
pub fn get_bonus(symbol: String) -> (fetch: Fetch)
    ensures
        fetch.endpoint == Endpoint::Bonus,
        fetch.url@ == Endpoint::Bonus.url(symbol@),
{
    plan(Endpoint::Bonus, symbol)
}

/// Plans the call for the key indicators of a symbol.
pub fn get_indicator(symbol: String) -> (fetch: Fetch)
    ensures
        fetch.endpoint == Endpoint::Indicator,
        fetch.url@ == Endpoint::Indicator.url(symbol@),
{
    plan(Endpoint::Indicator, symbol)
}

/// Plans the call for the income statement of a symbol.
pub fn get_income(symbol: String) -> (fetch: Fetch)
    ensures
        fetch.endpoint == Endpoint::Income,
        fetch.url@ == Endpoint::Income.url(symbol@),
{
    plan(Endpoint::Income, symbol)
}

/// Plans the call for the balance sheet of a symbol.
pub fn get_balance(symbol: String) -> (fetch: Fetch)
    ensures
        fetch.endpoint == Endpoint::Balance,
        fetch.url@ == Endpoint::Balance.url(symbol@),
{
    plan(Endpoint::Balance, symbol)
}

/// Plans the call for the cash flow statement of a symbol.
pub fn get_cash_flow(symbol: String) -> (fetch: Fetch)
    ensures
        fetch.endpoint == Endpoint::CashFlow,
        fetch.url@ == Endpoint::CashFlow.url(symbol@),
{
    plan(Endpoint::CashFlow, symbol)
}

/// Plans the call for the minute chart of a symbol.
pub fn get_minute_line(symbol: String) -> (fetch: Fetch)
    ensures
        fetch.endpoint == Endpoint::MinuteLine,
        fetch.url@ == Endpoint::MinuteLine.url(symbol@),
{
    plan(Endpoint::MinuteLine, symbol)
}

/// Plans the call for the latest trades of a symbol.
pub fn get_trade(symbol: String) -> (fetch: Fetch)
    ensures
        fetch.endpoint == Endpoint::Trade,
        fetch.url@ == Endpoint::Trade.url(symbol@),
{
    plan(Endpoint::Trade, symbol)
}

/// Plans the call for the order book of a symbol.
pub fn get_pankou(symbol: String) -> (fetch: Fetch)
    ensures
        fetch.endpoint == Endpoint::Pankou,
        fetch.url@ == Endpoint::Pankou.url(symbol@),
{
    plan(Endpoint::Pankou, symbol)
}

/// The detail of the error that reports a period outside the allow-list.
pub open spec fn invalid_period_detail() -> Seq<char> {
    "interval  data not found"@
}

/// Whether `planned` is the K-line plan for the given symbol, period and
/// instant: an error for a period outside the allow-list, else the call whose
/// address carries all three.
pub open spec fn k_line_planned(
    planned: Result<Fetch, ApiError>,
    symbol: Seq<char>,
    interval: Seq<char>,
    begin: int,
) -> bool {
    match planned {
        Ok(fetch) => {
            &&& valid_period(interval)
            &&& fetch.endpoint == Endpoint::KLine
            &&& fetch.url@ == k_line_url(symbol, begin, interval)
        },
        Err(error) => {
            &&& !valid_period(interval)
            &&& error@ == ApiErrorView::NotFound(invalid_period_detail())
        },
    }
}

/// Plans the call for the K-line chart of a symbol that runs backwards from
/// the instant `begin`, given in milliseconds since the Unix epoch. A period
/// outside the allow-list is refused, and no call is planned.
pub fn get_k_line_from(symbol: String, interval: String, begin: i64) -> (planned: Result<
    Fetch,
    ApiError,
>)
    ensures
        k_line_planned(planned, symbol@, interval@, begin as int),
{
    if !is_valid_period(interval.as_str()) {
        return Err(ApiError::NotFound(String::from_str("interval  data not found")));
    }
    Ok(
        Fetch {
            endpoint: Endpoint::KLine,
            url: build_k_line_url(symbol.as_str(), begin, interval.as_str()),
        },
    )
}

/// `chrono::Utc::now`, then `DateTime::timestamp_millis`: the clock's reading
/// in milliseconds since the Unix epoch. The reading is taken as a duration
/// since the epoch, so whenever the call returns it is not negative; with a
/// clock that stands before the epoch, or beyond the range of dates that the
/// calendar holds, the call panics.
#[verifier::external_body]
fn now_millis() -> (millis: i64)
    ensures
        millis >= 0,
{
    chrono::Utc::now().timestamp_millis()
}

/// Plans the call for the K-line chart of a symbol that runs backwards from
/// now. A period outside the allow-list is refused without reading the clock,
/// and no call is planned.
pub fn get_k_line(symbol: String, interval: String) -> (planned: Result<Fetch, ApiError>)
    ensures
        exists|begin: int|
            0 <= begin <= i64::MAX && k_line_planned(planned, symbol@, interval@, begin),
{
    if !is_valid_period(interval.as_str()) {
        let refused = get_k_line_from(symbol, interval, 0);
        proof {
            assert(k_line_planned(refused, symbol@, interval@, 0));
        }
        return refused;
    }
    let begin = now_millis();
    let planned = get_k_line_from(symbol, interval, begin);
    proof {
        assert(k_line_planned(planned, symbol@, interval@, begin as int));
    }
    planned
}

} // verus!
