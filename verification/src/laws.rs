//! What holds of the gateway as a whole, proved from the contracts of its
//! parts.

use vstd::prelude::*;
use vstd::utf8::encode_utf8;
use crate::endpoints::{k_line_url, valid_period, Endpoint};
use crate::errors::{ApiError, ApiErrorView};
use crate::handlers::{answer, response_of, BodyView, ResponseView};
use crate::headers::{
    browser_agent, cookie, default_a_token, default_r_token, header_table, header_text,
    lemma_printable_is_header_text, or_default, request_table,
};
use crate::json::{descend, parsed_json};
use crate::stock_service::{
    failure_detail, invalid_period_detail, k_line_planned, status_reason, success, Fetch, Upstream,
};
use crate::text::decimal;

verus! {

/// Whether `part` occurs in `whole` as a contiguous run of characters.
pub open spec fn occurs_in(part: Seq<char>, whole: Seq<char>) -> bool {
    exists|start: int|
        0 <= start && start + part.len() <= whole.len() && #[trigger] whole.subrange(
            start,
            start + part.len(),
        ) == part
}

/// Where upstream answers with success and a JSON document that holds the
/// payload of the endpoint, the client gets status 200 with exactly that
/// payload.
pub proof fn law_present_payload_is_served(
    endpoint: Endpoint,
    status: u16,
    body: String,
    document: serde_json::Value,
    payload: serde_json::Value,
)
    requires
        success(status),
        parsed_json(body@) == Ok::<serde_json::Value, serde_json::Error>(document),
        descend(document, endpoint.pointer()) == Some(payload),
    ensures
        answer(endpoint, Upstream::Answered { status, body }) == (ResponseView {
            status: 200,
            body: BodyView::Document(payload),
        }),
{
}

/// Where upstream answers with success and a JSON document that lacks the
/// payload of the endpoint, the client gets status 404 and the message that
/// names what is missing.
pub proof fn law_absent_payload_is_not_found(
    endpoint: Endpoint,
    status: u16,
    body: String,
    document: serde_json::Value,
)
    requires
        success(status),
        parsed_json(body@) == Ok::<serde_json::Value, serde_json::Error>(document),
        descend(document, endpoint.pointer()) is None,
    ensures
        answer(endpoint, Upstream::Answered { status, body }) == (ResponseView {
            status: 404,
            body: BodyView::Message(ApiErrorView::NotFound(endpoint.missing()).message()),
        }),
{
}

/// Where upstream answers with a status outside the success range, the
/// client gets status 500, whatever the body holds and whether or not it
/// could be read.
pub proof fn law_upstream_failure_is_internal_error(endpoint: Endpoint, reply: Upstream)
    requires
        match reply {
            Upstream::Unreachable(_) => false,
            Upstream::Truncated { status, .. } => !success(status),
            Upstream::Answered { status, .. } => !success(status),
        },
    ensures
        answer(endpoint, reply).status == 500,
        answer(endpoint, reply).body is Message,
{
}

/// Where upstream answers with success and a body that is no JSON document,
/// the client gets status 500.
pub proof fn law_malformed_body_is_internal_error(endpoint: Endpoint, status: u16, body: String)
    requires
        success(status),
        parsed_json(body@) is Err,
    ensures
        answer(endpoint, Upstream::Answered { status, body }).status == 500,
        answer(endpoint, Upstream::Answered { status, body }).body is Message,
{
}

/// Where no response arrives, or a successful one breaks off, the client
/// gets status 500.
pub proof fn law_transport_failure_is_internal_error(endpoint: Endpoint, reply: Upstream)
    requires
        match reply {
            Upstream::Unreachable(_) => true,
            Upstream::Truncated { status, .. } => success(status),
            Upstream::Answered { .. } => false,
        },
    ensures
        answer(endpoint, reply).status == 500,
        answer(endpoint, reply).body is Message,
{
}

/// Whether upstream delivered, with success, a JSON document that lacks the
/// payload of the endpoint.
pub open spec fn payload_absent(endpoint: Endpoint, reply: Upstream) -> bool {
    match reply {
        Upstream::Answered { status, body } => success(status) && match parsed_json(body@) {
            Ok(document) => descend(document, endpoint.pointer()) is None,
            Err(_) => false,
        },
        _ => false,
    }
}

/// The client gets status 200 only with a payload, and otherwise 404 or 500:
/// 404 exactly where the payload is absent from a document that upstream
/// delivered with success.
pub proof fn law_answer_statuses(endpoint: Endpoint, reply: Upstream)
    ensures
        answer(endpoint, reply).status == 200 || answer(endpoint, reply).status == 404 || answer(
            endpoint,
            reply,
        ).status == 500,
        answer(endpoint, reply).status == 200 <==> answer(endpoint, reply).body is Document,
        answer(endpoint, reply).status == 404 <==> payload_absent(endpoint, reply),
{
}

/// A K-line request for a period outside the allow-list plans no upstream
/// call: whatever the symbol and the instant, the plan is an error, and the
/// client gets status 404.
pub proof fn law_invalid_period_plans_no_call(
    planned: Result<Fetch, ApiError>,
    symbol: Seq<char>,
    interval: Seq<char>,
    begin: int,
)
    requires
        !valid_period(interval),
        k_line_planned(planned, symbol, interval, begin),
    ensures
        planned is Err,
        planned->Err_0@ == ApiErrorView::NotFound(invalid_period_detail()),
        response_of(Err(planned->Err_0@)).status == 404,
{
}

/// A K-line request for a period of the allow-list plans a call whose
/// address holds, side by side, the instant as the `begin` parameter, in
/// decimal, and the requested period as the `period` parameter.
pub proof fn law_k_line_address_carries_instant_and_period(
    planned: Result<Fetch, ApiError>,
    symbol: Seq<char>,
    interval: Seq<char>,
    begin: int,
)
    requires
        valid_period(interval),
        k_line_planned(planned, symbol, interval, begin),
    ensures
        planned is Ok,
        planned->Ok_0.endpoint == Endpoint::KLine,
        occurs_in("&begin="@ + decimal(begin) + "&period="@ + interval, planned->Ok_0.url@),
{
    let part = "&begin="@ + decimal(begin) + "&period="@ + interval;
    let url = planned->Ok_0.url@;
    let start = (Endpoint::KLine.head() + symbol).len() as int;
    assert(url =~= (Endpoint::KLine.head() + symbol) + part + Endpoint::KLine.tail());
    assert(url.subrange(start, start + part.len()) =~= part);
}

/// Each endpoint names its own payload where it reports one as missing: no
/// two endpoints share the detail of that error.
pub proof fn law_missing_payload_is_named_by_endpoint(first: Endpoint, second: Endpoint)
    requires
        first.missing() == second.missing(),
    ensures
        first == second,
{
    reveal_strlit("quote data not found");
    reveal_strlit("company data not found");
    reveal_strlit("top holders data not found");
    reveal_strlit("holders data not found");
    reveal_strlit("bonus data not found");
    reveal_strlit("indicator data not found");
    reveal_strlit("income data not found");
    reveal_strlit("balance data not found");
    reveal_strlit("cash flow data not found");
    reveal_strlit("minute line data not found");
    reveal_strlit("trade data not found");
    reveal_strlit("pankou data not found");
    reveal_strlit("kline data not found");
    assert("quote data not found"@.len() == 20 && "quote data not found"@[0] == 'q');
    assert("company data not found"@.len() == 22 && "company data not found"@[0] == 'c');
    assert("top holders data not found"@.len() == 26 && "top holders data not found"@[0] == 't');
    assert("holders data not found"@.len() == 22 && "holders data not found"@[0] == 'h');
    assert("bonus data not found"@.len() == 20 && "bonus data not found"@[0] == 'b');
    assert("indicator data not found"@.len() == 24 && "indicator data not found"@[0] == 'i');
    assert("income data not found"@.len() == 21 && "income data not found"@[0] == 'i');
    assert("balance data not found"@.len() == 22 && "balance data not found"@[0] == 'b');
    assert("cash flow data not found"@.len() == 24 && "cash flow data not found"@[0] == 'c');
    assert("minute line data not found"@.len() == 26 && "minute line data not found"@[0] == 'm');
    assert("trade data not found"@.len() == 20 && "trade data not found"@[0] == 't');
    assert("pankou data not found"@.len() == 21 && "pankou data not found"@[0] == 'p');
    assert("kline data not found"@.len() == 20 && "kline data not found"@[0] == 'k');
}

/// A service error names the status that upstream answered with: its detail
/// begins with the fixed words and the status in decimal, and for a status
/// code a space and the reason follow.
pub proof fn law_service_error_names_the_status(status: u16)
    ensures
        ("请求失败，状态码: "@ + decimal(status as int)).is_prefix_of(failure_detail(status)),
        100 <= status <= 999 ==> failure_detail(status) == "请求失败，状态码: "@ + decimal(
            status as int,
        ) + " "@ + status_reason(status),
        !(100 <= status <= 999) ==> failure_detail(status) == "请求失败，状态码: "@ + decimal(
            status as int,
        ),
{
    let head = "请求失败，状态码: "@ + decimal(status as int);
    if 100 <= status <= 999 {
        assert(failure_detail(status) =~= head + (" "@ + status_reason(status)));
        assert(failure_detail(status) =~= head + " "@ + status_reason(status));
    } else {
        assert(failure_detail(status) =~= head);
    }
    assert(failure_detail(status).subrange(0, head.len() as int) =~= head);
}

/// The headers with which a call goes out are the five common ones, with
/// the browser identification as the one value of `user-agent`.
pub proof fn law_request_headers_override_the_agent(a_token: Seq<char>, r_token: Seq<char>)
    ensures
        request_table(a_token, r_token).dom() =~= header_table(a_token, r_token).dom(),
        request_table(a_token, r_token).dom().len() == 5,
        request_table(a_token, r_token)["user-agent"@] == seq![encode_utf8(browser_agent())],
        request_table(a_token, r_token)["cookie"@] == seq![encode_utf8(cookie(a_token, r_token))],
        request_table(a_token, r_token)["origin"@] == seq![encode_utf8("https://xueqiu.com"@)],
        request_table(a_token, r_token)["referer"@] == seq![encode_utf8("https://xueqiu.com"@)],
        request_table(a_token, r_token)["x-requested-with"@] == seq![
            encode_utf8("XMLHttpRequest"@),
        ],
{
    lemma_header_names_differ();
    law_headers_are_five(a_token, r_token);
}

/// No two endpoints share a route.
pub proof fn law_routes_are_distinct(first: Endpoint, second: Endpoint)
    requires
        first.route() == second.route(),
    ensures
        first == second,
{
    reveal_strlit("stock");
    reveal_strlit("company");
    reveal_strlit("top_holders");
    reveal_strlit("holders");
    reveal_strlit("bonus");
    reveal_strlit("indicator");
    reveal_strlit("income");
    reveal_strlit("balance");
    reveal_strlit("cash_flow");
    reveal_strlit("minute");
    reveal_strlit("trade");
    reveal_strlit("pankou");
    reveal_strlit("kline");
    assert("stock"@.len() == 5 && "stock"@[0] == 's');
    assert("company"@.len() == 7 && "company"@[0] == 'c');
    assert("top_holders"@.len() == 11 && "top_holders"@[0] == 't');
    assert("holders"@.len() == 7 && "holders"@[0] == 'h');
    assert("bonus"@.len() == 5 && "bonus"@[0] == 'b');
    assert("indicator"@.len() == 9 && "indicator"@[0] == 'i');
    assert("income"@.len() == 6 && "income"@[0] == 'i');
    assert("balance"@.len() == 7 && "balance"@[0] == 'b');
    assert("cash_flow"@.len() == 9 && "cash_flow"@[0] == 'c');
    assert("minute"@.len() == 6 && "minute"@[0] == 'm');
    assert("trade"@.len() == 5 && "trade"@[0] == 't');
    assert("pankou"@.len() == 6 && "pankou"@[0] == 'p');
    assert("kline"@.len() == 5 && "kline"@[0] == 'k');
}

/// The headers of an upstream call are five, each with one value: the cookie
/// made of the tokens, and four that are fixed.
pub proof fn law_headers_are_five(a_token: Seq<char>, r_token: Seq<char>)
    ensures
        header_table(a_token, r_token).dom() =~= set![
            "cookie"@,
            "user-agent"@,
            "origin"@,
            "referer"@,
            "x-requested-with"@,
        ],
        header_table(a_token, r_token).dom().len() == 5,
        header_table(a_token, r_token)["cookie"@] == seq![encode_utf8(cookie(a_token, r_token))],
        header_table(a_token, r_token)["user-agent"@] == seq![encode_utf8("Mozilla/5.0"@)],
        header_table(a_token, r_token)["origin"@] == seq![encode_utf8("https://xueqiu.com"@)],
        header_table(a_token, r_token)["referer"@] == seq![encode_utf8("https://xueqiu.com"@)],
        header_table(a_token, r_token)["x-requested-with"@] == seq![
            encode_utf8("XMLHttpRequest"@),
        ],
{
    lemma_header_names_differ();
}

/// The names of the five headers are pairwise different.
proof fn lemma_header_names_differ()
    ensures
        "cookie"@ != "user-agent"@,
        "cookie"@ != "origin"@,
        "cookie"@ != "referer"@,
        "cookie"@ != "x-requested-with"@,
        "user-agent"@ != "origin"@,
        "user-agent"@ != "referer"@,
        "user-agent"@ != "x-requested-with"@,
        "origin"@ != "referer"@,
        "origin"@ != "x-requested-with"@,
        "referer"@ != "x-requested-with"@,
{
    reveal_strlit("cookie");
    reveal_strlit("user-agent");
    reveal_strlit("origin");
    reveal_strlit("referer");
    reveal_strlit("x-requested-with");
    assert("cookie"@.len() == 6 && "cookie"@[0] == 'c');
    assert("user-agent"@.len() == 10);
    assert("origin"@.len() == 6 && "origin"@[0] == 'o');
    assert("referer"@.len() == 7);
    assert("x-requested-with"@.len() == 16);
}

/// Tokens that the environment does not name fall back to their literal
/// defaults; the cookie made of the defaults may stand as a header value, so
/// the headers can be made of them, and the cookie header then carries them.
pub proof fn law_missing_tokens_fall_back(a_token: Option<String>, r_token: Option<String>)
    requires
        a_token is None,
        r_token is None,
    ensures
        or_default(a_token, default_a_token()) == "default_token"@,
        or_default(r_token, default_r_token()) == "default_r_token"@,
        header_text(cookie("default_token"@, "default_r_token"@)),
        header_table("default_token"@, "default_r_token"@)["cookie"@] == seq![
            encode_utf8(
                "xq_a_token="@ + "default_token"@ + ";xq_r_token="@ + "default_r_token"@ + ";"@,
            ),
        ],
{
    reveal_strlit("xq_a_token=");
    reveal_strlit("default_token");
    reveal_strlit(";xq_r_token=");
    reveal_strlit("default_r_token");
    reveal_strlit(";");
    lemma_printable_is_header_text(cookie("default_token"@, "default_r_token"@));
    lemma_header_names_differ();
}

} // verus!
