use stock_gateway::endpoints::Endpoint;
use stock_gateway::errors::ApiError;
use stock_gateway::handlers::{generic_handler, Body, KLineParams, Response};
use serde_json::Value;
use stock_gateway::stock_service::{
    get_bonus, get_k_line, get_stock_data, Fetch, Upstream,
};

fn message(status: u16, text: &str) -> Response {
    Response { status, body: Body::Message(text.to_string()) }
}

fn all_endpoints() -> Vec<Endpoint> {
    vec![
        Endpoint::Quote,
        Endpoint::Company,
        Endpoint::TopHolders,
        Endpoint::Holders,
        Endpoint::Bonus,
        Endpoint::Indicator,
        Endpoint::Income,
        Endpoint::Balance,
        Endpoint::CashFlow,
        Endpoint::MinuteLine,
        Endpoint::Trade,
        Endpoint::Pankou,
        Endpoint::KLine,
    ]
}

fn fetch_of(endpoint: Endpoint) -> Fetch {
    Fetch { endpoint, url: endpoint.build_url("SH600000") }
}

#[test]
fn a_payload_is_served_with_status_200() {
    let response = generic_handler(Ok(Value::Bool(true)));
    assert_eq!(response, Response { status: 200, body: Body::Document(Value::Bool(true)) });
}

#[test]
fn a_missing_resource_is_served_with_status_404() {
    let response = generic_handler(Err(ApiError::NotFound("quote data not found".to_string())));
    assert_eq!(response, message(404, "Resource not found: quote data not found"));
}

#[test]
fn any_other_error_is_served_with_status_500() {
    assert_eq!(
        generic_handler(Err(ApiError::ReqwestError("a".to_string()))),
        message(500, "Request error: a")
    );
    assert_eq!(
        generic_handler(Err(ApiError::JsonError("b".to_string()))),
        message(500, "JSON parse error: b")
    );
    assert_eq!(
        generic_handler(Err(ApiError::ServiceError("c".to_string()))),
        message(500, "Service error: c")
    );
}

#[test]
fn the_quote_of_a_symbol_is_served() {
    let fetch = get_stock_data("SH600000".to_string());
    assert_eq!(fetch.url, "https://stock.xueqiu.com/v5/stock/quote.json?symbol=SH600000");
    let response = fetch.respond(Upstream::Answered {
        status: 200,
        body: "{\"data\":{\"quote\":{\"current\":10.5}}}".to_string(),
    });
    let quote: Value = serde_json::from_str("{\"current\":10.5}").unwrap();
    assert_eq!(response, Response { status: 200, body: Body::Document(quote) });
}

#[test]
fn a_k_line_request_for_an_unknown_period_is_answered_with_404() {
    let planned = get_k_line("SH600000".to_string(), "1h".to_string());
    assert!(planned.is_err());
    let response = generic_handler(planned.map(|_| Value::Null));
    assert_eq!(response, message(404, "Resource not found: interval  data not found"));
}

#[test]
fn an_unavailable_upstream_is_answered_with_500() {
    let fetch = get_bonus("SH600000".to_string());
    let response = fetch.respond(Upstream::Answered { status: 503, body: String::new() });
    assert_eq!(response, message(500, "Service error: 请求失败，状态码: 503 Service Unavailable"));
}

#[test]
fn every_endpoint_serves_its_payload() {
    let body = "{\"data\":{\"quote\":1,\"company\":2,\"items\":3,\"list\":4}}";
    for endpoint in all_endpoints() {
        let response =
            fetch_of(endpoint).respond(Upstream::Answered { status: 200, body: body.to_string() });
        assert_eq!(response.status, 200);
        let document: Value = serde_json::from_str(body).unwrap();
        let expected = match endpoint.pointer_keys().as_slice() {
            [first] => document[*first].clone(),
            [first, second] => document[*first][*second].clone(),
            _ => unreachable!(),
        };
        assert_eq!(response.body, Body::Document(expected));
    }
}

#[test]
fn every_endpoint_answers_404_where_the_payload_is_absent() {
    for endpoint in all_endpoints() {
        let response = fetch_of(endpoint)
            .respond(Upstream::Answered { status: 200, body: "{\"error\":1}".to_string() });
        assert_eq!(response.status, 404);
    }
}

#[test]
fn every_endpoint_answers_500_to_an_unsuccessful_status() {
    for endpoint in all_endpoints() {
        for status in [199u16, 301, 400, 404, 500, 503] {
            let body = "{\"data\":{\"quote\":1,\"company\":2,\"items\":3,\"list\":4}}".to_string();
            let response = fetch_of(endpoint).respond(Upstream::Answered { status, body });
            assert_eq!(response.status, 500);
        }
    }
}

#[test]
fn every_endpoint_answers_500_to_a_body_that_is_no_json() {
    for endpoint in all_endpoints() {
        let response = fetch_of(endpoint)
            .respond(Upstream::Answered { status: 200, body: "busy".to_string() });
        assert_eq!(response.status, 500);
    }
}

#[test]
fn every_endpoint_answers_500_to_a_transport_failure() {
    for endpoint in all_endpoints() {
        let response = fetch_of(endpoint).respond(Upstream::Unreachable("refused".to_string()));
        assert_eq!(response, message(500, "Request error: refused"));
    }
}

#[test]
fn k_line_parameters_keep_what_they_were_given() {
    let params = KLineParams::new("SH600000".to_string(), "month".to_string());
    assert_eq!(params.symbol(), "SH600000");
    assert_eq!(params.period(), "month");
}

#[test]
fn k_line_parameters_plan_the_call() {
    let fetch = KLineParams::new("SH600000".to_string(), "month".to_string()).plan().unwrap();
    assert_eq!(fetch.endpoint, Endpoint::KLine);
    assert!(fetch.url.contains("symbol=SH600000&begin="));
    assert!(fetch.url.contains("&period=month&type=before"));
    let refused = KLineParams::new("SH600000".to_string(), "hour".to_string()).plan();
    assert_eq!(refused, Err(ApiError::NotFound("interval  data not found".to_string())));
}
