use stock_gateway::endpoints::Endpoint;
use stock_gateway::errors::ApiError;
use serde_json::Value;
use stock_gateway::stock_service::{
    extract, get_balance, get_bonus, get_cash_flow, get_company_data, get_data_from_url,
    get_holders_nums, get_income, get_indicator, get_k_line, get_k_line_from, get_minute_line,
    get_pankou, get_stock_data, get_top_holders, get_trade, is_success, Fetch, Upstream,
};

fn json(text: &str) -> Value {
    serde_json::from_str(text).unwrap()
}

fn answered(status: u16, body: &str) -> Upstream {
    Upstream::Answered { status, body: body.to_string() }
}

#[test]
fn each_service_plans_its_own_call() {
    let symbol = || "SZ000001".to_string();
    assert_eq!(
        get_stock_data(symbol()),
        Fetch {
            endpoint: Endpoint::Quote,
            url: "https://stock.xueqiu.com/v5/stock/quote.json?symbol=SZ000001".to_string()
        }
    );
    assert_eq!(get_company_data(symbol()).endpoint, Endpoint::Company);
    assert_eq!(get_top_holders(symbol()).endpoint, Endpoint::TopHolders);
    assert_eq!(get_holders_nums(symbol()).endpoint, Endpoint::Holders);
    assert_eq!(get_bonus(symbol()).endpoint, Endpoint::Bonus);
    assert_eq!(get_indicator(symbol()).endpoint, Endpoint::Indicator);
    assert_eq!(get_income(symbol()).endpoint, Endpoint::Income);
    assert_eq!(get_balance(symbol()).endpoint, Endpoint::Balance);
    assert_eq!(get_cash_flow(symbol()).endpoint, Endpoint::CashFlow);
    assert_eq!(get_minute_line(symbol()).endpoint, Endpoint::MinuteLine);
    assert_eq!(get_trade(symbol()).endpoint, Endpoint::Trade);
    assert_eq!(get_pankou(symbol()).endpoint, Endpoint::Pankou);
}

#[test]
fn each_service_addresses_its_own_document() {
    let symbol = || "SZ000001".to_string();
    assert_eq!(
        get_company_data(symbol()).url,
        "https://stock.xueqiu.com/v5/stock/f10/cn/company.json?symbol=SZ000001"
    );
    assert_eq!(
        get_top_holders(symbol()).url,
        "https://stock.xueqiu.com/v5/stock/f10/cn/top_holders.json?symbol=SZ000001"
    );
    assert_eq!(
        get_holders_nums(symbol()).url,
        "https://stock.xueqiu.com/v5/stock/f10/cn/holders.json?symbol=SZ000001&extend=true"
    );
    assert_eq!(
        get_bonus(symbol()).url,
        "https://stock.xueqiu.com/v5/stock/f10/cn/bonus.json?symbol=SZ000001"
    );
    assert_eq!(
        get_indicator(symbol()).url,
        "https://stock.xueqiu.com/v5/stock/finance/cn/indicator.json?symbol=SZ000001&type=all&is_detail=true&count=5"
    );
    assert_eq!(
        get_income(symbol()).url,
        "https://stock.xueqiu.com/v5/stock/finance/cn/income.json?symbol=SZ000001&type=all&is_detail=true&count=5"
    );
    assert_eq!(
        get_balance(symbol()).url,
        "https://stock.xueqiu.com/v5/stock/finance/cn/balance.json?symbol=SZ000001&type=all&is_detail=true&count=5"
    );
    assert_eq!(
        get_cash_flow(symbol()).url,
        "https://stock.xueqiu.com/v5/stock/finance/cn/cash_flow.json?symbol=SZ000001&type=all&is_detail=true&count=5"
    );
    assert_eq!(
        get_minute_line(symbol()).url,
        "https://stock.xueqiu.com/v5/stock/chart/minute.json?symbol=SZ000001&period=1d"
    );
    assert_eq!(
        get_trade(symbol()).url,
        "https://stock.xueqiu.com/v5/stock/history/trade.json?symbol=SZ000001&count=10"
    );
    assert_eq!(
        get_pankou(symbol()).url,
        "https://stock.xueqiu.com/v5/stock/realtime/pankou.json?symbol=SZ000001"
    );
}

#[test]
fn statuses_from_200_to_299_report_success() {
    assert!(is_success(200));
    assert!(is_success(204));
    assert!(is_success(299));
    assert!(!is_success(199));
    assert!(!is_success(300));
    assert!(!is_success(404));
    assert!(!is_success(503));
    assert!(!is_success(0));
}

#[test]
fn a_successful_response_gives_its_document() {
    let outcome = get_data_from_url(answered(200, "{\"data\":{\"quote\":{\"current\":10.5}}}"));
    assert_eq!(outcome, Ok(json("{\"data\":{\"quote\":{\"current\":10.5}}}")));
    assert_eq!(outcome.unwrap()["data"]["quote"]["current"], Value::from(10.5f64));
}

#[test]
fn an_unreachable_upstream_gives_a_request_error() {
    let outcome = get_data_from_url(Upstream::Unreachable("dns failure".to_string()));
    assert_eq!(outcome, Err(ApiError::ReqwestError("dns failure".to_string())));
}

#[test]
fn a_broken_off_body_gives_a_request_error() {
    let outcome =
        get_data_from_url(Upstream::Truncated { status: 200, detail: "reset".to_string() });
    assert_eq!(outcome, Err(ApiError::ReqwestError("reset".to_string())));
}

#[test]
fn an_unsuccessful_status_gives_a_service_error() {
    let outcome = get_data_from_url(answered(503, "{\"data\":1}"));
    assert_eq!(
        outcome,
        Err(ApiError::ServiceError("请求失败，状态码: 503 Service Unavailable".to_string()))
    );
    let outcome = get_data_from_url(answered(404, ""));
    assert_eq!(
        outcome,
        Err(ApiError::ServiceError("请求失败，状态码: 404 Not Found".to_string()))
    );
}

#[test]
fn an_unsuccessful_status_wins_over_a_broken_off_body() {
    let outcome =
        get_data_from_url(Upstream::Truncated { status: 500, detail: "reset".to_string() });
    assert_eq!(
        outcome,
        Err(ApiError::ServiceError("请求失败，状态码: 500 Internal Server Error".to_string()))
    );
}

#[test]
fn a_status_without_a_reason_is_displayed_as_unknown() {
    let outcome = get_data_from_url(answered(599, ""));
    assert_eq!(
        outcome,
        Err(ApiError::ServiceError("请求失败，状态码: 599 <unknown status code>".to_string()))
    );
}

#[test]
fn a_number_that_is_no_status_is_written_bare() {
    let outcome = get_data_from_url(answered(42, ""));
    assert_eq!(outcome, Err(ApiError::ServiceError("请求失败，状态码: 42".to_string())));
    let outcome = get_data_from_url(answered(1000, ""));
    assert_eq!(outcome, Err(ApiError::ServiceError("请求失败，状态码: 1000".to_string())));
    let outcome = get_data_from_url(answered(0, ""));
    assert_eq!(outcome, Err(ApiError::ServiceError("请求失败，状态码: 0".to_string())));
}

#[test]
fn a_body_that_is_no_json_gives_a_json_error() {
    let outcome = get_data_from_url(answered(200, "<html>busy</html>"));
    assert_eq!(outcome, Err(ApiError::JsonError("expected value at line 1 column 1".to_string())));
}

#[test]
fn extract_takes_the_payload_of_each_endpoint() {
    let document = || {
        json("{\"data\":{\"quote\":\"q\",\"company\":\"c\",\"items\":\"i\",\"list\":\"l\"}}")
    };
    let text = |word: &str| Ok(Value::String(word.to_string()));
    assert_eq!(extract(Endpoint::Quote, document()), text("q"));
    assert_eq!(extract(Endpoint::Company, document()), text("c"));
    assert_eq!(extract(Endpoint::TopHolders, document()), text("i"));
    assert_eq!(extract(Endpoint::Holders, document()), text("i"));
    assert_eq!(extract(Endpoint::Bonus, document()), text("i"));
    assert_eq!(extract(Endpoint::Indicator, document()), text("l"));
    assert_eq!(extract(Endpoint::Income, document()), text("l"));
    assert_eq!(extract(Endpoint::Balance, document()), text("l"));
    assert_eq!(extract(Endpoint::CashFlow, document()), text("l"));
    assert_eq!(extract(Endpoint::MinuteLine, document()), text("i"));
    assert_eq!(extract(Endpoint::Trade, document()), text("i"));
    assert_eq!(extract(Endpoint::Pankou, document()).ok(), document().get("data").cloned());
    assert_eq!(extract(Endpoint::KLine, document()).ok(), document().get("data").cloned());
}

#[test]
fn extract_reports_an_absent_payload_by_name() {
    let empty = || json("{\"data\":{}}");
    let missing = |detail: &str| Err(ApiError::NotFound(detail.to_string()));
    assert_eq!(extract(Endpoint::Quote, empty()), missing("quote data not found"));
    assert_eq!(extract(Endpoint::Company, empty()), missing("company data not found"));
    assert_eq!(extract(Endpoint::TopHolders, empty()), missing("top holders data not found"));
    assert_eq!(extract(Endpoint::Holders, empty()), missing("holders data not found"));
    assert_eq!(extract(Endpoint::Bonus, empty()), missing("bonus data not found"));
    assert_eq!(extract(Endpoint::Indicator, empty()), missing("indicator data not found"));
    assert_eq!(extract(Endpoint::Income, empty()), missing("income data not found"));
    assert_eq!(extract(Endpoint::Balance, empty()), missing("balance data not found"));
    assert_eq!(extract(Endpoint::CashFlow, empty()), missing("cash flow data not found"));
    assert_eq!(extract(Endpoint::MinuteLine, empty()), missing("minute line data not found"));
    assert_eq!(extract(Endpoint::Trade, empty()), missing("trade data not found"));
    assert_eq!(extract(Endpoint::Pankou, json("{}")), missing("pankou data not found"));
    assert_eq!(extract(Endpoint::KLine, Value::Null), missing("kline data not found"));
}

#[test]
fn complete_joins_both_steps() {
    let fetch = get_top_holders("SH600000".to_string());
    let outcome = fetch.complete(answered(200, "{\"data\":{\"items\":[true]}}"));
    assert_eq!(outcome, Ok(Value::Array(vec![Value::Bool(true)])));
    let outcome = fetch.complete(answered(200, "{\"data\":{}}"));
    assert_eq!(outcome, Err(ApiError::NotFound("top holders data not found".to_string())));
    let outcome = fetch.complete(answered(200, "{"));
    assert_eq!(
        outcome,
        Err(ApiError::JsonError("EOF while parsing an object at line 1 column 1".to_string()))
    );
    let outcome = fetch.complete(Upstream::Unreachable("timeout".to_string()));
    assert_eq!(outcome, Err(ApiError::ReqwestError("timeout".to_string())));
}

#[test]
fn a_k_line_plan_for_a_given_instant() {
    let planned = get_k_line_from("SH600000".to_string(), "week".to_string(), 1700000000123);
    assert_eq!(
        planned,
        Ok(Fetch {
            endpoint: Endpoint::KLine,
            url: "https://stock.xueqiu.com/v5/stock/chart/kline.json?symbol=SH600000&begin=1700000000123&period=week&type=before&count=-284&indicator=kline,pe,pb,ps,pcf,market_capital,agt,ggt,balance".to_string()
        })
    );
}

#[test]
fn a_k_line_plan_refuses_a_period_outside_the_allow_list() {
    let refusal = || Err(ApiError::NotFound("interval  data not found".to_string()));
    assert_eq!(get_k_line_from("SH600000".to_string(), "1h".to_string(), 5), refusal());
    assert_eq!(get_k_line_from("SH600000".to_string(), String::new(), 5), refusal());
    assert_eq!(get_k_line("SH600000".to_string(), "1h".to_string()), refusal());
    assert_eq!(get_k_line(String::new(), "DAY".to_string()), refusal());
}

#[test]
fn a_k_line_plan_begins_now() {
    let clock = || {
        std::time::SystemTime::now()
            .duration_since(std::time::UNIX_EPOCH)
            .unwrap()
            .as_millis()
    };
    let before = clock();
    let fetch = get_k_line("SH600000".to_string(), "day".to_string()).unwrap();
    let after = clock();
    assert_eq!(fetch.endpoint, Endpoint::KLine);
    let head = "https://stock.xueqiu.com/v5/stock/chart/kline.json?symbol=SH600000&begin=";
    let tail = "&period=day&type=before&count=-284&indicator=kline,pe,pb,ps,pcf,market_capital,agt,ggt,balance";
    assert!(fetch.url.starts_with(head));
    assert!(fetch.url.ends_with(tail));
    let begin: u128 = fetch.url[head.len()..fetch.url.len() - tail.len()].parse().unwrap();
    assert!(before <= begin && begin <= after);
}

#[test]
fn the_order_book_names_its_own_missing_payload() {
    let fetch = get_pankou("SH600000".to_string());
    let outcome = fetch.complete(answered(200, "{\"pankou\":{}}"));
    assert_eq!(outcome, Err(ApiError::NotFound("pankou data not found".to_string())));
}

#[test]
fn the_k_line_names_its_own_missing_payload() {
    for body in ["{}", "[]", "{\"error\":1}"] {
        let fetch = get_k_line_from("SH600000".to_string(), "day".to_string(), 1).unwrap();
        let outcome = fetch.complete(answered(200, body));
        assert_eq!(outcome, Err(ApiError::NotFound("kline data not found".to_string())));
    }
    let fetch = get_k_line("SH600000".to_string(), "week".to_string()).unwrap();
    let outcome = fetch.complete(answered(204, "{\"items\":[]}"));
    assert_eq!(outcome, Err(ApiError::NotFound("kline data not found".to_string())));
}

#[test]
fn the_tick_trades_keep_their_missing_payload_to_themselves() {
    let fetch = get_trade("SH600000".to_string());
    let outcome = fetch.complete(answered(200, "{\"data\":{}}"));
    assert_eq!(outcome, Err(ApiError::NotFound("trade data not found".to_string())));
}

#[test]
fn a_service_error_begins_with_the_status_in_decimal() {
    for status in [100u16, 199, 300, 404, 418, 503, 599, 999] {
        let detail = match get_data_from_url(answered(status, "")) {
            Err(ApiError::ServiceError(detail)) => detail,
            other => panic!("unexpected outcome: {:?}", other),
        };
        assert!(detail.starts_with(&format!("请求失败，状态码: {} ", status)));
        assert!(detail.len() > format!("请求失败，状态码: {} ", status).len());
    }
}
