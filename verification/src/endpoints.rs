//! The endpoints of the gateway: for each one its upstream address, the place
//! of its payload in the upstream document, and its route.

use vstd::prelude::*;
use vstd::string::StringExecFns;
use crate::text::{decimal, push_decimal, same_text};

verus! {

/// A logical endpoint of the gateway.
#[derive(Debug, Clone, Copy, PartialEq, Eq, Structural)]
pub enum Endpoint {
    Quote,
    Company,
    TopHolders,
    Holders,
    Bonus,
    Indicator,
    Income,
    Balance,
    CashFlow,
    MinuteLine,
    Trade,
    Pankou,
    KLine,
}

/// Whether a chart period is one of those that the K-line endpoint accepts.
pub open spec fn valid_period(period: Seq<char>) -> bool {
    ||| period == "day"@
    ||| period == "week"@
    ||| period == "month"@
    ||| period == "quarter"@
    ||| period == "year"@
    ||| period == "120m"@
    ||| period == "60m"@
    ||| period == "30m"@
    ||| period == "15m"@
    ||| period == "5m"@
    ||| period == "1m"@
}

/// Whether a chart period is one of those that the K-line endpoint accepts.
pub fn is_valid_period(period: &str) -> (valid: bool)
    ensures
        valid == valid_period(period@),
{
    same_text(period, "day") || same_text(period, "week") || same_text(period, "month")
        || same_text(period, "quarter") || same_text(period, "year") || same_text(
        period,
        "120m",
    ) || same_text(period, "60m") || same_text(period, "30m") || same_text(period, "15m")
        || same_text(period, "5m") || same_text(period, "1m")
}

impl Endpoint {
    /// The upstream address up to the place of the symbol.
    pub open spec fn head(self) -> Seq<char> {
        match self {
            Endpoint::Quote => "https://stock.xueqiu.com/v5/stock/quote.json?symbol="@,
            Endpoint::Company => "https://stock.xueqiu.com/v5/stock/f10/cn/company.json?symbol="@,
            Endpoint::TopHolders =>
                "https://stock.xueqiu.com/v5/stock/f10/cn/top_holders.json?symbol="@,
            Endpoint::Holders => "https://stock.xueqiu.com/v5/stock/f10/cn/holders.json?symbol="@,
            Endpoint::Bonus => "https://stock.xueqiu.com/v5/stock/f10/cn/bonus.json?symbol="@,
            Endpoint::Indicator =>
                "https://stock.xueqiu.com/v5/stock/finance/cn/indicator.json?symbol="@,
            Endpoint::Income => "https://stock.xueqiu.com/v5/stock/finance/cn/income.json?symbol="@,
            Endpoint::Balance =>
                "https://stock.xueqiu.com/v5/stock/finance/cn/balance.json?symbol="@,
            Endpoint::CashFlow =>
                "https://stock.xueqiu.com/v5/stock/finance/cn/cash_flow.json?symbol="@,
            Endpoint::MinuteLine => "https://stock.xueqiu.com/v5/stock/chart/minute.json?symbol="@,
            Endpoint::Trade => "https://stock.xueqiu.com/v5/stock/history/trade.json?symbol="@,
            Endpoint::Pankou => "https://stock.xueqiu.com/v5/stock/realtime/pankou.json?symbol="@,
            Endpoint::KLine => "https://stock.xueqiu.com/v5/stock/chart/kline.json?symbol="@,
        }
    }

    /// The fixed query parameters that close the upstream address.
    pub open spec fn tail(self) -> Seq<char> {
        match self {
            Endpoint::Holders => "&extend=true"@,
            Endpoint::Indicator | Endpoint::Income | Endpoint::Balance | Endpoint::CashFlow =>
                "&type=all&is_detail=true&count=5"@,
            Endpoint::MinuteLine => "&period=1d"@,
            Endpoint::Trade => "&count=10"@,
            Endpoint::KLine =>
                "&type=before&count=-284&indicator=kline,pe,pb,ps,pcf,market_capital,agt,ggt,balance"@,
            _ => ""@,
        }
    }

    /// The upstream address of an endpoint that is addressed by the symbol
    /// alone.
    pub open spec fn url(self, symbol: Seq<char>) -> Seq<char> {
        self.head() + symbol + self.tail()
    }

    /// The key under `data` that holds the payload; `None` where the payload is
    /// all of `data`.
    pub open spec fn leaf(self) -> Option<Seq<char>> {
        match self {
            Endpoint::Quote => Some("quote"@),
            Endpoint::Company => Some("company"@),
            Endpoint::TopHolders | Endpoint::Holders | Endpoint::Bonus | Endpoint::MinuteLine
            | Endpoint::Trade => Some("items"@),
            Endpoint::Indicator | Endpoint::Income | Endpoint::Balance | Endpoint::CashFlow => Some(
                "list"@,
            ),
            Endpoint::Pankou | Endpoint::KLine => None,
        }
    }

    /// The key path of the payload in the upstream document.
    pub open spec fn pointer(self) -> Seq<Seq<char>> {
        match self.leaf() {
            Some(key) => seq!["data"@, key],
            None => seq!["data"@],
        }
    }

    /// The detail of the error that reports an absent payload: each endpoint
    /// names its own.
    pub open spec fn missing(self) -> Seq<char> {
        match self {
            Endpoint::Quote => "quote data not found"@,
            Endpoint::Company => "company data not found"@,
            Endpoint::TopHolders => "top holders data not found"@,
            Endpoint::Holders => "holders data not found"@,
            Endpoint::Bonus => "bonus data not found"@,
            Endpoint::Indicator => "indicator data not found"@,
            Endpoint::Income => "income data not found"@,
            Endpoint::Balance => "balance data not found"@,
            Endpoint::CashFlow => "cash flow data not found"@,
            Endpoint::MinuteLine => "minute line data not found"@,
            Endpoint::Trade => "trade data not found"@,
            Endpoint::Pankou => "pankou data not found"@,
            Endpoint::KLine => "kline data not found"@,
        }
    }

    /// The first segment of the endpoint's route below the API prefix.
    pub open spec fn route(self) -> Seq<char> {
        match self {
            Endpoint::Quote => "stock"@,
            Endpoint::Company => "company"@,
            Endpoint::TopHolders => "top_holders"@,
            Endpoint::Holders => "holders"@,
            Endpoint::Bonus => "bonus"@,
            Endpoint::Indicator => "indicator"@,
            Endpoint::Income => "income"@,
            Endpoint::Balance => "balance"@,
            Endpoint::CashFlow => "cash_flow"@,
            Endpoint::MinuteLine => "minute"@,
            Endpoint::Trade => "trade"@,
            Endpoint::Pankou => "pankou"@,
            Endpoint::KLine => "kline"@,
        }
    }

    /// The upstream address up to the place of the symbol.
    pub fn head_text(self) -> (text: &'static str)
        ensures
            text@ == self.head(),
    {
        match self {
            Endpoint::Quote => "https://stock.xueqiu.com/v5/stock/quote.json?symbol=",
            Endpoint::Company => "https://stock.xueqiu.com/v5/stock/f10/cn/company.json?symbol=",
            Endpoint::TopHolders =>
                "https://stock.xueqiu.com/v5/stock/f10/cn/top_holders.json?symbol=",
            Endpoint::Holders => "https://stock.xueqiu.com/v5/stock/f10/cn/holders.json?symbol=",
            Endpoint::Bonus => "https://stock.xueqiu.com/v5/stock/f10/cn/bonus.json?symbol=",
            Endpoint::Indicator =>
                "https://stock.xueqiu.com/v5/stock/finance/cn/indicator.json?symbol=",
            Endpoint::Income => "https://stock.xueqiu.com/v5/stock/finance/cn/income.json?symbol=",
            Endpoint::Balance =>
                "https://stock.xueqiu.com/v5/stock/finance/cn/balance.json?symbol=",
            Endpoint::CashFlow =>
                "https://stock.xueqiu.com/v5/stock/finance/cn/cash_flow.json?symbol=",
            Endpoint::MinuteLine => "https://stock.xueqiu.com/v5/stock/chart/minute.json?symbol=",
            Endpoint::Trade => "https://stock.xueqiu.com/v5/stock/history/trade.json?symbol=",
            Endpoint::Pankou => "https://stock.xueqiu.com/v5/stock/realtime/pankou.json?symbol=",
            Endpoint::KLine => "https://stock.xueqiu.com/v5/stock/chart/kline.json?symbol=",
        }
    }

    /// The fixed query parameters that close the upstream address.
    pub fn tail_text(self) -> (text: &'static str)
        ensures
            text@ == self.tail(),
    {
        match self {
            Endpoint::Holders => "&extend=true",
            Endpoint::Indicator | Endpoint::Income | Endpoint::Balance | Endpoint::CashFlow =>
                "&type=all&is_detail=true&count=5",
            Endpoint::MinuteLine => "&period=1d",
            Endpoint::Trade => "&count=10",
            Endpoint::KLine =>
                "&type=before&count=-284&indicator=kline,pe,pb,ps,pcf,market_capital,agt,ggt,balance",
            _ => "",
        }
    }

    /// Builds the upstream address for a symbol.
    pub fn build_url(self, symbol: &str) -> (url: String)
        ensures
            url@ == self.url(symbol@),
    {
        let mut url = String::from_str(self.head_text());
        url.append(symbol);
        url.append(self.tail_text());
        url
    }

    /// The key path of the payload in the upstream document.
    pub fn pointer_keys(self) -> (keys: Vec<&'static str>)
        ensures
            keys@.map_values(|key: &str| key@) == self.pointer(),
    {
        let mut keys: Vec<&'static str> = Vec::new();
        keys.push("data");
        match self {
            Endpoint::Quote => {
                keys.push("quote");
            },
            Endpoint::Company => {
                keys.push("company");
            },
            Endpoint::TopHolders | Endpoint::Holders | Endpoint::Bonus | Endpoint::MinuteLine
            | Endpoint::Trade => {
                keys.push("items");
            },
            Endpoint::Indicator | Endpoint::Income | Endpoint::Balance | Endpoint::CashFlow => {
                keys.push("list");
            },
            Endpoint::Pankou | Endpoint::KLine => {},
        }
        proof {
            assert(keys@.map_values(|key: &str| key@) =~= self.pointer());
        }
        keys
    }

    /// The detail of the error that reports an absent payload.
    pub fn missing_text(self) -> (text: &'static str)
        ensures
            text@ == self.missing(),
    {
        match self {
            Endpoint::Quote => "quote data not found",
            Endpoint::Company => "company data not found",
            Endpoint::TopHolders => "top holders data not found",
            Endpoint::Holders => "holders data not found",
            Endpoint::Bonus => "bonus data not found",
            Endpoint::Indicator => "indicator data not found",
            Endpoint::Income => "income data not found",
            Endpoint::Balance => "balance data not found",
            Endpoint::CashFlow => "cash flow data not found",
            Endpoint::MinuteLine => "minute line data not found",
            Endpoint::Trade => "trade data not found",
            Endpoint::Pankou => "pankou data not found",
            Endpoint::KLine => "kline data not found",
        }
    }

    /// The first segment of the endpoint's route below the API prefix.
    pub fn route_text(self) -> (text: &'static str)
        ensures
            text@ == self.route(),
    {
        match self {
            Endpoint::Quote => "stock",
            Endpoint::Company => "company",
            Endpoint::TopHolders => "top_holders",
            Endpoint::Holders => "holders",
            Endpoint::Bonus => "bonus",
            Endpoint::Indicator => "indicator",
            Endpoint::Income => "income",
            Endpoint::Balance => "balance",
            Endpoint::CashFlow => "cash_flow",
            Endpoint::MinuteLine => "minute",
            Endpoint::Trade => "trade",
            Endpoint::Pankou => "pankou",
            Endpoint::KLine => "kline",
        }
    }
}

/// The upstream address of a K-line chart: the symbol, the instant from which
/// the chart runs backwards, in milliseconds, and the period.
pub open spec fn k_line_url(symbol: Seq<char>, begin: int, period: Seq<char>) -> Seq<char> {
    Endpoint::KLine.head() + symbol + "&begin="@ + decimal(begin) + "&period="@ + period
        + Endpoint::KLine.tail()
}

/// Builds the upstream address of a K-line chart.
pub fn build_k_line_url(symbol: &str, begin: i64, period: &str) -> (url: String)
    ensures
        url@ == k_line_url(symbol@, begin as int, period@),
{
    let mut url = String::from_str(Endpoint::KLine.head_text());
    url.append(symbol);
    url.append("&begin=");
    push_decimal(&mut url, begin);
    url.append("&period=");
    url.append(period);
    url.append(Endpoint::KLine.tail_text());
    url
}

} // verus!
