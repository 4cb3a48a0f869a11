//! A gateway core for a stock-data provider: it plans the upstream call for
//! each endpoint, interprets what came back, and shapes the HTTP answer.
//! All network traffic is left to the caller.

pub mod endpoints;
pub mod errors;
pub mod handlers;
pub mod headers;
pub mod json;
pub mod laws;
pub mod stock_service;
pub mod text;
