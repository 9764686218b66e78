//! The trading operations of the gateway: the REST-facing shapes, their
//! translation to and from the backend's messages, the streaming bridge and
//! the decisions of each operation.
//!
//! Each translation is a function `from` or `try_from` of the type that it
//! makes. Where the result is made of the input's parts alone, it is stated
//! as a spec function `spec_from`; where it holds a text made on the way (a
//! default, a message), the contract speaks of that text.

pub mod request;
pub mod response;
pub mod bridge;
pub mod stream_laws;
pub mod movements;
pub mod movement_laws;
pub mod facade;

pub use bridge::{ActixStreamItem, BridgeState, SourceEvent};
pub use facade::Trading;
pub use request::{
    BasicTicker, CorrelReq, CorrelatingTickersReq, MovementsReq, PortfolioSecurities,
    PortfolioSecurity, Security, SecurityProfitReq, TickerFilter, TimeSeriesReq,
};
pub use response::{
    success, CorrelatingTickers, DetailedCorrel, Movement, Movements, MutualCorrel, Portfolio,
    Portfolios, SecurityProfit, SecurityProfits, Success, Ticker, TimeSeriesData,
};
