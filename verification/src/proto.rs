//! The messages of the backend data service's protocol.
//!
//! These are the plain shapes of what travels to and from the backend; how
//! they are put on the wire is not this library's concern.

use crate::number::F64Bits;
use std::collections::HashMap;
use vstd::prelude::*;

verus! {

/// The length of the window over which a statistic is computed.
#[derive(Debug, Clone, Copy, PartialEq, Eq, Structural)]
pub enum Period {
    Year,
    SemiAnnual,
    Quarter,
    Month,
    Week,
    Day,
    Hour,
    Minute,
}

impl Period {
    /// The number that stands for the period in a message.
    pub open spec fn spec_code(self) -> int {
        match self {
            Period::Year => 0,
            Period::SemiAnnual => 1,
            Period::Quarter => 2,
            Period::Month => 3,
            Period::Week => 4,
            Period::Day => 5,
            Period::Hour => 6,
            Period::Minute => 7,
        }
    }

    /// The period that a code names; a code that names none stands for a
    /// month.
    pub open spec fn of_code(x: int) -> Period {
        if x == 0 {
            Period::Year
        } else if x == 1 {
            Period::SemiAnnual
        } else if x == 2 {
            Period::Quarter
        } else if x == 4 {
            Period::Week
        } else if x == 5 {
            Period::Day
        } else if x == 6 {
            Period::Hour
        } else if x == 7 {
            Period::Minute
        } else {
            Period::Month
        }
    }

    pub fn code(self) -> (c: i32)
        ensures
            c == self.spec_code(),
    {
        match self {
            Period::Year => 0,
            Period::SemiAnnual => 1,
            Period::Quarter => 2,
            Period::Month => 3,
            Period::Week => 4,
            Period::Day => 5,
            Period::Hour => 6,
            Period::Minute => 7,
        }
    }
}

impl Period {
    /// The period that a code names; a code that names none stands for a
    /// month.
    pub fn from(x: u32) -> (p: Period)
        ensures
            p == Period::of_code(x as int),
    {
        if x == 0 {
            Period::Year
        } else if x == 1 {
            Period::SemiAnnual
        } else if x == 2 {
            Period::Quarter
        } else if x == 4 {
            Period::Week
        } else if x == 5 {
            Period::Day
        } else if x == 6 {
            Period::Hour
        } else if x == 7 {
            Period::Minute
        } else {
            Period::Month
        }
    }
}

#[derive(Debug, PartialEq, Eq)]
pub struct TickerFilter {
    pub ticker_type: i32,
    pub filter: String,
    pub limit: u32,
    pub traded_within_past_n_days: u32,
}

#[derive(Debug, PartialEq, Eq)]
pub struct BasicTicker {
    pub ticker: String,
    pub security_type: i32,
}

#[derive(Debug, PartialEq, Eq)]
pub struct Ticker {
    pub ticker: String,
    pub name: String,
    pub security_type: i32,
    pub custom_fields: HashMap<String, String>,
}

#[derive(Debug, PartialEq, Eq)]
pub struct TimeSeriesReq {
    pub ticker: Option<BasicTicker>,
    pub from_date: String,
    pub until_date: String,
    pub intraday: bool,
}

#[derive(Debug, PartialEq, Eq)]
pub struct TimeSeriesData {
    pub date: String,
    pub values: HashMap<String, F64Bits>,
}

#[derive(Debug, PartialEq, Eq)]
pub struct MovementsReq {
    pub security_type: i32,
    pub sort_by: i32,
    pub until: String,
    pub period: i32,
    pub limit: u32,
    pub min_volume: u64,
    pub min_variance: F64Bits,
    pub max_variance: F64Bits,
}

#[derive(Debug, PartialEq, Eq)]
pub struct Movement {
    pub ticker: String,
    pub security_type: i32,
    pub performance: F64Bits,
    pub average: F64Bits,
    pub volume: F64Bits,
    pub variance: F64Bits,
    pub stddev: F64Bits,
    pub date: String,
    pub period: i32,
}

#[derive(Debug, PartialEq, Eq)]
pub struct Movements {
    pub movements: Vec<Movement>,
}

#[derive(Debug, PartialEq, Eq)]
pub struct StockSplitReq {
    pub from: String,
    pub until: String,
    pub limit: u32,
}

#[derive(Debug, PartialEq, Eq)]
pub struct StockSplit {
    pub ticker: String,
}

#[derive(Debug, PartialEq, Eq)]
pub struct StockSplits {
    pub splits: Vec<StockSplit>,
}

#[derive(Debug, PartialEq, Eq)]
pub struct CorrelTickersReq {
    pub until: String,
    pub period: i32,
    pub limit: u32,
    pub min_volume: u64,
    pub sign: i32,
}

#[derive(Debug, PartialEq, Eq)]
pub struct Correl {
    pub ticker0: Option<BasicTicker>,
    pub ticker1: Option<BasicTicker>,
    pub correl: F64Bits,
    pub date: String,
    pub period: i32,
    pub volume0: F64Bits,
    pub volume1: F64Bits,
}

#[derive(Debug, PartialEq, Eq)]
pub struct CorrelReq {
    pub tickers: Vec<BasicTicker>,
    pub until: String,
    pub period: i32,
}

#[derive(Debug, PartialEq, Eq)]
pub struct DetailedCorrel {
    pub ticker0: Option<Ticker>,
    pub ticker1: Option<Ticker>,
    pub date: String,
    pub period: i32,
    pub correl: F64Bits,
}

#[derive(Debug, PartialEq, Eq)]
pub struct MutualCorrel {
    pub ticker: Option<Ticker>,
    pub correlations: Vec<DetailedCorrel>,
    pub volatility: F64Bits,
    pub stddev: F64Bits,
    pub performance: F64Bits,
    pub volume: F64Bits,
}

#[derive(Debug, PartialEq, Eq)]
pub struct MutualCorrels {
    pub correls: Vec<MutualCorrel>,
}

#[derive(Debug, PartialEq, Eq)]
pub struct Id {
    pub id: String,
}

#[derive(Debug, PartialEq, Eq)]
pub struct PortfolioReq {
    pub filter: String,
}

#[derive(Debug, PartialEq, Eq)]
pub struct CreatePortfolioReq {
    pub name: String,
    pub description: String,
}

#[derive(Debug, PartialEq, Eq)]
pub struct PortfolioMeta {
    pub id: String,
    pub name: String,
    pub description: String,
}

#[derive(Debug, PartialEq, Eq)]
pub struct PortfolioMetas {
    pub portfolios: Vec<PortfolioMeta>,
}

#[derive(Debug, PartialEq, Eq)]
pub struct PortfolioSecurity {
    pub portfolio_id: String,
    pub security_type: i32,
    pub ticker: String,
    pub volume: F64Bits,
    pub purchase_date: String,
    pub sell_date: String,
}

#[derive(Debug, PartialEq, Eq)]
pub struct PortfolioSecurities {
    pub securities: Vec<PortfolioSecurity>,
}

/// One security lot of a profit request.
#[derive(Debug, PartialEq, Eq)]
pub struct ProfitSecurity {
    pub security_type: i32,
    pub ticker: String,
    pub volume: F64Bits,
    pub purchase_date: String,
    pub sell_date: Option<String>,
}

#[derive(Debug, PartialEq, Eq)]
pub struct SecurityProfitReq {
    pub until: String,
    pub partition: i32,
    pub securities: Vec<ProfitSecurity>,
}

#[derive(Debug, PartialEq, Eq)]
pub struct SecurityProfit {
    pub ticker: String,
    pub security_type: i32,
    pub purchase_date: String,
    pub until: String,
    pub purchase_price: F64Bits,
    pub profit_per_share: F64Bits,
    pub volume: F64Bits,
    pub total_profit: F64Bits,
}

#[derive(Debug, PartialEq, Eq)]
pub struct SecurityProfits {
    pub profits: Vec<SecurityProfit>,
}

} // verus!
