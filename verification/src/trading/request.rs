//! The requests of the REST surface and the backend messages made of them.

use crate::number::F64Bits;
use crate::proto;
use vstd::prelude::*;

verus! {

/// The result limit of a ticker query that names none.
pub const DEFAULT_TICKER_LIMIT: u32 = 100;

/// The window, in days, of a ticker query that names none.
pub const DEFAULT_TRADED_WITHIN_DAYS: u32 = 10;

/// The text of an optional field: empty where the field is absent.
pub open spec fn text_or_empty(field: Option<String>) -> Seq<char> {
    match field {
        Some(text) => text@,
        None => Seq::empty(),
    }
}

/// An absent text field becomes the empty text.
fn unwrap_or_empty(field: Option<String>) -> (text: String)
    ensures
        text@ == text_or_empty(field),
{
    match field {
        Some(text) => text,
        None => String::new(),
    }
}

/// Translates every item of a list with `translate`; the order stays.
pub fn translate_all<A, B, F: Fn(A) -> B>(items: Vec<A>, translate: F) -> (r: Vec<B>)
    requires
        forall|a: A| call_requires(translate, (a,)),
    ensures
        r.len() == items.len(),
        forall|i: int|
            0 <= i < items.len() ==> call_ensures(translate, (items[i],), #[trigger] r[i]),
{
    let mut out: Vec<B> = Vec::new();
    let ghost given = items@;
    for item in it: items
        invariant
            forall|a: A| call_requires(translate, (a,)),
            it.seq() == given,
            out.len() == it.index(),
            forall|i: int|
                0 <= i < it.index() ==> call_ensures(translate, (given[i],), #[trigger] out[i]),
    {
        out.push(translate(item));
    }
    out
}

/// Which tickers to list.
#[derive(Debug, PartialEq, Eq)]
pub struct TickerFilter {
    pub ttype: i32,
    pub filter: Option<String>,
    pub limit: Option<u32>,
    pub traded_within_past_n_days: Option<u32>,
}

impl proto::TickerFilter {
    /// The backend's ticker query: absent fields take their defaults.
    pub fn from(t: TickerFilter) -> (m: proto::TickerFilter)
        ensures
            m.ticker_type == t.ttype,
            m.filter@ == text_or_empty(t.filter),
            m.limit == match t.limit {
                Some(limit) => limit,
                None => DEFAULT_TICKER_LIMIT,
            },
            m.traded_within_past_n_days == match t.traded_within_past_n_days {
                Some(days) => days,
                None => DEFAULT_TRADED_WITHIN_DAYS,
            },
    {
        proto::TickerFilter {
            ticker_type: t.ttype,
            filter: unwrap_or_empty(t.filter),
            limit: match t.limit {
                Some(limit) => limit,
                None => DEFAULT_TICKER_LIMIT,
            },
            traded_within_past_n_days: match t.traded_within_past_n_days {
                Some(days) => days,
                None => DEFAULT_TRADED_WITHIN_DAYS,
            },
        }
    }
}

/// Which movements to list, and whether to leave out tickers with a stock
/// split in the lookback window.
#[derive(Debug, PartialEq, Eq)]
pub struct MovementsReq {
    pub security_type: u32,
    pub sort_by: u32,
    pub until: String,
    pub period: u32,
    pub limit: u32,
    pub min_volume: u64,
    pub min_variance: F64Bits,
    pub max_variance: F64Bits,
    pub without_stock_splits: Option<bool>,
}

impl proto::MovementsReq {
    /// The backend's query for `m`. The three codes keep their bits as they
    /// pass from unsigned to signed.
    pub open spec fn spec_from(m: MovementsReq) -> proto::MovementsReq {
        proto::MovementsReq {
            security_type: m.security_type as i32,
            sort_by: m.sort_by as i32,
            until: m.until,
            period: m.period as i32,
            limit: m.limit,
            min_volume: m.min_volume,
            min_variance: m.min_variance,
            max_variance: m.max_variance,
        }
    }

    pub fn from(m: MovementsReq) -> (r: proto::MovementsReq)
        ensures
            r == proto::MovementsReq::spec_from(m),
    {
        proto::MovementsReq {
            security_type: #[verifier::truncate]
            (m.security_type as i32),
            sort_by: #[verifier::truncate]
            (m.sort_by as i32),
            until: m.until,
            period: #[verifier::truncate]
            (m.period as i32),
            limit: m.limit,
            min_volume: m.min_volume,
            min_variance: m.min_variance,
            max_variance: m.max_variance,
        }
    }
}

/// Which pairs of correlating tickers to list.
#[derive(Debug, PartialEq, Eq)]
pub struct CorrelatingTickersReq {
    pub until: String,
    pub period: u32,
    pub limit: u32,
    pub min_volume: Option<u64>,
    pub sign: Option<u32>,
}

impl proto::CorrelTickersReq {
    /// The backend's query for `c`: an absent minimum volume and an absent
    /// sign are zero.
    pub open spec fn spec_from(c: CorrelatingTickersReq) -> proto::CorrelTickersReq {
        proto::CorrelTickersReq {
            until: c.until,
            period: c.period as i32,
            limit: c.limit,
            min_volume: match c.min_volume {
                Some(volume) => volume,
                None => 0,
            },
            sign: match c.sign {
                Some(sign) => sign as i32,
                None => 0,
            },
        }
    }

    pub fn from(c: CorrelatingTickersReq) -> (r: proto::CorrelTickersReq)
        ensures
            r == proto::CorrelTickersReq::spec_from(c),
    {
        proto::CorrelTickersReq {
            until: c.until,
            period: #[verifier::truncate]
            (c.period as i32),
            limit: c.limit,
            min_volume: match c.min_volume {
                Some(volume) => volume,
                None => 0,
            },
            sign: match c.sign {
                Some(sign) => #[verifier::truncate]
                (sign as i32),
                None => 0,
            },
        }
    }
}

/// A ticker by its symbol and security type.
#[derive(Debug, PartialEq, Eq)]
pub struct BasicTicker {
    pub ticker: String,
    pub security_type: i32,
}

impl proto::BasicTicker {
    /// The backend's form of `t`.
    pub open spec fn spec_from(t: BasicTicker) -> proto::BasicTicker {
        proto::BasicTicker { ticker: t.ticker, security_type: t.security_type }
    }

    pub fn from(t: BasicTicker) -> (r: proto::BasicTicker)
        ensures
            r == proto::BasicTicker::spec_from(t),
    {
        proto::BasicTicker { ticker: t.ticker, security_type: t.security_type }
    }
}

impl Clone for BasicTicker {
    fn clone(&self) -> (r: BasicTicker)
        ensures
            r == *self,
    {
        BasicTicker { ticker: self.ticker.clone(), security_type: self.security_type }
    }
}

/// The time series of one ticker between two dates.
#[derive(Debug, PartialEq, Eq)]
pub struct TimeSeriesReq {
    pub ticker: BasicTicker,
    pub from: String,
    pub until: String,
}

impl proto::TimeSeriesReq {
    /// The backend's query for `t`; it always asks for intraday data.
    pub open spec fn spec_from(t: TimeSeriesReq) -> proto::TimeSeriesReq {
        proto::TimeSeriesReq {
            ticker: Some(proto::BasicTicker::spec_from(t.ticker)),
            from_date: t.from,
            until_date: t.until,
            intraday: true,
        }
    }

    pub fn from(t: TimeSeriesReq) -> (r: proto::TimeSeriesReq)
        ensures
            r == proto::TimeSeriesReq::spec_from(t),
    {
        proto::TimeSeriesReq {
            ticker: Some(proto::BasicTicker::from(t.ticker)),
            from_date: t.from,
            until_date: t.until,
            intraday: true,
        }
    }
}

/// Which tickers to correlate with each other.
#[derive(Debug, PartialEq, Eq)]
pub struct CorrelReq {
    pub tickers: Vec<BasicTicker>,
    pub until: Option<String>,
    pub period: i32,
}

impl proto::CorrelReq {
    /// The backend's query: every ticker in its place, an absent `until` empty.
    pub fn from(c: CorrelReq) -> (r: proto::CorrelReq)
        ensures
            r.tickers@ == c.tickers@.map_values(|t: BasicTicker| proto::BasicTicker::spec_from(t)),
            r.until@ == text_or_empty(c.until),
            r.period == c.period,
    {
        let tickers = translate_all(c.tickers, proto::BasicTicker::from);
        assert(tickers@ =~= c.tickers@.map_values(
            |t: BasicTicker| proto::BasicTicker::spec_from(t),
        ));
        proto::CorrelReq { tickers, until: unwrap_or_empty(c.until), period: c.period }
    }
}

/// The security lots of one answer, in the backend's order.
pub type PortfolioSecurities = Vec<PortfolioSecurity>;

/// A security lot of a portfolio.
#[derive(Debug, PartialEq, Eq)]
pub struct PortfolioSecurity {
    pub portfolio_id: String,
    pub security_type: i32,
    pub ticker: String,
    pub volume: F64Bits,
    pub purchase_date: String,
    pub sell_date: String,
}

impl PortfolioSecurity {
    /// The lot that the backend's lot `p` stands for.
    pub open spec fn spec_from(p: proto::PortfolioSecurity) -> PortfolioSecurity {
        PortfolioSecurity {
            portfolio_id: p.portfolio_id,
            security_type: p.security_type,
            ticker: p.ticker,
            volume: p.volume,
            purchase_date: p.purchase_date,
            sell_date: p.sell_date,
        }
    }

    pub fn from(p: proto::PortfolioSecurity) -> (r: PortfolioSecurity)
        ensures
            r == PortfolioSecurity::spec_from(p),
    {
        PortfolioSecurity {
            portfolio_id: p.portfolio_id,
            security_type: p.security_type,
            ticker: p.ticker,
            volume: p.volume,
            purchase_date: p.purchase_date,
            sell_date: p.sell_date,
        }
    }
}

impl proto::PortfolioSecurity {
    /// The backend's form of the lot `p`.
    pub open spec fn spec_from(p: PortfolioSecurity) -> proto::PortfolioSecurity {
        proto::PortfolioSecurity {
            portfolio_id: p.portfolio_id,
            security_type: p.security_type,
            ticker: p.ticker,
            volume: p.volume,
            purchase_date: p.purchase_date,
            sell_date: p.sell_date,
        }
    }

    pub fn from(p: PortfolioSecurity) -> (r: proto::PortfolioSecurity)
        ensures
            r == proto::PortfolioSecurity::spec_from(p),
    {
        proto::PortfolioSecurity {
            portfolio_id: p.portfolio_id,
            security_type: p.security_type,
            ticker: p.ticker,
            volume: p.volume,
            purchase_date: p.purchase_date,
            sell_date: p.sell_date,
        }
    }
}

/// A security lot of a profit request.
#[derive(Debug, PartialEq, Eq)]
pub struct Security {
    pub security_type: i32,
    pub ticker: String,
    pub volume: F64Bits,
    pub purchase_date: Option<String>,
    pub sell_date: Option<String>,
}

/// For which lots to compute the profit, and until when.
#[derive(Debug, PartialEq, Eq)]
pub struct SecurityProfitReq {
    pub util: String,
    pub parition: i32,
    pub securities: Vec<Security>,
}

/// Whether `lot` is the backend's form of `s`: the same lot, an absent
/// purchase date empty.
pub open spec fn is_backend_lot(s: Security, lot: proto::ProfitSecurity) -> bool {
    &&& lot.security_type == s.security_type
    &&& lot.ticker == s.ticker
    &&& lot.volume == s.volume
    &&& lot.purchase_date@ == text_or_empty(s.purchase_date)
    &&& lot.sell_date == s.sell_date
}

impl proto::ProfitSecurity {
    pub fn from(s: Security) -> (lot: proto::ProfitSecurity)
        ensures
            is_backend_lot(s, lot),
    {
        proto::ProfitSecurity {
            security_type: s.security_type,
            ticker: s.ticker,
            volume: s.volume,
            purchase_date: unwrap_or_empty(s.purchase_date),
            sell_date: s.sell_date,
        }
    }
}

impl proto::SecurityProfitReq {
    /// The backend's query: every lot in its place.
    pub fn from(req: SecurityProfitReq) -> (r: proto::SecurityProfitReq)
        ensures
            r.until == req.util,
            r.partition == req.parition,
            r.securities.len() == req.securities.len(),
            forall|i: int|
                0 <= i < req.securities.len() ==> is_backend_lot(
                    req.securities[i],
                    #[trigger] r.securities[i],
                ),
    {
        let securities = translate_all(req.securities, proto::ProfitSecurity::from);
        proto::SecurityProfitReq { until: req.util, partition: req.parition, securities }
    }
}

} // verus!
