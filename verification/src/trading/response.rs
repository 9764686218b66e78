//! The responses of the REST surface, made of the backend's messages.

use crate::error::StreamError;
use crate::number::F64Bits;
use crate::proto;
use std::collections::HashMap;
use vstd::prelude::*;

verus! {

/// A ticker as the REST surface shows it. The custom fields are written into
/// the ticker's own JSON object, not under a key of their own.
#[derive(Debug, PartialEq, Eq)]
pub struct Ticker {
    pub ticker: String,
    pub name: Option<String>,
    pub security_type: i32,
    pub custom_fields: Option<HashMap<String, String>>,
}

impl Ticker {
    /// A ticker known by symbol and security type alone.
    pub open spec fn spec_bare(ticker: String, security_type: i32) -> Ticker {
        Ticker { ticker, name: None, security_type, custom_fields: None }
    }

    pub fn bare(ticker: String, security_type: i32) -> (t: Ticker)
        ensures
            t == Ticker::spec_bare(ticker, security_type),
    {
        Ticker { ticker, name: None, security_type, custom_fields: None }
    }

    /// The ticker that the backend's ticker `t` stands for.
    pub open spec fn spec_from(t: proto::Ticker) -> Ticker {
        Ticker {
            ticker: t.ticker,
            name: Some(t.name),
            security_type: t.security_type,
            custom_fields: Some(t.custom_fields),
        }
    }

    pub fn from(t: proto::Ticker) -> (r: Ticker)
        ensures
            r == Ticker::spec_from(t),
    {
        Ticker {
            ticker: t.ticker,
            name: Some(t.name),
            security_type: t.security_type,
            custom_fields: Some(t.custom_fields),
        }
    }
}

impl Clone for Ticker {
    /// A copy with the same symbol, name and security type, whose custom
    /// fields hold the same entries.
    fn clone(&self) -> (r: Ticker)
        ensures
            r.ticker == self.ticker,
            r.name == self.name,
            r.security_type == self.security_type,
            match (self.custom_fields, r.custom_fields) {
                (Some(a), Some(b)) => a@ == b@,
                (None, None) => true,
                _ => false,
            },
    {
        Ticker {
            ticker: self.ticker.clone(),
            name: match &self.name {
                Some(name) => Some(name.clone()),
                None => None,
            },
            security_type: self.security_type,
            custom_fields: match &self.custom_fields {
                Some(fields) => Some(fields.clone()),
                None => None,
            },
        }
    }
}

/// The values of one ticker at one date.
#[derive(Debug, PartialEq, Eq)]
pub struct TimeSeriesData {
    pub date: String,
    pub values: HashMap<String, F64Bits>,
}

impl TimeSeriesData {
    /// The values that the backend's values `s` stand for.
    pub open spec fn spec_from(s: proto::TimeSeriesData) -> TimeSeriesData {
        TimeSeriesData { date: s.date, values: s.values }
    }

    pub fn from(s: proto::TimeSeriesData) -> (r: TimeSeriesData)
        ensures
            r == TimeSeriesData::spec_from(s),
    {
        TimeSeriesData { date: s.date, values: s.values }
    }
}

/// How one ticker moved over a period.
#[derive(Debug, PartialEq, Eq)]
pub struct Movement {
    pub ticker: Ticker,
    pub performance: F64Bits,
    pub average: F64Bits,
    pub volume: F64Bits,
    pub variance: F64Bits,
    pub stddev: F64Bits,
    pub date: String,
    pub period: i32,
}

impl Movement {
    /// The movement that the backend's movement `m` stands for: its ticker is
    /// known by symbol and security type alone.
    pub open spec fn spec_from(m: proto::Movement) -> Movement {
        Movement {
            ticker: Ticker::spec_bare(m.ticker, m.security_type),
            performance: m.performance,
            average: m.average,
            volume: m.volume,
            variance: m.variance,
            stddev: m.stddev,
            date: m.date,
            period: m.period,
        }
    }

    pub fn from(m: proto::Movement) -> (r: Movement)
        ensures
            r == Movement::spec_from(m),
    {
        Movement {
            ticker: Ticker::bare(m.ticker, m.security_type),
            performance: m.performance,
            average: m.average,
            volume: m.volume,
            variance: m.variance,
            stddev: m.stddev,
            date: m.date,
            period: m.period,
        }
    }
}

/// The movements of one answer, in the backend's order.
pub type Movements = Vec<Movement>;

/// The correlation of two tickers at one date.
#[derive(Debug, PartialEq, Eq)]
pub struct DetailedCorrel {
    pub ticker0: Ticker,
    pub ticker1: Ticker,
    pub date: String,
    pub period: i32,
    pub correlation: F64Bits,
}

impl DetailedCorrel {
    /// Whether the backend's entry names both of its tickers.
    pub open spec fn complete(c: proto::DetailedCorrel) -> bool {
        c.ticker0 is Some && c.ticker1 is Some
    }

    /// The entry that a complete entry of the backend stands for.
    pub open spec fn of(c: proto::DetailedCorrel) -> DetailedCorrel
        recommends
            DetailedCorrel::complete(c),
    {
        DetailedCorrel {
            ticker0: Ticker::spec_from(c.ticker0->0),
            ticker1: Ticker::spec_from(c.ticker1->0),
            date: c.date,
            period: c.period,
            correlation: c.correl,
        }
    }

    /// Translates an entry of the backend. An entry that lacks a ticker is
    /// refused.
    pub fn try_from(c: proto::DetailedCorrel) -> (r: Result<DetailedCorrel, StreamError>)
        ensures
            r is Ok <==> DetailedCorrel::complete(c),
            r matches Ok(d) ==> d == DetailedCorrel::of(c),
            r matches Err(e) ==> e@ == "DetailedCorrel - invalid ticker"@,
    {
        match (c.ticker0, c.ticker1) {
            (Some(ticker0), Some(ticker1)) => Ok(
                DetailedCorrel {
                    ticker0: Ticker::from(ticker0),
                    ticker1: Ticker::from(ticker1),
                    date: c.date,
                    period: c.period,
                    correlation: c.correl,
                },
            ),
            _ => Err(StreamError::new("DetailedCorrel - invalid ticker")),
        }
    }
}

/// The entries that a list of complete entries of the backend stands for.
pub open spec fn detailed_correls(entries: Seq<proto::DetailedCorrel>) -> Seq<DetailedCorrel> {
    Seq::new(entries.len(), |i: int| DetailedCorrel::of(entries[i]))
}

/// One ticker's correlations with others, and its own statistics.
#[derive(Debug, PartialEq, Eq)]
pub struct MutualCorrel {
    pub ticker: Ticker,
    pub correlations: Vec<DetailedCorrel>,
    pub volatility: F64Bits,
    pub stddev: F64Bits,
    pub performance: F64Bits,
    pub volume: F64Bits,
}

impl MutualCorrel {
    /// Whether the backend's bundle names its ticker and every entry of it
    /// names both of its tickers.
    pub open spec fn complete(c: proto::MutualCorrel) -> bool {
        &&& c.ticker is Some
        &&& forall|i: int|
            0 <= i < c.correlations.len() ==> DetailedCorrel::complete(#[trigger] c.correlations[i])
    }

    /// Whether `m` is what the complete bundle `c` of the backend stands for.
    pub open spec fn stands_for(m: MutualCorrel, c: proto::MutualCorrel) -> bool
        recommends
            MutualCorrel::complete(c),
    {
        &&& m.ticker == Ticker::spec_from(c.ticker->0)
        &&& m.correlations@ == detailed_correls(c.correlations@)
        &&& m.volatility == c.volatility
        &&& m.stddev == c.stddev
        &&& m.performance == c.performance
        &&& m.volume == c.volume
    }

    /// The message with which an incomplete bundle is refused.
    pub open spec fn refusal(c: proto::MutualCorrel) -> Seq<char>
        recommends
            !MutualCorrel::complete(c),
    {
        if c.ticker is None {
            "MutualCorrel - invalid ticker"@
        } else {
            "DetailedCorrel - invalid ticker"@
        }
    }

    /// Translates a bundle of the backend. A bundle that lacks its ticker, or
    /// holds an entry that lacks one, is refused as a whole.
    pub fn try_from(c: proto::MutualCorrel) -> (r: Result<MutualCorrel, StreamError>)
        ensures
            r is Ok <==> MutualCorrel::complete(c),
            r matches Ok(m) ==> MutualCorrel::stands_for(m, c),
            r matches Err(e) ==> e@ == MutualCorrel::refusal(c),
    {
        let ticker = match c.ticker {
            Some(ticker) => Ticker::from(ticker),
            None => {
                return Err(StreamError::new("MutualCorrel - invalid ticker"));
            },
        };
        let mut correlations: Vec<DetailedCorrel> = Vec::new();
        let ghost given = c.correlations@;
        for entry in it: c.correlations
            invariant
                c.ticker is Some,
                it.seq() == given,
                forall|i: int| 0 <= i < it.index() ==> DetailedCorrel::complete(#[trigger] given[i]),
                correlations@ == detailed_correls(given.take(it.index() as int)),
        {
            match DetailedCorrel::try_from(entry) {
                Ok(d) => {
                    correlations.push(d);
                    assert(correlations@ =~= detailed_correls(given.take(it.index() + 1)));
                },
                Err(e) => {
                    return Err(e);
                },
            }
        }
        assert(given.take(given.len() as int) =~= given);
        Ok(
            MutualCorrel {
                ticker,
                correlations,
                volatility: c.volatility,
                stddev: c.stddev,
                performance: c.performance,
                volume: c.volume,
            },
        )
    }
}

/// A portfolio's identity and description.
#[derive(Debug, PartialEq, Eq)]
pub struct Portfolio {
    pub id: String,
    pub name: String,
    pub description: String,
}

impl Portfolio {
    /// The portfolio that the backend's portfolio `p` stands for.
    pub open spec fn spec_from(p: proto::PortfolioMeta) -> Portfolio {
        Portfolio { id: p.id, name: p.name, description: p.description }
    }

    pub fn from(p: proto::PortfolioMeta) -> (r: Portfolio)
        ensures
            r == Portfolio::spec_from(p),
    {
        Portfolio { id: p.id, name: p.name, description: p.description }
    }
}

pub type Portfolios = Vec<Portfolio>;

/// The profit of one security lot, as the backend computed it.
#[derive(Debug, PartialEq, Eq)]
pub struct SecurityProfit {
    pub ticker: String,
    pub security_type: i32,
    pub purchase_date: String,
    pub until: String,
    pub purchase_price: F64Bits,
    pub profit_per_share: F64Bits,
    pub volume: F64Bits,
    pub total_profit: F64Bits,
}

impl SecurityProfit {
    /// The profit that the backend's profit `p` stands for, untouched.
    pub open spec fn spec_from(p: proto::SecurityProfit) -> SecurityProfit {
        SecurityProfit {
            ticker: p.ticker,
            security_type: p.security_type,
            purchase_date: p.purchase_date,
            until: p.until,
            purchase_price: p.purchase_price,
            profit_per_share: p.profit_per_share,
            volume: p.volume,
            total_profit: p.total_profit,
        }
    }

    pub fn from(p: proto::SecurityProfit) -> (r: SecurityProfit)
        ensures
            r == SecurityProfit::spec_from(p),
    {
        SecurityProfit {
            ticker: p.ticker,
            security_type: p.security_type,
            purchase_date: p.purchase_date,
            until: p.until,
            purchase_price: p.purchase_price,
            profit_per_share: p.profit_per_share,
            volume: p.volume,
            total_profit: p.total_profit,
        }
    }
}

pub type SecurityProfits = Vec<SecurityProfit>;

/// Two tickers that correlate, with their correlation and volumes.
#[derive(Debug, PartialEq, Eq)]
pub struct CorrelatingTickers {
    pub tickers: Vec<Ticker>,
    pub correlation: F64Bits,
    pub date: String,
    pub period: i32,
    pub volume0: F64Bits,
    pub volume1: F64Bits,
}

impl CorrelatingTickers {
    /// Whether the backend's pair names both of its tickers.
    pub open spec fn complete(c: proto::Correl) -> bool {
        c.ticker0 is Some && c.ticker1 is Some
    }

    /// Whether `r` is what the complete pair `c` of the backend stands for:
    /// its two tickers in order, known by symbol and security type alone.
    pub open spec fn stands_for(r: CorrelatingTickers, c: proto::Correl) -> bool
        recommends
            CorrelatingTickers::complete(c),
    {
        &&& r.tickers@ == seq![
            Ticker::spec_bare(c.ticker0->0.ticker, c.ticker0->0.security_type),
            Ticker::spec_bare(c.ticker1->0.ticker, c.ticker1->0.security_type),
        ]
        &&& r.correlation == c.correl
        &&& r.date == c.date
        &&& r.period == c.period
        &&& r.volume0 == c.volume0
        &&& r.volume1 == c.volume1
    }

    /// Translates a pair of the backend. A pair that lacks a ticker is
    /// refused.
    pub fn try_from(c: proto::Correl) -> (r: Result<CorrelatingTickers, StreamError>)
        ensures
            r is Ok <==> CorrelatingTickers::complete(c),
            r matches Ok(t) ==> CorrelatingTickers::stands_for(t, c),
            r matches Err(e) ==> e@ == "Correl - invalid ticker"@,
    {
        match (c.ticker0, c.ticker1) {
            (Some(ticker0), Some(ticker1)) => {
                let mut tickers: Vec<Ticker> = Vec::new();
                tickers.push(Ticker::bare(ticker0.ticker, ticker0.security_type));
                tickers.push(Ticker::bare(ticker1.ticker, ticker1.security_type));
                assert(tickers@ =~= seq![
                    Ticker::spec_bare(ticker0.ticker, ticker0.security_type),
                    Ticker::spec_bare(ticker1.ticker, ticker1.security_type),
                ]);
                Ok(
                    CorrelatingTickers {
                        tickers,
                        correlation: c.correl,
                        date: c.date,
                        period: c.period,
                        volume0: c.volume0,
                        volume1: c.volume1,
                    },
                )
            },
            _ => Err(StreamError::new("Correl - invalid ticker")),
        }
    }
}

/// The answer to a purchase or a sale.
#[derive(Debug, PartialEq, Eq)]
pub struct Success {
    pub success: bool,
    pub error: Option<String>,
}

/// The answer to a purchase or a sale that went through.
pub fn success() -> (s: Success)
    ensures
        s == (Success { success: true, error: None }),
{
    Success { success: true, error: None }
}

} // verus!
