use std::collections::HashMap;
use trading_gateway::number::F64Bits;
use trading_gateway::proto;
use trading_gateway::trading::request::{
    translate_all, DEFAULT_TICKER_LIMIT, DEFAULT_TRADED_WITHIN_DAYS,
};
use trading_gateway::trading::{
    success, BasicTicker, CorrelReq, CorrelatingTickers, CorrelatingTickersReq, DetailedCorrel,
    Movement, MovementsReq, MutualCorrel, Portfolio, PortfolioSecurity, Security, SecurityProfit,
    SecurityProfitReq, Success, Ticker, TickerFilter, TimeSeriesData, TimeSeriesReq,
};

fn bits(x: f64) -> F64Bits {
    F64Bits::new(x.to_bits())
}

fn backend_ticker(symbol: &str) -> proto::Ticker {
    let mut custom_fields = HashMap::new();
    custom_fields.insert("exchange".to_string(), "NYSE".to_string());
    proto::Ticker {
        ticker: symbol.to_string(),
        name: format!("{} Inc.", symbol),
        security_type: 2,
        custom_fields,
    }
}

fn ticker(symbol: &str) -> Ticker {
    let mut custom_fields = HashMap::new();
    custom_fields.insert("exchange".to_string(), "NYSE".to_string());
    Ticker {
        ticker: symbol.to_string(),
        name: Some(format!("{} Inc.", symbol)),
        security_type: 2,
        custom_fields: Some(custom_fields),
    }
}

#[test]
fn number_keeps_its_bits() {
    assert_eq!(f64::from_bits(bits(-0.125).bits), -0.125);
    assert_eq!(bits(1.5).bits, 0x3ff8_0000_0000_0000);
    assert!(f64::from_bits(bits(f64::NAN).bits).is_nan());
}

#[test]
fn ticker_filter_defaults() {
    let query = proto::TickerFilter::from(TickerFilter {
        ttype: 3,
        filter: None,
        limit: None,
        traded_within_past_n_days: None,
    });
    assert_eq!(
        query,
        proto::TickerFilter {
            ticker_type: 3,
            filter: String::new(),
            limit: 100,
            traded_within_past_n_days: 10,
        }
    );
    assert_eq!(DEFAULT_TICKER_LIMIT, 100);
    assert_eq!(DEFAULT_TRADED_WITHIN_DAYS, 10);
}

#[test]
fn ticker_filter_keeps_what_is_given() {
    let query = proto::TickerFilter::from(TickerFilter {
        ttype: -1,
        filter: Some("msft".to_string()),
        limit: Some(0),
        traded_within_past_n_days: Some(365),
    });
    assert_eq!(
        query,
        proto::TickerFilter {
            ticker_type: -1,
            filter: "msft".to_string(),
            limit: 0,
            traded_within_past_n_days: 365,
        }
    );
}

#[test]
fn movements_request_keeps_its_bounds() {
    let query = proto::MovementsReq::from(MovementsReq {
        security_type: 0,
        sort_by: 2,
        until: "2024-01-31".to_string(),
        period: 3,
        limit: 50,
        min_volume: 1_000_000,
        min_variance: bits(0.25),
        max_variance: bits(4.0),
        without_stock_splits: Some(true),
    });
    assert_eq!(
        query,
        proto::MovementsReq {
            security_type: 0,
            sort_by: 2,
            until: "2024-01-31".to_string(),
            period: 3,
            limit: 50,
            min_volume: 1_000_000,
            min_variance: bits(0.25),
            max_variance: bits(4.0),
        }
    );
}

#[test]
fn movements_request_codes_wrap_into_signed() {
    let query = proto::MovementsReq::from(MovementsReq {
        security_type: u32::MAX,
        sort_by: 0x8000_0000,
        until: String::new(),
        period: 0x7fff_ffff,
        limit: 0,
        min_volume: 0,
        min_variance: bits(0.0),
        max_variance: bits(0.0),
        without_stock_splits: None,
    });
    assert_eq!(query.security_type, -1);
    assert_eq!(query.sort_by, i32::MIN);
    assert_eq!(query.period, i32::MAX);
}

#[test]
fn correlating_tickers_request_defaults() {
    let query = proto::CorrelTickersReq::from(CorrelatingTickersReq {
        until: "2024-01-31".to_string(),
        period: 4,
        limit: 20,
        min_volume: None,
        sign: None,
    });
    assert_eq!(
        query,
        proto::CorrelTickersReq {
            until: "2024-01-31".to_string(),
            period: 4,
            limit: 20,
            min_volume: 0,
            sign: 0,
        }
    );
    let query = proto::CorrelTickersReq::from(CorrelatingTickersReq {
        until: "2024-01-31".to_string(),
        period: 4,
        limit: 20,
        min_volume: Some(77),
        sign: Some(u32::MAX),
    });
    assert_eq!(query.min_volume, 77);
    assert_eq!(query.sign, -1);
}

#[test]
fn basic_ticker_translates_and_clones() {
    let t = BasicTicker { ticker: "AAPL".to_string(), security_type: 1 };
    let copy = t.clone();
    assert_eq!(copy, t);
    assert_eq!(
        proto::BasicTicker::from(t),
        proto::BasicTicker { ticker: "AAPL".to_string(), security_type: 1 }
    );
}

#[test]
fn time_series_request_asks_for_intraday() {
    let query = proto::TimeSeriesReq::from(TimeSeriesReq {
        ticker: BasicTicker { ticker: "AAPL".to_string(), security_type: 0 },
        from: "2024-01-01".to_string(),
        until: "2024-01-31".to_string(),
    });
    assert_eq!(
        query,
        proto::TimeSeriesReq {
            ticker: Some(proto::BasicTicker { ticker: "AAPL".to_string(), security_type: 0 }),
            from_date: "2024-01-01".to_string(),
            until_date: "2024-01-31".to_string(),
            intraday: true,
        }
    );
}

#[test]
fn correl_request_defaults_and_order() {
    let query = proto::CorrelReq::from(CorrelReq {
        tickers: vec![
            BasicTicker { ticker: "B".to_string(), security_type: 1 },
            BasicTicker { ticker: "A".to_string(), security_type: 0 },
            BasicTicker { ticker: "B".to_string(), security_type: 1 },
        ],
        until: None,
        period: 5,
    });
    assert_eq!(
        query,
        proto::CorrelReq {
            tickers: vec![
                proto::BasicTicker { ticker: "B".to_string(), security_type: 1 },
                proto::BasicTicker { ticker: "A".to_string(), security_type: 0 },
                proto::BasicTicker { ticker: "B".to_string(), security_type: 1 },
            ],
            until: String::new(),
            period: 5,
        }
    );
    let query = proto::CorrelReq::from(CorrelReq {
        tickers: vec![],
        until: Some("2024-02-29".to_string()),
        period: -1,
    });
    assert_eq!(
        query,
        proto::CorrelReq { tickers: vec![], until: "2024-02-29".to_string(), period: -1 }
    );
}

#[test]
fn profit_request_defaults() {
    let query = proto::SecurityProfitReq::from(SecurityProfitReq {
        util: "2024-01-31".to_string(),
        parition: 4,
        securities: vec![
            Security {
                security_type: 0,
                ticker: "AAPL".to_string(),
                volume: bits(10.0),
                purchase_date: None,
                sell_date: None,
            },
            Security {
                security_type: 1,
                ticker: "MSFT".to_string(),
                volume: bits(2.5),
                purchase_date: Some("2023-05-01".to_string()),
                sell_date: Some("2023-12-01".to_string()),
            },
        ],
    });
    assert_eq!(
        query,
        proto::SecurityProfitReq {
            until: "2024-01-31".to_string(),
            partition: 4,
            securities: vec![
                proto::ProfitSecurity {
                    security_type: 0,
                    ticker: "AAPL".to_string(),
                    volume: bits(10.0),
                    purchase_date: String::new(),
                    sell_date: None,
                },
                proto::ProfitSecurity {
                    security_type: 1,
                    ticker: "MSFT".to_string(),
                    volume: bits(2.5),
                    purchase_date: "2023-05-01".to_string(),
                    sell_date: Some("2023-12-01".to_string()),
                },
            ],
        }
    );
}

#[test]
fn portfolio_security_both_ways() {
    let backend = proto::PortfolioSecurity {
        portfolio_id: "pf-1".to_string(),
        security_type: 0,
        ticker: "AAPL".to_string(),
        volume: bits(12.0),
        purchase_date: "2023-01-02".to_string(),
        sell_date: String::new(),
    };
    let lot = PortfolioSecurity::from(backend);
    assert_eq!(
        lot,
        PortfolioSecurity {
            portfolio_id: "pf-1".to_string(),
            security_type: 0,
            ticker: "AAPL".to_string(),
            volume: bits(12.0),
            purchase_date: "2023-01-02".to_string(),
            sell_date: String::new(),
        }
    );
    assert_eq!(
        proto::PortfolioSecurity::from(lot),
        proto::PortfolioSecurity {
            portfolio_id: "pf-1".to_string(),
            security_type: 0,
            ticker: "AAPL".to_string(),
            volume: bits(12.0),
            purchase_date: "2023-01-02".to_string(),
            sell_date: String::new(),
        }
    );
}

#[test]
fn ticker_translates_and_clones() {
    let t = Ticker::from(backend_ticker("AAPL"));
    assert_eq!(t, ticker("AAPL"));
    assert_eq!(t.clone(), t);
    let bare = Ticker::bare("XYZ".to_string(), 7);
    assert_eq!(
        bare,
        Ticker { ticker: "XYZ".to_string(), name: None, security_type: 7, custom_fields: None }
    );
    assert_eq!(bare.clone(), bare);
}

#[test]
fn time_series_data_passes_through() {
    let mut values = HashMap::new();
    values.insert("close".to_string(), bits(187.5));
    values.insert("open".to_string(), bits(185.0));
    let mut expected = HashMap::new();
    expected.insert("close".to_string(), bits(187.5));
    expected.insert("open".to_string(), bits(185.0));
    assert_eq!(
        TimeSeriesData::from(proto::TimeSeriesData { date: "2024-01-02".to_string(), values }),
        TimeSeriesData { date: "2024-01-02".to_string(), values: expected }
    );
}

#[test]
fn movement_translates() {
    let m = Movement::from(proto::Movement {
        ticker: "XYZ".to_string(),
        security_type: 0,
        performance: bits(0.1),
        average: bits(0.2),
        volume: bits(0.3),
        variance: bits(0.4),
        stddev: bits(0.5),
        date: "2024-01-31".to_string(),
        period: 3,
    });
    assert_eq!(
        m,
        Movement {
            ticker: Ticker {
                ticker: "XYZ".to_string(),
                name: None,
                security_type: 0,
                custom_fields: None,
            },
            performance: bits(0.1),
            average: bits(0.2),
            volume: bits(0.3),
            variance: bits(0.4),
            stddev: bits(0.5),
            date: "2024-01-31".to_string(),
            period: 3,
        }
    );
}

#[test]
fn portfolio_and_profit_translate() {
    assert_eq!(
        Portfolio::from(proto::PortfolioMeta {
            id: "1".to_string(),
            name: "pack".to_string(),
            description: "first".to_string(),
        }),
        Portfolio { id: "1".to_string(), name: "pack".to_string(), description: "first".to_string() }
    );
    assert_eq!(
        SecurityProfit::from(proto::SecurityProfit {
            ticker: "AAPL".to_string(),
            security_type: 0,
            purchase_date: "2023-01-02".to_string(),
            until: "2024-01-31".to_string(),
            purchase_price: bits(125.0),
            profit_per_share: bits(62.5),
            volume: bits(10.0),
            total_profit: bits(625.0),
        }),
        SecurityProfit {
            ticker: "AAPL".to_string(),
            security_type: 0,
            purchase_date: "2023-01-02".to_string(),
            until: "2024-01-31".to_string(),
            purchase_price: bits(125.0),
            profit_per_share: bits(62.5),
            volume: bits(10.0),
            total_profit: bits(625.0),
        }
    );
}

fn backend_entry(t0: Option<&str>, t1: Option<&str>) -> proto::DetailedCorrel {
    proto::DetailedCorrel {
        ticker0: t0.map(backend_ticker),
        ticker1: t1.map(backend_ticker),
        date: "2024-01-31".to_string(),
        period: 3,
        correl: bits(0.75),
    }
}

#[test]
fn detailed_correl_needs_both_tickers() {
    assert_eq!(
        DetailedCorrel::try_from(backend_entry(Some("A"), Some("B"))).unwrap(),
        DetailedCorrel {
            ticker0: ticker("A"),
            ticker1: ticker("B"),
            date: "2024-01-31".to_string(),
            period: 3,
            correlation: bits(0.75),
        }
    );
    for (t0, t1) in [(None, Some("B")), (Some("A"), None), (None, None)] {
        let refused = DetailedCorrel::try_from(backend_entry(t0, t1)).unwrap_err();
        assert_eq!(refused.to_string(), "DetailedCorrel - invalid ticker");
    }
}

fn backend_bundle(
    anchor: Option<&str>,
    entries: Vec<proto::DetailedCorrel>,
) -> proto::MutualCorrel {
    proto::MutualCorrel {
        ticker: anchor.map(backend_ticker),
        correlations: entries,
        volatility: bits(1.0),
        stddev: bits(2.0),
        performance: bits(3.0),
        volume: bits(4.0),
    }
}

#[test]
fn mutual_correl_translates_whole_or_not_at_all() {
    let whole = MutualCorrel::try_from(backend_bundle(
        Some("A"),
        vec![backend_entry(Some("A"), Some("B")), backend_entry(Some("A"), Some("C"))],
    ))
    .unwrap();
    assert_eq!(whole.ticker, ticker("A"));
    assert_eq!(whole.correlations.len(), 2);
    assert_eq!(whole.correlations[0].ticker1, ticker("B"));
    assert_eq!(whole.correlations[1].ticker1, ticker("C"));
    assert_eq!(whole.volatility, bits(1.0));
    assert_eq!(whole.stddev, bits(2.0));
    assert_eq!(whole.performance, bits(3.0));
    assert_eq!(whole.volume, bits(4.0));

    let no_entries = MutualCorrel::try_from(backend_bundle(Some("A"), vec![])).unwrap();
    assert!(no_entries.correlations.is_empty());

    let refused = MutualCorrel::try_from(backend_bundle(None, vec![])).unwrap_err();
    assert_eq!(refused.to_string(), "MutualCorrel - invalid ticker");

    let refused = MutualCorrel::try_from(backend_bundle(
        None,
        vec![backend_entry(None, Some("B"))],
    ))
    .unwrap_err();
    assert_eq!(refused.to_string(), "MutualCorrel - invalid ticker");

    let refused = MutualCorrel::try_from(backend_bundle(
        Some("A"),
        vec![backend_entry(Some("A"), Some("B")), backend_entry(Some("A"), None)],
    ))
    .unwrap_err();
    assert_eq!(refused.to_string(), "DetailedCorrel - invalid ticker");
}

fn backend_pair(t0: Option<&str>, t1: Option<&str>) -> proto::Correl {
    proto::Correl {
        ticker0: t0.map(|s| proto::BasicTicker { ticker: s.to_string(), security_type: 0 }),
        ticker1: t1.map(|s| proto::BasicTicker { ticker: s.to_string(), security_type: 1 }),
        correl: bits(-0.5),
        date: "2024-01-31".to_string(),
        period: 3,
        volume0: bits(100.0),
        volume1: bits(200.0),
    }
}

#[test]
fn correlating_tickers_need_both_tickers() {
    assert_eq!(
        CorrelatingTickers::try_from(backend_pair(Some("A"), Some("B"))).unwrap(),
        CorrelatingTickers {
            tickers: vec![
                Ticker {
                    ticker: "A".to_string(),
                    name: None,
                    security_type: 0,
                    custom_fields: None,
                },
                Ticker {
                    ticker: "B".to_string(),
                    name: None,
                    security_type: 1,
                    custom_fields: None,
                },
            ],
            correlation: bits(-0.5),
            date: "2024-01-31".to_string(),
            period: 3,
            volume0: bits(100.0),
            volume1: bits(200.0),
        }
    );
    for (t0, t1) in [(None, Some("B")), (Some("A"), None), (None, None)] {
        let refused = CorrelatingTickers::try_from(backend_pair(t0, t1)).unwrap_err();
        assert_eq!(refused.to_string(), "Correl - invalid ticker");
    }
}

#[test]
fn translate_all_keeps_order() {
    let doubled = translate_all(vec![3u32, 1, 2], |n: u32| n * 2);
    assert_eq!(doubled, vec![6, 2, 4]);
    let none: Vec<u32> = translate_all(Vec::<u32>::new(), |n: u32| n);
    assert!(none.is_empty());
}

#[test]
fn success_answer() {
    assert_eq!(success(), Success { success: true, error: None });
}
