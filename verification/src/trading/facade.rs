//! The facade of the trading operations: where the backend is found, and
//! what each answer of the backend becomes.

use crate::envs::Envs;
use crate::error::{Failure, FailureKind};
use crate::proto;
use crate::text::{decimal_text, push_decimal};
use crate::trading::request::{translate_all, PortfolioSecurities, PortfolioSecurity};
use crate::trading::response::{
    MutualCorrel, Portfolio, Portfolios, SecurityProfit, SecurityProfits,
};
use vstd::prelude::*;
use vstd::string::StringExecFns;

verus! {

/// The trading operations against one backend.
#[derive(Debug, PartialEq, Eq)]
pub struct Trading {
    db_loader_host: String,
    db_loader_port: u16,
}

impl Trading {
    /// The host of the backend.
    pub closed spec fn host(&self) -> String {
        self.db_loader_host
    }

    /// The port of the backend.
    pub closed spec fn port(&self) -> u16 {
        self.db_loader_port
    }

    /// The operations against the backend that the settings name.
    pub fn new(envs: Envs) -> (t: Trading)
        ensures
            t.host() == envs.db_loader_host,
            t.port() == envs.db_loader_port,
    {
        Trading { db_loader_host: envs.db_loader_host, db_loader_port: envs.db_loader_port }
    }

    /// The address at which the backend is reached.
    pub open spec fn spec_endpoint(&self) -> Seq<char> {
        "http://"@ + self.host()@ + ":"@ + decimal_text(self.port() as nat)
    }

    /// The address at which the backend is reached: `http://`, the host, a
    /// colon and the port in decimal.
    pub fn endpoint(&self) -> (url: String)
        ensures
            url@ == self.spec_endpoint(),
    {
        let mut url = String::from_str("http://");
        url.append(self.db_loader_host.as_str());
        url.append(":");
        push_decimal(&mut url, self.db_loader_port as u64);
        url
    }
}

/// The backend's query for the portfolio with the identity `id`.
pub fn portfolio_query(id: String) -> (q: proto::Id)
    ensures
        q == (proto::Id { id }),
{
    proto::Id { id }
}

/// The backend's query for the portfolios that `filter` selects.
pub fn portfolios_query(filter: String) -> (q: proto::PortfolioReq)
    ensures
        q == (proto::PortfolioReq { filter }),
{
    proto::PortfolioReq { filter }
}

/// The backend's request to create a portfolio.
pub fn create_portfolio_request(name: &str, description: &str) -> (q: proto::CreatePortfolioReq)
    ensures
        q.name@ == name@,
        q.description@ == description@,
{
    proto::CreatePortfolioReq {
        name: String::from_str(name),
        description: String::from_str(description),
    }
}

/// The portfolios of an answer, each in its place.
pub fn portfolios_from(answer: proto::PortfolioMetas) -> (list: Portfolios)
    ensures
        list@ == answer.portfolios@.map_values(|p: proto::PortfolioMeta| Portfolio::spec_from(p)),
{
    let list = translate_all(answer.portfolios, Portfolio::from);
    assert(list@ =~= answer.portfolios@.map_values(
        |p: proto::PortfolioMeta| Portfolio::spec_from(p),
    ));
    list
}

/// The security lots of an answer, each in its place.
pub fn portfolio_securities_from(answer: proto::PortfolioSecurities) -> (list:
    PortfolioSecurities)
    ensures
        list@ == answer.securities@.map_values(
            |p: proto::PortfolioSecurity| PortfolioSecurity::spec_from(p),
        ),
{
    let list = translate_all(answer.securities, PortfolioSecurity::from);
    assert(list@ =~= answer.securities@.map_values(
        |p: proto::PortfolioSecurity| PortfolioSecurity::spec_from(p),
    ));
    list
}

/// The profits of an answer, each in its place and as the backend computed
/// it.
pub fn security_profits_from(answer: proto::SecurityProfits) -> (list: SecurityProfits)
    ensures
        list@ == answer.profits@.map_values(|p: proto::SecurityProfit| SecurityProfit::spec_from(p)),
{
    let list = translate_all(answer.profits, SecurityProfit::from);
    assert(list@ =~= answer.profits@.map_values(
        |p: proto::SecurityProfit| SecurityProfit::spec_from(p),
    ));
    list
}

/// Whether every bundle of the list is complete.
pub open spec fn all_complete(bundles: Seq<proto::MutualCorrel>) -> bool {
    forall|i: int| 0 <= i < bundles.len() ==> MutualCorrel::complete(#[trigger] bundles[i])
}

/// Whether `k` is the place of the first bundle of the list that is not
/// complete.
pub open spec fn first_incomplete(bundles: Seq<proto::MutualCorrel>, k: int) -> bool {
    &&& 0 <= k < bundles.len()
    &&& !MutualCorrel::complete(bundles[k])
    &&& all_complete(bundles.take(k))
}

/// Whether `list` is what the complete bundles stand for, each in its place.
pub open spec fn stand_for(list: Seq<MutualCorrel>, bundles: Seq<proto::MutualCorrel>) -> bool {
    &&& list.len() == bundles.len()
    &&& forall|i: int|
        0 <= i < bundles.len() ==> MutualCorrel::stands_for(#[trigger] list[i], bundles[i])
}

/// The mutual correlations of an answer. Where any bundle lacks its ticker,
/// or any entry of a bundle lacks one of its two, the whole answer is
/// refused as a validation failure and no list is returned; the message is
/// that of the first such bundle.
pub fn mutual_correlations_from(answer: proto::MutualCorrels) -> (r: Result<
    Vec<MutualCorrel>,
    Failure,
>)
    ensures
        r is Ok <==> all_complete(answer.correls@),
        r matches Ok(list) ==> stand_for(list@, answer.correls@),
        r matches Err(f) ==> f.kind == FailureKind::Validation && exists|k: int|
            first_incomplete(answer.correls@, k) && f.message@ == MutualCorrel::refusal(
                #[trigger] answer.correls@[k],
            ),
{
    let mut list: Vec<MutualCorrel> = Vec::new();
    let ghost given = answer.correls@;
    for bundle in it: answer.correls
        invariant
            it.seq() == given,
            all_complete(given.take(it.index() as int)),
            stand_for(list@, given.take(it.index() as int)),
    {
        let ghost k = it.index() as int;
        match MutualCorrel::try_from(bundle) {
            Ok(m) => {
                list.push(m);
                assert(all_complete(given.take(k + 1))) by {
                    assert forall|i: int| 0 <= i < k + 1 implies MutualCorrel::complete(
                        #[trigger] given.take(k + 1)[i],
                    ) by {
                        if i < k {
                            assert(given.take(k)[i] == given[i]);
                        }
                    }
                }
                assert(stand_for(list@, given.take(k + 1))) by {
                    assert forall|i: int| 0 <= i < k + 1 implies MutualCorrel::stands_for(
                        #[trigger] list@[i],
                        given.take(k + 1)[i],
                    ) by {
                        if i < k {
                            assert(given.take(k)[i] == given[i]);
                        }
                    }
                }
            },
            Err(e) => {
                assert(first_incomplete(given, k));
                assert(!MutualCorrel::complete(given[k]));
                return Err(Failure::from(e));
            },
        }
    }
    assert(given.take(given.len() as int) =~= given);
    Ok(list)
}

} // verus!
