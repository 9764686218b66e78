//! Movements, and the rule that leaves out tickers with a stock split.
//!
//! The operation needs up to two calls of the backend. What to call and what
//! to do with each answer is decided here, one step at a time: the caller
//! performs the call that a step asks for and hands back what came of it.

use crate::error::{Failure, FailureKind};
use crate::proto;
use crate::proto::Period;
use crate::time::date::{parse_date, spec_parse_date, Date};
use crate::time::outside::date_display;
use crate::time::span::Duration;
use crate::trading::request::{translate_all, MovementsReq};
use crate::trading::response::{Movement, Movements};
use vstd::prelude::*;
use vstd::string::StringExecFns;

verus! {

/// The security-type code of the aggregate equity class, the one for which
/// stock splits can be left out.
pub const AGGREGATE_EQUITY: u32 = 0;

/// A set of ticker symbols.
#[derive(Debug)]
pub struct TickerSet {
    tickers: Vec<String>,
}

impl View for TickerSet {
    type V = Set<Seq<char>>;

    /// The symbols in the set.
    closed spec fn view(&self) -> Set<Seq<char>> {
        Set::new(|symbol: Seq<char>| self.holds(symbol))
    }
}

impl TickerSet {
    /// Whether some entry of the list is `symbol`.
    closed spec fn holds(&self, symbol: Seq<char>) -> bool {
        exists|i: int| 0 <= i < self.tickers.len() && (#[trigger] self.tickers[i])@ == symbol
    }

    /// No symbol is held twice.
    pub closed spec fn wf(&self) -> bool {
        forall|i: int, j: int|
            0 <= i < j < self.tickers.len() ==> (#[trigger] self.tickers[i])@ != (
            #[trigger] self.tickers[j])@
    }

    /// The empty set.
    pub fn new() -> (s: TickerSet)
        ensures
            s.wf(),
            s@ == Set::<Seq<char>>::empty(),
    {
        let s = TickerSet { tickers: Vec::new() };
        assert(s@ =~= Set::<Seq<char>>::empty());
        s
    }

    /// Whether `symbol` is in the set.
    pub fn contains(&self, symbol: &String) -> (b: bool)
        ensures
            b == self@.contains(symbol@),
    {
        let mut i: usize = 0;
        while i < self.tickers.len()
            invariant
                i <= self.tickers.len(),
                forall|k: int| 0 <= k < i ==> (#[trigger] self.tickers[k])@ != symbol@,
            decreases self.tickers.len() - i,
        {
            if self.tickers[i] == *symbol {
                assert(self.holds(symbol@));
                return true;
            }
            i += 1;
        }
        false
    }

    /// Puts `symbol` into the set.
    pub fn insert(&mut self, symbol: String)
        requires
            old(self).wf(),
        ensures
            final(self).wf(),
            final(self)@ == old(self)@.insert(symbol@),
    {
        if !self.contains(&symbol) {
            let ghost before = self.tickers@;
            self.tickers.push(symbol);
            assert forall|t: Seq<char>| final(self)@.contains(t) <==> old(self)@.insert(
                symbol@,
            ).contains(t) by {
                if old(self).holds(t) {
                    let i = choose|i: int|
                        0 <= i < before.len() && (#[trigger] before[i])@ == t;
                    assert(self.tickers[i]@ == t);
                }
                if t == symbol@ {
                    assert(self.tickers[before.len() as int]@ == t);
                }
            }
            assert(final(self)@ =~= old(self)@.insert(symbol@));
        } else {
            assert(final(self)@ =~= old(self)@.insert(symbol@));
        }
    }
}

/// The symbols of the tickers that had a stock split.
pub open spec fn split_symbols(splits: Seq<proto::StockSplit>) -> Set<Seq<char>> {
    Set::new(
        |symbol: Seq<char>|
            exists|i: int| 0 <= i < splits.len() && (#[trigger] splits[i]).ticker@ == symbol,
    )
}

/// Collects the distinct tickers of a list of stock splits.
pub fn collect_split_tickers(splits: Vec<proto::StockSplit>) -> (set: TickerSet)
    ensures
        set.wf(),
        set@ == split_symbols(splits@),
{
    let mut set = TickerSet::new();
    let ghost given = splits@;
    for split in it: splits
        invariant
            it.seq() == given,
            set.wf(),
            set@ == split_symbols(given.take(it.index() as int)),
    {
        let ghost before = given.take(it.index() as int);
        let ghost after = given.take(it.index() + 1);
        set.insert(split.ticker);
        assert forall|t: Seq<char>| split_symbols(after).contains(t) <==> split_symbols(
            before,
        ).insert(split.ticker@).contains(t) by {
            if split_symbols(after).contains(t) {
                let i = choose|i: int| 0 <= i < after.len() && (#[trigger] after[i]).ticker@ == t;
                if i < before.len() {
                    assert(before[i].ticker@ == t);
                }
            }
            if split_symbols(before).contains(t) {
                let i = choose|i: int|
                    0 <= i < before.len() && (#[trigger] before[i]).ticker@ == t;
                assert(after[i].ticker@ == t);
            }
            if t == split.ticker@ {
                assert(after[it.index() as int].ticker@ == t);
            }
        }
        assert(set@ =~= split_symbols(after));
    }
    assert(given.take(given.len() as int) =~= given);
    set
}

/// Whether a movement stays when the tickers in `splits` are left out.
pub open spec fn survives(splits: Set<Seq<char>>) -> spec_fn(Movement) -> bool {
    |m: Movement| !splits.contains(m.ticker.ticker@)
}

/// The movements whose ticker is not in `splits`, each as it was and in the
/// order in which they stood.
pub open spec fn without_splits(movements: Seq<Movement>, splits: Set<Seq<char>>) -> Seq<
    Movement,
> {
    movements.filter(survives(splits))
}

/// Removes every movement whose ticker is in `splits`. The others stay as
/// they are and in their order.
pub fn remove_split_tickers(movements: Movements, splits: &TickerSet) -> (kept: Movements)
    ensures
        kept@ == without_splits(movements@, splits@),
{
    let mut kept: Vec<Movement> = Vec::new();
    let ghost given = movements@;
    proof {
        reveal(Seq::filter);
    }
    for movement in it: movements
        invariant
            it.seq() == given,
            kept@ == without_splits(given.take(it.index() as int), splits@),
    {
        proof {
            reveal(Seq::filter);
            assert(given.take(it.index() + 1).drop_last() =~= given.take(it.index() as int));
        }
        if !splits.contains(&movement.ticker.ticker) {
            kept.push(movement);
        }
    }
    assert(given.take(given.len() as int) =~= given);
    kept
}

/// Whether the request asks to leave out tickers with a stock split, and is
/// of the class for which that can be done.
pub open spec fn spec_wants_split_filter(req: MovementsReq) -> bool {
    req.security_type == AGGREGATE_EQUITY && req.without_stock_splits == Some(true)
}

pub fn wants_split_filter(req: &MovementsReq) -> (b: bool)
    ensures
        b == spec_wants_split_filter(*req),
{
    req.security_type == AGGREGATE_EQUITY && match req.without_stock_splits {
        Some(flag) => flag,
        None => false,
    }
}

/// The message for a window whose first day chrono's calendar does not hold.
pub open spec fn window_out_of_range_message() -> Seq<char> {
    "lookback window starts before the first date of the calendar"@
}

/// The first day of the lookback window that ends at `until` and spans
/// `period`, or the message of the failure.
pub open spec fn lookback_start(until: Seq<char>, period: Period) -> Result<Date, Seq<char>> {
    match spec_parse_date(until) {
        Ok(end) => match end.spec_minus(Duration::of_period(period)) {
            Some(start) => Ok(start),
            None => Err(window_out_of_range_message()),
        },
        Err(message) => Err(message),
    }
}

/// The first day of the lookback window: `until` less the span that `period`
/// stands for.
pub fn eval_from_date(until: &str, period: Period) -> (r: Result<Date, Failure>)
    ensures
        match r {
            Ok(start) => lookback_start(until@, period) == Ok::<Date, Seq<char>>(start),
            Err(f) => f.kind == FailureKind::Validation && lookback_start(until@, period) == Err::<
                Date,
                Seq<char>,
            >(f.message@),
        },
{
    let end = match parse_date(until) {
        Ok(end) => end,
        Err(f) => {
            return Err(f);
        },
    };
    match end.minus(Duration::from(period)) {
        Some(start) => Ok(start),
        None => Err(
            Failure::validation(
                String::from_str("lookback window starts before the first date of the calendar"),
            ),
        ),
    }
}

/// For which window to ask the backend for stock splits.
#[derive(Debug, PartialEq, Eq)]
pub struct SplitWindow {
    /// The last day of the window, as the request gave it.
    pub until: String,
    /// The length of the window.
    pub period: Period,
}

/// The text of the first day of `window`, or the message of the failure.
pub open spec fn window_start_text(window: SplitWindow) -> Result<Seq<char>, Seq<char>> {
    match lookback_start(window.until@, window.period) {
        Ok(start) => match date_display(start.year as int, start.month as int, start.day as int) {
            Some(text) => Ok(text),
            None => Err(window_out_of_range_message()),
        },
        Err(message) => Err(message),
    }
}

/// Whether `query` asks for all the stock splits in `window`.
pub open spec fn is_split_query(window: SplitWindow, query: proto::StockSplitReq) -> bool {
    &&& window_start_text(window) == Ok::<Seq<char>, Seq<char>>(query.from@)
    &&& query.until == window.until
    &&& query.limit == 0
}

/// The backend's query for the stock splits in `window`: from the window's
/// first day to its last, without a limit.
pub fn split_query(window: SplitWindow) -> (r: Result<proto::StockSplitReq, Failure>)
    ensures
        match r {
            Ok(query) => is_split_query(window, query),
            Err(f) => f.kind == FailureKind::Validation && window_start_text(window) == Err::<
                Seq<char>,
                Seq<char>,
            >(f.message@),
        },
{
    let start = match eval_from_date(window.until.as_str(), window.period) {
        Ok(start) => start,
        Err(f) => {
            return Err(f);
        },
    };
    match start.to_string() {
        Some(from) => Ok(proto::StockSplitReq { from, until: window.until, limit: 0 }),
        None => Err(
            Failure::validation(
                String::from_str("lookback window starts before the first date of the calendar"),
            ),
        ),
    }
}

/// What the operation waits for.
#[derive(Debug, PartialEq, Eq)]
pub enum MovementsState {
    /// The movement list was asked for. `window` is the window of the stock
    /// splits to leave out, where the request asked for that.
    AwaitingMovements { window: Option<SplitWindow> },
    /// The stock splits were asked for; `movements` is the list to filter.
    AwaitingSplits { movements: Movements },
    /// The operation is over.
    Done,
}

/// What came of a call of the backend.
#[derive(Debug, PartialEq, Eq)]
pub enum BackendAnswer {
    /// The movement list.
    Movements(proto::Movements),
    /// The stock splits of the window.
    Splits(proto::StockSplits),
    /// The backend was not reached or refused the call; the text says why.
    Failed(String),
}

/// What the caller is to do next.
#[derive(Debug, PartialEq, Eq)]
pub enum MovementsAction {
    /// Ask the backend for the movements.
    QueryMovements(proto::MovementsReq),
    /// Ask the backend for the stock splits.
    QuerySplits(proto::StockSplitReq),
    /// Answer the request with this list.
    Finish(Movements),
    /// Answer the request with this failure.
    Fail(Failure),
}

/// The message for an answer that the operation did not wait for.
pub open spec fn unexpected_answer_message() -> Seq<char> {
    "unexpected answer from the backend"@
}

/// The window of the stock splits to leave out, where `req` asks for that.
pub open spec fn split_window(req: MovementsReq) -> Option<SplitWindow> {
    if spec_wants_split_filter(req) {
        Some(SplitWindow { until: req.until, period: Period::of_code(req.period as int) })
    } else {
        None
    }
}

/// Whether the operation for `req` begins in `state` with `action`: it asks
/// for the movements with the request's own bounds, and remembers the window
/// of the stock splits where they are to be left out.
pub open spec fn started(req: MovementsReq, state: MovementsState, action: MovementsAction) -> bool {
    &&& state == (MovementsState::AwaitingMovements { window: split_window(req) })
    &&& action == MovementsAction::QueryMovements(
        proto::MovementsReq::spec_from(req),
    )
}

/// Begins the operation: the first call, and what to wait for.
pub fn start(req: MovementsReq) -> (r: (MovementsState, MovementsAction))
    ensures
        started(req, r.0, r.1),
{
    let window = if wants_split_filter(&req) {
        Some(SplitWindow { until: req.until.clone(), period: Period::from(req.period) })
    } else {
        None
    };
    (
        MovementsState::AwaitingMovements { window },
        MovementsAction::QueryMovements(proto::MovementsReq::from(req)),
    )
}

/// The movements that a list of the backend's movements stands for, each in
/// its place.
pub open spec fn movements_of(list: Seq<proto::Movement>) -> Seq<Movement> {
    list.map_values(|m: proto::Movement| Movement::spec_from(m))
}

/// Whether `action` fails the request with a failure of `kind` and the
/// message `message`.
pub open spec fn fails_with(action: MovementsAction, kind: FailureKind, message: Seq<char>) -> bool {
    action matches MovementsAction::Fail(f) && f.kind == kind && f.message@ == message
}

/// Whether `action` answers the request with the list `movements`.
pub open spec fn finishes_with(action: MovementsAction, movements: Seq<Movement>) -> bool {
    action matches MovementsAction::Finish(list) && list@ == movements
}

/// Whether the operation, waiting in `state`, goes on to `next` with
/// `action` when `answer` comes.
///
/// The movement list is answered as it came where no stock splits are to be
/// left out; otherwise the stock splits of the window are asked for, and the
/// list is answered without the tickers among them. A failed call fails the
/// request as an upstream failure. An answer that was not waited for fails
/// it as a validation failure.
pub open spec fn stepped(
    state: MovementsState,
    answer: BackendAnswer,
    next: MovementsState,
    action: MovementsAction,
) -> bool {
    match (state, answer) {
        (MovementsState::AwaitingMovements { window }, BackendAnswer::Movements(answered)) => {
            let list = movements_of(answered.movements@);
            match window {
                None => next is Done && finishes_with(action, list),
                Some(w) => match window_start_text(w) {
                    Ok(_) => {
                        &&& next matches MovementsState::AwaitingSplits { movements }
                        &&& movements@ == list
                        &&& action matches MovementsAction::QuerySplits(query)
                        &&& is_split_query(w, query)
                    },
                    Err(message) => next is Done && fails_with(
                        action,
                        FailureKind::Validation,
                        message,
                    ),
                },
            }
        },
        (MovementsState::AwaitingSplits { movements }, BackendAnswer::Splits(answered)) => {
            next is Done && finishes_with(
                action,
                without_splits(movements@, split_symbols(answered.splits@)),
            )
        },
        (MovementsState::AwaitingMovements { .. }, BackendAnswer::Failed(reason)) => {
            next is Done && fails_with(action, FailureKind::Upstream, reason@)
        },
        (MovementsState::AwaitingSplits { .. }, BackendAnswer::Failed(reason)) => {
            next is Done && fails_with(action, FailureKind::Upstream, reason@)
        },
        _ => next is Done && fails_with(
            action,
            FailureKind::Validation,
            unexpected_answer_message(),
        ),
    }
}

/// One step of the operation: what to do now that `answer` came, and what to
/// wait for.
pub fn step(state: MovementsState, answer: BackendAnswer) -> (r: (MovementsState, MovementsAction))
    ensures
        stepped(state, answer, r.0, r.1),
{
    match (state, answer) {
        (MovementsState::AwaitingMovements { window }, BackendAnswer::Movements(answered)) => {
            let movements: Vec<Movement> = translate_all(answered.movements, Movement::from);
            assert(movements@ =~= movements_of(answered.movements@));
            match window {
                None => (MovementsState::Done, MovementsAction::Finish(movements)),
                Some(w) => match split_query(w) {
                    Ok(query) => (
                        MovementsState::AwaitingSplits { movements },
                        MovementsAction::QuerySplits(query),
                    ),
                    Err(f) => (MovementsState::Done, MovementsAction::Fail(f)),
                },
            }
        },
        (MovementsState::AwaitingSplits { movements }, BackendAnswer::Splits(answered)) => {
            let splits = collect_split_tickers(answered.splits);
            (
                MovementsState::Done,
                MovementsAction::Finish(remove_split_tickers(movements, &splits)),
            )
        },
        (MovementsState::AwaitingMovements { .. }, BackendAnswer::Failed(reason)) => (
            MovementsState::Done,
            MovementsAction::Fail(Failure::upstream(reason)),
        ),
        (MovementsState::AwaitingSplits { .. }, BackendAnswer::Failed(reason)) => (
            MovementsState::Done,
            MovementsAction::Fail(Failure::upstream(reason)),
        ),
        _ => (
            MovementsState::Done,
            MovementsAction::Fail(
                Failure::validation(String::from_str("unexpected answer from the backend")),
            ),
        ),
    }
}

} // verus!
