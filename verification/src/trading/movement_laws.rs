//! What holds of every run of the movements operation.

use crate::proto;
use crate::proto::Period;
use crate::trading::movements::{
    finishes_with, is_split_query, movements_of, spec_wants_split_filter, split_symbols, started, stepped,
    survives, window_start_text, without_splits, BackendAnswer, MovementsAction, MovementsState,
    SplitWindow,
};
use crate::trading::request::MovementsReq;
use crate::trading::response::Movement;
use vstd::prelude::*;

verus! {

/// Whether `picks` names, in rising order, exactly the places of `movements`
/// whose ticker is not in `splits`.
pub open spec fn picks_survivors(
    movements: Seq<Movement>,
    splits: Set<Seq<char>>,
    picks: Seq<int>,
) -> bool {
    &&& forall|k: int|
        0 <= k < picks.len() ==> 0 <= #[trigger] picks[k] < movements.len() && !splits.contains(
            movements[picks[k]].ticker.ticker@,
        )
    &&& forall|a: int, b: int| 0 <= a < b < picks.len() ==> picks[a] < picks[b]
    &&& forall|i: int|
        0 <= i < movements.len() && !splits.contains((#[trigger] movements[i]).ticker.ticker@)
            ==> picks.contains(i)
}

/// Leaving out the tickers in `splits` removes every movement whose ticker is
/// in the set and nothing else: the list that is left holds, unchanged and
/// in the order in which they stood, exactly the movements at the places
/// whose ticker is not in the set. The places are returned.
pub proof fn law_split_filter_keeps_the_rest_in_order(
    movements: Seq<Movement>,
    splits: Set<Seq<char>>,
) -> (picks: Seq<int>)
    ensures
        picks_survivors(movements, splits, picks),
        without_splits(movements, splits).len() == picks.len(),
        forall|k: int|
            0 <= k < picks.len() ==> (#[trigger] without_splits(movements, splits)[k])
                == movements[picks[k]],
    decreases movements.len(),
{
    reveal(Seq::filter);
    if movements.len() == 0 {
        Seq::empty()
    } else {
        let before = movements.drop_last();
        let last = movements.len() - 1;
        let picked = law_split_filter_keeps_the_rest_in_order(before, splits);
        let kept = without_splits(before, splits);
        if survives(splits)(movements.last()) {
            let picks = picked.push(last);
            assert(without_splits(movements, splits) == kept.push(movements.last()));
            assert forall|i: int|
                0 <= i < movements.len() && !splits.contains(
                    (#[trigger] movements[i]).ticker.ticker@,
                ) implies picks.contains(i) by {
                if i < last {
                    assert(before[i] == movements[i]);
                    assert(picked.contains(i));
                    let k = choose|k: int| 0 <= k < picked.len() && picked[k] == i;
                    assert(picks[k] == i);
                } else {
                    assert(picks[picked.len() as int] == i);
                }
            }
            assert forall|k: int| 0 <= k < picks.len() implies 0 <= #[trigger] picks[k]
                < movements.len() && !splits.contains(movements[picks[k]].ticker.ticker@) by {
                if k < picked.len() {
                    assert(picks[k] == picked[k]);
                    assert(before[picked[k]] == movements[picked[k]]);
                }
            }
            assert forall|a: int, b: int| 0 <= a < b < picks.len() implies picks[a] < picks[b] by {
                assert(picks[a] == picked[a]);
                if b < picked.len() {
                    assert(picks[b] == picked[b]);
                }
            }
            assert forall|k: int| 0 <= k < picks.len() implies (#[trigger] without_splits(
                movements,
                splits,
            )[k]) == movements[picks[k]] by {
                if k < picked.len() {
                    assert(kept[k] == before[picked[k]]);
                }
            }
            picks
        } else {
            assert(without_splits(movements, splits) == kept);
            assert forall|i: int|
                0 <= i < movements.len() && !splits.contains(
                    (#[trigger] movements[i]).ticker.ticker@,
                ) implies picked.contains(i) by {
                assert(before[i] == movements[i]);
            }
            assert forall|k: int| 0 <= k < picked.len() implies 0 <= #[trigger] picked[k]
                < movements.len() && !splits.contains(movements[picked[k]].ticker.ticker@) by {
                assert(before[picked[k]] == movements[picked[k]]);
            }
            assert forall|k: int| 0 <= k < picked.len() implies (#[trigger] without_splits(
                movements,
                splits,
            )[k]) == movements[picked[k]] by {
                assert(kept[k] == before[picked[k]]);
            }
            picked
        }
    }
}

/// No movement that is left has a ticker in `splits`, and every movement
/// whose ticker is not in `splits` is left.
pub proof fn law_split_filter_excludes_exactly_the_splits(
    movements: Seq<Movement>,
    splits: Set<Seq<char>>,
)
    ensures
        forall|k: int|
            0 <= k < without_splits(movements, splits).len() ==> !splits.contains(
                (#[trigger] without_splits(movements, splits)[k]).ticker.ticker@,
            ),
        forall|i: int|
            0 <= i < movements.len() && !splits.contains((#[trigger] movements[i]).ticker.ticker@)
                ==> without_splits(movements, splits).contains(movements[i]),
{
    let picks = law_split_filter_keeps_the_rest_in_order(movements, splits);
    let kept = without_splits(movements, splits);
    assert forall|i: int|
        0 <= i < movements.len() && !splits.contains(
            (#[trigger] movements[i]).ticker.ticker@,
        ) implies kept.contains(movements[i]) by {
        assert(picks.contains(i));
        let k = choose|k: int| 0 <= k < picks.len() && picks[k] == i;
        assert(kept[k] == movements[i]);
    }
}

/// Where the request does not ask to leave out stock splits, or is not of
/// the aggregate equity class, the stock splits are never asked for: the
/// operation asks for the movements, and answers with the list that came,
/// every movement in its place.
pub proof fn law_no_split_query_unless_asked(
    req: MovementsReq,
    begun: MovementsState,
    first: MovementsAction,
    answered: proto::Movements,
    next: MovementsState,
    second: MovementsAction,
)
    requires
        !spec_wants_split_filter(req),
        started(req, begun, first),
        stepped(begun, BackendAnswer::Movements(answered), next, second),
    ensures
        first is QueryMovements,
        next is Done,
        finishes_with(second, movements_of(answered.movements@)),
{
}

/// Where the request is of the aggregate equity class and asks to leave out
/// stock splits, the operation asks for the movements, then for the stock
/// splits of the window that ends at the request's own `until` and begins
/// the request's period before it, and answers with the movements that came
/// less those whose ticker had a split.
pub proof fn law_split_exclusion(
    req: MovementsReq,
    begun: MovementsState,
    first: MovementsAction,
    answered: proto::Movements,
    waiting: MovementsState,
    second: MovementsAction,
    splits: proto::StockSplits,
    end: MovementsState,
    last: MovementsAction,
)
    requires
        spec_wants_split_filter(req),
        started(req, begun, first),
        stepped(begun, BackendAnswer::Movements(answered), waiting, second),
        second is QuerySplits,
        stepped(waiting, BackendAnswer::Splits(splits), end, last),
    ensures
        first matches MovementsAction::QueryMovements(asked) && asked.until == req.until,
        second matches MovementsAction::QuerySplits(query) && is_split_query(
            SplitWindow { until: req.until, period: Period::of_code(req.period as int) },
            query,
        ),
        end is Done,
        finishes_with(
            last,
            without_splits(
                movements_of(answered.movements@),
                split_symbols(splits.splits@),
            ),
        ),
{
    let window = SplitWindow { until: req.until, period: Period::of_code(req.period as int) };
    match window_start_text(window) {
        Ok(_) => {},
        Err(_) => {},
    }
}

} // verus!
