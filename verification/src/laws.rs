//! What holds of every indicator that keeps to the lifecycle.

use vstd::prelude::*;
use crate::candle::{Candle, OHLCV};
use crate::config::{candles, outputs, state_after, IndicatorConfig};
use crate::instance::IndicatorInstance;
use crate::result::Output;

verus! {

/// The results of driving an instance by hand: consume the first bar, then
/// go on from the state that this leaves, with the bars that remain.
pub open spec fn stepwise<I: IndicatorInstance>(state: I::V, bars: Seq<Candle>) -> Seq<Output>
    decreases bars.len(),
{
    if bars.len() == 0 {
        Seq::empty()
    } else {
        seq![I::output(state, bars[0])] + stepwise::<I>(
            I::next_state(state, bars[0]),
            bars.drop_first(),
        )
    }
}

/// Consuming a bar and then some more leaves the state that the others make
/// of the state after the first.
pub proof fn lemma_state_after_first<I: IndicatorInstance>(
    start: I::V,
    first: Candle,
    rest: Seq<Candle>,
)
    ensures
        state_after::<I>(start, seq![first] + rest) == state_after::<I>(
            I::next_state(start, first),
            rest,
        ),
    decreases rest.len(),
{
    let bars = seq![first] + rest;
    if rest.len() == 0 {
        assert(state_after::<I>(start, bars.drop_last()) == start);
    } else {
        lemma_state_after_first::<I>(start, first, rest.drop_last());
        assert(bars.drop_last() =~= seq![first] + rest.drop_last());
    }
}

/// Batch evaluation is incremental evaluation: the results that
/// [`IndicatorConfig::eval`] returns for a sequence of bars are those of an
/// instance that consumes the bars one after another.
pub proof fn lemma_outputs_are_stepwise<I: IndicatorInstance>(start: I::V, bars: Seq<Candle>)
    ensures
        outputs::<I>(start, bars) == stepwise::<I>(start, bars),
    decreases bars.len(),
{
    if bars.len() > 0 {
        let first = bars[0];
        let rest = bars.drop_first();
        let then = I::next_state(start, first);
        lemma_outputs_are_stepwise::<I>(then, rest);
        assert forall|i: int| 1 <= i < bars.len() implies outputs::<I>(start, bars)[i]
            == outputs::<I>(then, rest)[i - 1] by {
            lemma_state_after_first::<I>(start, first, rest.take(i - 1));
            assert(seq![first] + rest.take(i - 1) =~= bars.take(i));
        }
        assert(outputs::<I>(start, bars) =~= seq![I::output(start, first)] + outputs::<I>(
            then,
            rest,
        ));
    }
}

/// A single bar yields exactly one result: that of the instance which the
/// bar has seeded and which then consumes the same bar.
pub proof fn lemma_single_bar<C: IndicatorConfig>(config: C::V, bar: Candle)
    ensures
        outputs::<C::Instance>(C::seed(config, bar), seq![bar]) == seq![
            C::Instance::output(C::seed(config, bar), bar),
        ],
{
}

/// What an evaluation returns is fixed by the parameters and by the
/// observations of the bars: two evaluations that agree in these are refused
/// alike or seeded alike, and then emit the same results.
pub proof fn lemma_eval_deterministic<C: IndicatorConfig, T1: OHLCV, T2: OHLCV>(
    config1: C,
    config2: C,
    bars1: Seq<T1>,
    bars2: Seq<T2>,
)
    requires
        config1@ == config2@,
        candles(bars1) == candles(bars2),
    ensures
        bars1.len() == bars2.len(),
        C::is_valid(config1@) == C::is_valid(config2@),
        C::violation(config1@) == C::violation(config2@),
        bars1.len() > 0 ==> outputs::<C::Instance>(
            C::seed(config1@, bars1[0].candle()),
            candles(bars1),
        ) == outputs::<C::Instance>(C::seed(config2@, bars2[0].candle()), candles(bars2)),
{
    assert(bars2.len() == candles(bars2).len());
    if bars1.len() > 0 {
        assert(bars2[0].candle() == candles(bars2)[0]);
    }
}

} // verus!
