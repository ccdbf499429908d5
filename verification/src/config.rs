//! The configuration of an indicator and the batch evaluator.

use vstd::prelude::*;
use crate::candle::{Candle, OHLCV};
use crate::errors::{Error, ErrorView};
use crate::instance::IndicatorInstance;
use crate::result::{IndicatorResult, Output};

verus! {

/// The state of an instance that started in `start` and has consumed `bars`,
/// first to last.
pub open spec fn state_after<I: IndicatorInstance>(start: I::V, bars: Seq<Candle>) -> I::V
    decreases bars.len(),
{
    if bars.len() == 0 {
        start
    } else {
        I::next_state(state_after::<I>(start, bars.drop_last()), bars.last())
    }
}

/// The results of an instance that starts in `start` and consumes `bars`,
/// first to last: one for each bar, in the order of the bars.
pub open spec fn outputs<I: IndicatorInstance>(start: I::V, bars: Seq<Candle>) -> Seq<Output> {
    Seq::new(bars.len(), |i: int| I::output(state_after::<I>(start, bars.take(i)), bars[i]))
}

/// The observations behind a sequence of bars.
pub open spec fn candles<T: OHLCV>(bars: Seq<T>) -> Seq<Candle> {
    Seq::new(bars.len(), |i: int| bars[i].candle())
}

/// What a sequence of results holds.
pub open spec fn views(results: Seq<IndicatorResult>) -> Seq<Output> {
    Seq::new(results.len(), |i: int| results[i]@)
}

/// The parameters of one indicator.
///
/// A configuration is set up by its owner, possibly by name from text, and is
/// then consumed by [`init`](IndicatorConfig::init), which turns it into the
/// running state of one stream.
pub trait IndicatorConfig: View + Sized {
    /// The running state that this configuration turns into.
    type Instance: IndicatorInstance;

    /// Name of the indicator.
    const NAME: &'static str;

    /// Whether the indicator has a parameter of this name. Names are matched
    /// exactly.
    spec fn is_parameter(name: Seq<char>) -> bool;

    /// The configuration with the parameter `name` set from the text `value`,
    /// or `None` where the text is no value for that parameter.
    spec fn assign(config: Self::V, name: Seq<char>, value: Seq<char>) -> Option<Self::V>;

    /// Whether the parameters are consistent with each other.
    spec fn is_valid(config: Self::V) -> bool;

    /// For a configuration that is not valid, the name of a parameter whose
    /// constraint is broken.
    spec fn violation(config: Self::V) -> Seq<char>;

    /// The shape of the results: the number of raw values and the number of
    /// signals.
    spec fn shape(config: Self::V) -> (u8, u8);

    /// The state of an instance that was seeded with `bar` and has consumed
    /// nothing yet.
    spec fn seed(config: Self::V, bar: Candle) -> <Self::Instance as View>::V;

    /// Checks that the parameters are consistent with each other.
    fn validate(&self) -> (ok: bool)
        ensures
            ok == Self::is_valid(self@),
    ;

    /// Sets the parameter `name` from the text `value`.
    ///
    /// An unknown name and a malformed text are refused, and the
    /// configuration then stays exactly as it was.
    fn set(&mut self, name: &str, value: String) -> (outcome: Result<(), Error>)
        ensures
            match outcome {
                Ok(_) => {
                    &&& Self::is_parameter(name@)
                    &&& Self::assign(old(self)@, name@, value@) == Some(final(self)@)
                },
                Err(e) => {
                    &&& *final(self) == *old(self)
                    &&& Self::is_parameter(name@) ==> Self::assign(old(self)@, name@, value@)
                        is None
                    &&& e@ == if Self::is_parameter(name@) {
                        ErrorView::ParseFailure(name@, value@)
                    } else {
                        ErrorView::UnknownParameter(name@)
                    }
                },
            },
    ;

    /// Returns the name of the indicator.
    fn name(&self) -> (name: &'static str)
        ensures
            name@ == Self::NAME@,
    {
        Self::NAME
    }

    /// Returns the shape of the results: the number of raw values and the
    /// number of signals.
    fn size(&self) -> (shape: (u8, u8))
        ensures
            shape == Self::shape(self@),
    ;

    /// Turns the configuration into the running state of one stream, seeded
    /// with the first bar of that stream. The seed bar itself yields no
    /// result here.
    ///
    /// A configuration that does not validate is refused.
    fn init<T: OHLCV>(self, initial_value: &T) -> (outcome: Result<Self::Instance, Error>)
        ensures
            match outcome {
                Ok(instance) => {
                    &&& Self::is_valid(self@)
                    &&& instance@ == Self::seed(self@, initial_value.candle())
                    &&& Self::Instance::shape(instance@) == Self::shape(self@)
                },
                Err(e) => {
                    &&& !Self::is_valid(self@)
                    &&& e@ == ErrorView::InvalidConfiguration(Self::violation(self@))
                },
            },
    ;

    /// Evaluates the indicator over a sequence of bars and returns one result
    /// for each bar, in the order of the bars.
    ///
    /// The first bar seeds the instance and is then consumed like every other
    /// bar.
    fn eval<T: OHLCV>(self, over_slice: &[T]) -> (outcome: Result<Vec<IndicatorResult>, Error>)
        ensures
            outcome is Ok <==> over_slice@.len() == 0 || Self::is_valid(self@),
            match outcome {
                Ok(results) => {
                    &&& results@.len() == over_slice@.len()
                    &&& over_slice@.len() > 0 ==> {
                        &&& Self::is_valid(self@)
                        &&& views(results@) == outputs::<Self::Instance>(
                            Self::seed(self@, over_slice@[0].candle()),
                            candles(over_slice@),
                        )
                    }
                    &&& forall|i: int|
                        0 <= i < results@.len() ==> (#[trigger] results@[i])@.has_shape(
                            Self::shape(self@),
                        )
                },
                Err(e) => {
                    &&& over_slice@.len() > 0
                    &&& !Self::is_valid(self@)
                    &&& e@ == ErrorView::InvalidConfiguration(Self::violation(self@))
                },
            },
    {
        let ghost config = self@;
        let ghost bars = candles(over_slice@);
        if over_slice.len() == 0 {
            return Ok(Vec::new());
        }
        let mut state = match self.init(&over_slice[0]) {
            Ok(state) => state,
            Err(e) => {
                return Err(e);
            },
        };
        let ghost start = state@;
        let mut results: Vec<IndicatorResult> = Vec::with_capacity(over_slice.len());
        let mut i: usize = 0;
        while i < over_slice.len()
            invariant
                i <= over_slice.len(),
                bars == candles(over_slice@),
                results@.len() == i,
                state@ == state_after::<Self::Instance>(start, bars.take(i as int)),
                Self::Instance::shape(state@) == Self::shape(config),
                forall|j: int|
                    0 <= j < i ==> (#[trigger] results@[j])@ == Self::Instance::output(
                        state_after::<Self::Instance>(start, bars.take(j)),
                        bars[j],
                    ),
                forall|j: int|
                    0 <= j < i ==> (#[trigger] results@[j])@.has_shape(Self::shape(config)),
            decreases over_slice.len() - i,
        {
            let result = state.step(&over_slice[i]);
            assert(bars.take(i + 1).drop_last() =~= bars.take(i as int));
            results.push(result);
            i += 1;
        }
        Ok(results)
    }
}

} // verus!
