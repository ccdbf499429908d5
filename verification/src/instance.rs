//! The running state of an indicator.

use vstd::prelude::*;
use crate::candle::{Candle, OHLCV};
use crate::result::{IndicatorResult, Output};

verus! {

/// The mutable state of one indicator on one stream of bars.
///
/// An instance comes out of
/// [`IndicatorConfig::init`](crate::config::IndicatorConfig::init) and is
/// then driven by [`step`](IndicatorInstance::step), one bar at a time and in
/// the order of the stream. Its view is what it has accumulated.
pub trait IndicatorInstance: View + Sized {
    /// The shape of every result of an instance in this state: the number of
    /// raw values and the number of signals.
    spec fn shape(state: Self::V) -> (u8, u8);

    /// The state that `state` turns into when `bar` is consumed.
    spec fn next_state(state: Self::V, bar: Candle) -> Self::V;

    /// The result that an instance in `state` emits when it consumes `bar`.
    spec fn output(state: Self::V, bar: Candle) -> Output;

    /// Returns the shape of the results.
    fn size(&self) -> (shape: (u8, u8))
        ensures
            shape == Self::shape(self@),
    ;

    /// Consumes one bar: advances the state by one position and returns the
    /// result for that bar.
    ///
    /// The result and the new state depend on the old state and on the
    /// observation of the bar, and on nothing else. The shape stays what it
    /// was.
    fn step<T: OHLCV>(&mut self, bar: &T) -> (result: IndicatorResult)
        ensures
            final(self)@ == Self::next_state(old(self)@, bar.candle()),
            result@ == Self::output(old(self)@, bar.candle()),
            Self::shape(final(self)@) == Self::shape(old(self)@),
            result@.has_shape(Self::shape(old(self)@)),
    ;
}

} // verus!
