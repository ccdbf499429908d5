//! The value that an indicator emits for each bar.

use vstd::prelude::*;
use crate::candle::ValueType;

verus! {

/// A discrete trading signal.
#[derive(Clone, Copy, Debug, PartialEq, Eq, Structural)]
pub enum Action {
    /// Enter or add to a long position.
    Buy,
    /// Nothing to do.
    Hold,
    /// Enter or add to a short position.
    Sell,
}

/// What an [`IndicatorResult`] holds.
pub struct Output {
    /// The raw values, in slot order.
    pub values: Seq<ValueType>,
    /// The signals, in slot order.
    pub signals: Seq<Action>,
}

impl Output {
    /// Whether the output has the declared shape: that many raw values and
    /// that many signals.
    pub open spec fn has_shape(self, shape: (u8, u8)) -> bool {
        self.values.len() == shape.0 && self.signals.len() == shape.1
    }
}

/// The outcome of one step: a fixed number of raw values and a fixed number
/// of signals, 255 of each at most.
#[derive(Debug, PartialEq, Eq)]
pub struct IndicatorResult {
    values: Vec<ValueType>,
    signals: Vec<Action>,
}

impl View for IndicatorResult {
    type V = Output;

    closed spec fn view(&self) -> Output {
        Output { values: self.values@, signals: self.signals@ }
    }
}

impl IndicatorResult {
    #[verifier::type_invariant]
    spec fn counts_fit(self) -> bool {
        self.values@.len() <= u8::MAX && self.signals@.len() <= u8::MAX
    }

    /// Builds a result from its raw values and its signals.
    pub fn new(values: Vec<ValueType>, signals: Vec<Action>) -> (result: Self)
        requires
            values@.len() <= u8::MAX,
            signals@.len() <= u8::MAX,
        ensures
            result@.values == values@,
            result@.signals == signals@,
    {
        IndicatorResult { values, signals }
    }

    /// The shape: the number of raw values and the number of signals.
    pub fn size(&self) -> (shape: (u8, u8))
        ensures
            self@.has_shape(shape),
    {
        proof {
            use_type_invariant(self);
        }
        (self.values.len() as u8, self.signals.len() as u8)
    }

    /// The raw values, in slot order.
    pub fn values(&self) -> (values: &[ValueType])
        ensures
            values@ == self@.values,
    {
        self.values.as_slice()
    }

    /// The signals, in slot order.
    pub fn signals(&self) -> (signals: &[Action])
        ensures
            signals@ == self@.signals,
    {
        self.signals.as_slice()
    }

    /// The raw value in slot `index`, if the result has such a slot.
    pub fn value(&self, index: usize) -> (value: Option<ValueType>)
        ensures
            value == if index < self@.values.len() {
                Some(self@.values[index as int])
            } else {
                None
            },
    {
        if index < self.values.len() {
            Some(self.values[index])
        } else {
            None
        }
    }

    /// The signal in slot `index`, if the result has such a slot.
    pub fn signal(&self, index: usize) -> (signal: Option<Action>)
        ensures
            signal == if index < self@.signals.len() {
                Some(self@.signals[index as int])
            } else {
                None
            },
    {
        if index < self.signals.len() {
            Some(self.signals[index])
        } else {
            None
        }
    }
}

impl Clone for IndicatorResult {
    fn clone(&self) -> (copy: Self)
        ensures
            copy@ == self@,
    {
        proof {
            use_type_invariant(self);
        }
        let values = self.values.clone();
        let signals = self.signals.clone();
        IndicatorResult { values, signals }
    }
}

} // verus!
