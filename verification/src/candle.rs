//! Price bars and the read-only capability set that indicators consume.

use vstd::prelude::*;

verus! {

/// Numeric type of prices and of raw indicator outputs: a signed fixed-point
/// amount, counted in the smallest price increment of the instrument.
pub type ValueType = i64;

/// One time-ordered price and volume observation.
#[derive(Clone, Copy, Debug, PartialEq, Eq, Structural)]
pub struct Candle {
    pub open: ValueType,
    pub high: ValueType,
    pub low: ValueType,
    pub close: ValueType,
    pub volume: u64,
}

impl Candle {
    /// Whether the prices agree with each other: the open and the close lie
    /// between the low and the high.
    pub open spec fn is_consistent(self) -> bool {
        self.low <= self.open <= self.high && self.low <= self.close <= self.high
    }

    /// The typical price: the mean of high, low and close, rounded towards
    /// zero.
    pub open spec fn typical_price(self) -> int {
        quotient_towards_zero(self.high + self.low + self.close, 3)
    }

    /// Copies the observation out of a bar of any representation.
    pub fn from_bar<T: OHLCV>(bar: &T) -> (candle: Candle)
        ensures
            candle == bar.candle(),
    {
        Candle {
            open: bar.open(),
            high: bar.high(),
            low: bar.low(),
            close: bar.close(),
            volume: bar.volume(),
        }
    }
}

/// The quotient of `x` by a positive `d`, rounded towards zero.
pub open spec fn quotient_towards_zero(x: int, d: int) -> int
    recommends
        d > 0,
{
    if x >= 0 {
        x / d
    } else {
        -((-x) / d)
    }
}

/// Read access to one price bar, whatever its representation.
///
/// Nothing here checks that the prices of a bar agree with each other: that
/// is for the source of the bars to see to, and
/// [`validate`](OHLCV::validate) tells.
pub trait OHLCV {
    /// The observation that the accessors expose.
    spec fn candle(&self) -> Candle;

    /// The opening price.
    fn open(&self) -> (value: ValueType)
        ensures
            value == self.candle().open,
    ;

    /// The highest price.
    fn high(&self) -> (value: ValueType)
        ensures
            value == self.candle().high,
    ;

    /// The lowest price.
    fn low(&self) -> (value: ValueType)
        ensures
            value == self.candle().low,
    ;

    /// The closing price.
    fn close(&self) -> (value: ValueType)
        ensures
            value == self.candle().close,
    ;

    /// The traded volume.
    fn volume(&self) -> (value: u64)
        ensures
            value == self.candle().volume,
    ;

    /// The typical price: the mean of high, low and close, rounded towards
    /// zero.
    fn tp(&self) -> (value: ValueType)
        ensures
            value == self.candle().typical_price(),
    {
        let sum: i128 = self.high() as i128 + self.low() as i128 + self.close() as i128;
        (sum / 3) as ValueType
    }

    /// Tells whether the prices of the bar agree with each other.
    fn validate(&self) -> (ok: bool)
        ensures
            ok == self.candle().is_consistent(),
    {
        let low: ValueType = self.low();
        let high: ValueType = self.high();
        let open: ValueType = self.open();
        let close: ValueType = self.close();
        low <= open && open <= high && low <= close && close <= high
    }
}

impl OHLCV for Candle {
    open spec fn candle(&self) -> Candle {
        *self
    }

    fn open(&self) -> (value: ValueType) {
        self.open
    }

    fn high(&self) -> (value: ValueType) {
        self.high
    }

    fn low(&self) -> (value: ValueType) {
        self.low
    }

    fn close(&self) -> (value: ValueType) {
        self.close
    }

    fn volume(&self) -> (value: u64) {
        self.volume
    }
}

} // verus!
