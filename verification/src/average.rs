//! The simple moving average: the mean of one price over the last bars, with
//! a signal where the price stands off from it.

use vstd::prelude::*;
use vstd::arithmetic::div_mod::{lemma_div_is_ordered, lemma_div_multiples_vanish};
use crate::candle::{quotient_towards_zero, Candle, ValueType, OHLCV};
use crate::config::IndicatorConfig;
use crate::errors::Error;
use crate::instance::IndicatorInstance;
use crate::result::{Action, IndicatorResult, Output};
use crate::text::{count_of, parse_count, same_text};

verus! {

/// The price of a bar that is averaged.
#[derive(Clone, Copy, Debug, PartialEq, Eq, Structural)]
pub enum Source {
    /// The opening price.
    Open,
    /// The highest price.
    High,
    /// The lowest price.
    Low,
    /// The closing price.
    Close,
    /// The typical price.
    Typical,
}

impl Source {
    /// The source that a token names: `open`, `high`, `low`, `close` or
    /// `tp`.
    pub open spec fn of_text(text: Seq<char>) -> Option<Source> {
        if text == "open"@ {
            Some(Source::Open)
        } else if text == "high"@ {
            Some(Source::High)
        } else if text == "low"@ {
            Some(Source::Low)
        } else if text == "close"@ {
            Some(Source::Close)
        } else if text == "tp"@ {
            Some(Source::Typical)
        } else {
            None
        }
    }

    /// The price that this source takes from an observation.
    pub open spec fn price(self, bar: Candle) -> ValueType {
        match self {
            Source::Open => bar.open,
            Source::High => bar.high,
            Source::Low => bar.low,
            Source::Close => bar.close,
            Source::Typical => bar.typical_price() as ValueType,
        }
    }

    /// Reads a source from its token.
    pub fn parse(text: &str) -> (source: Option<Source>)
        ensures
            source == Source::of_text(text@),
    {
        if same_text(text, "open") {
            Some(Source::Open)
        } else if same_text(text, "high") {
            Some(Source::High)
        } else if same_text(text, "low") {
            Some(Source::Low)
        } else if same_text(text, "close") {
            Some(Source::Close)
        } else if same_text(text, "tp") {
            Some(Source::Typical)
        } else {
            None
        }
    }

    /// Takes the price from a bar.
    pub fn price_of<T: OHLCV>(self, bar: &T) -> (price: ValueType)
        ensures
            price == self.price(bar.candle()),
    {
        match self {
            Source::Open => bar.open(),
            Source::High => bar.high(),
            Source::Low => bar.low(),
            Source::Close => bar.close(),
            Source::Typical => bar.tp(),
        }
    }
}

/// The parameters of the simple moving average.
///
/// By name they are `period`, a count in decimal, and `source`, one of the
/// tokens `open`, `high`, `low`, `close` and `tp`.
#[derive(Debug, PartialEq, Eq, Structural)]
pub struct MovingAverage {
    /// The number of bars that are averaged; at least one.
    pub period: u8,
    /// The price of each bar that is averaged.
    pub source: Source,
}

impl View for MovingAverage {
    type V = MovingAverage;

    open spec fn view(&self) -> MovingAverage {
        *self
    }
}

impl Clone for MovingAverage {
    fn clone(&self) -> (copy: Self)
        ensures
            copy == *self,
    {
        MovingAverage { period: self.period, source: self.source }
    }
}

impl Default for MovingAverage {
    /// The close over twenty bars.
    fn default() -> (config: Self)
        ensures
            config == (MovingAverage { period: 20, source: Source::Close }),
    {
        MovingAverage { period: 20, source: Source::Close }
    }
}

/// The sum of a sequence of prices.
pub open spec fn total(prices: Seq<ValueType>) -> int
    decreases prices.len(),
{
    if prices.len() == 0 {
        0
    } else {
        total(prices.drop_last()) + prices.last()
    }
}

/// What a running moving average has accumulated.
pub struct MovingAverageState {
    /// The parameters that the average was started with.
    pub config: MovingAverage,
    /// The prices of the last bars, the oldest first. An average in use
    /// holds as many as its period says.
    pub window: Seq<ValueType>,
}

impl MovingAverageState {
    /// The window moved on by one bar: the oldest price leaves, `price`
    /// enters.
    pub open spec fn slide(self, price: ValueType) -> MovingAverageState {
        MovingAverageState { config: self.config, window: self.window.drop_first().push(price) }
    }

    /// The mean of the prices in the window, rounded towards zero.
    pub open spec fn mean(self) -> int {
        quotient_towards_zero(total(self.window), self.window.len() as int)
    }

    /// What a price says of the mean: above it a signal to buy, below it a
    /// signal to sell.
    pub open spec fn signal(self, price: ValueType) -> Action {
        if price > self.mean() {
            Action::Buy
        } else if price < self.mean() {
            Action::Sell
        } else {
            Action::Hold
        }
    }
}

/// The place in a ring of `length` places that `position` falls on, for a
/// position less than one turn past the end.
spec fn wrap(position: int, length: int) -> int {
    if position >= length {
        position - length
    } else {
        position
    }
}

/// The prices in a ring, from the oldest on.
spec fn window_of(ring: Seq<ValueType>, oldest: int) -> Seq<ValueType> {
    Seq::new(ring.len(), |i: int| ring[wrap(oldest + i, ring.len() as int)])
}

/// The sum of so many prices lies between so many times the least price
/// that there is and so many times the greatest.
proof fn lemma_total_is_bounded(prices: Seq<ValueType>)
    ensures
        prices.len() * i64::MIN <= total(prices) <= prices.len() * i64::MAX,
    decreases prices.len(),
{
    if prices.len() > 0 {
        lemma_total_is_bounded(prices.drop_last());
    }
}

/// Without its first price a sequence sums to that much less.
proof fn lemma_total_without_first(prices: Seq<ValueType>)
    requires
        prices.len() > 0,
    ensures
        total(prices.drop_first()) == total(prices) - prices[0],
    decreases prices.len(),
{
    if prices.len() > 1 {
        lemma_total_without_first(prices.drop_last());
        assert(prices.drop_first().drop_last() =~= prices.drop_last().drop_first());
    } else {
        assert(prices.drop_first() =~= Seq::<ValueType>::empty());
        assert(prices.drop_last() =~= Seq::<ValueType>::empty());
    }
}

/// A quotient lies between two bounds if the dividend lies between the
/// divisor times the one and the divisor times the other.
proof fn lemma_quotient_is_bounded(sum: int, count: int)
    requires
        count > 0,
        count * i64::MIN <= sum <= count * i64::MAX,
    ensures
        i64::MIN <= quotient_towards_zero(sum, count) <= i64::MAX,
{
    if sum >= 0 {
        lemma_div_is_ordered(sum, count * i64::MAX, count);
        lemma_div_multiples_vanish(i64::MAX as int, count);
        lemma_div_is_ordered(0, sum, count);
    } else {
        lemma_div_is_ordered(-sum, count * (-i64::MIN), count);
        lemma_div_multiples_vanish(-i64::MIN, count);
        lemma_div_is_ordered(0, -sum, count);
    }
}

/// The mean of a window that holds a price is itself a price: it lies
/// between the least and the greatest that there is.
pub proof fn lemma_mean_is_a_price(state: MovingAverageState)
    requires
        state.window.len() > 0,
    ensures
        i64::MIN <= state.mean() <= i64::MAX,
{
    lemma_total_is_bounded(state.window);
    lemma_quotient_is_bounded(total(state.window), state.window.len() as int);
}

/// Writes `price` over the oldest price in the ring and keeps the place of
/// the oldest and the sum in step. The three change in one call, so that an
/// instance is well formed before it and after it.
fn advance(ring: &mut Vec<ValueType>, oldest: &mut usize, sum: &mut i128, price: ValueType)
    requires
        *old(oldest) < old(ring)@.len() <= u8::MAX,
        *old(sum) == total(window_of(old(ring)@, *old(oldest) as int)),
    ensures
        final(ring)@.len() == old(ring)@.len(),
        *final(oldest) < final(ring)@.len(),
        window_of(final(ring)@, *final(oldest) as int) == window_of(
            old(ring)@,
            *old(oldest) as int,
        ).drop_first().push(price),
        *final(sum) == total(window_of(final(ring)@, *final(oldest) as int)),
    no_unwind
{
    let ghost before = window_of(ring@, *oldest as int);
    let length: usize = ring.len();
    let leaving: ValueType = ring[*oldest];
    let next: usize = if *oldest + 1 == length {
        0
    } else {
        *oldest + 1
    };
    proof {
        lemma_total_is_bounded(before);
        lemma_total_without_first(before);
        assert(before.drop_first().push(price).drop_last() =~= before.drop_first());
    }
    ring[*oldest] = price;
    *sum = *sum - leaving as i128 + price as i128;
    *oldest = next;
    assert(window_of(ring@, *oldest as int) =~= before.drop_first().push(price));
}

/// A running moving average.
///
/// It keeps the prices of the last bars in a ring, as many as the period
/// says, and their sum: a step replaces one price and corrects the sum,
/// however long the period and the stream are.
#[derive(Debug)]
pub struct MovingAverageInstance {
    config: MovingAverage,
    ring: Vec<ValueType>,
    oldest: usize,
    sum: i128,
}

impl View for MovingAverageInstance {
    type V = MovingAverageState;

    closed spec fn view(&self) -> MovingAverageState {
        MovingAverageState {
            config: self.config,
            window: window_of(self.ring@, self.oldest as int),
        }
    }
}

impl MovingAverageInstance {
    #[verifier::type_invariant]
    spec fn well_formed(self) -> bool {
        &&& self.config.period >= 1
        &&& self.ring@.len() == self.config.period
        &&& self.oldest < self.ring@.len()
        &&& self.sum == total(window_of(self.ring@, self.oldest as int))
    }
}

impl IndicatorInstance for MovingAverageInstance {
    /// One raw value, the mean, and one signal.
    open spec fn shape(state: MovingAverageState) -> (u8, u8) {
        (1, 1)
    }

    open spec fn next_state(state: MovingAverageState, bar: Candle) -> MovingAverageState {
        state.slide(state.config.source.price(bar))
    }

    /// The mean of the window with the price of `bar` in it, and what that
    /// price says of it.
    open spec fn output(state: MovingAverageState, bar: Candle) -> Output {
        let price = state.config.source.price(bar);
        Output {
            values: seq![state.slide(price).mean() as ValueType],
            signals: seq![state.slide(price).signal(price)],
        }
    }

    fn size(&self) -> (shape: (u8, u8)) {
        (1, 1)
    }

    fn step<T: OHLCV>(&mut self, bar: &T) -> (result: IndicatorResult) {
        proof {
            use_type_invariant(&*self);
        }
        let price: ValueType = self.config.source.price_of(bar);
        advance(&mut self.ring, &mut self.oldest, &mut self.sum, price);
        proof {
            lemma_mean_is_a_price(self@);
        }
        let mean: ValueType = (self.sum / self.config.period as i128) as ValueType;
        let signal = if price > mean {
            Action::Buy
        } else if price < mean {
            Action::Sell
        } else {
            Action::Hold
        };
        let mut values: Vec<ValueType> = Vec::new();
        values.push(mean);
        let mut signals: Vec<Action> = Vec::new();
        signals.push(signal);
        IndicatorResult::new(values, signals)
    }
}

impl IndicatorConfig for MovingAverage {
    type Instance = MovingAverageInstance;

    const NAME: &'static str = "MovingAverage";

    open spec fn is_parameter(name: Seq<char>) -> bool {
        name == "period"@ || name == "source"@
    }

    open spec fn assign(config: MovingAverage, name: Seq<char>, value: Seq<char>) -> Option<
        MovingAverage,
    > {
        if name == "period"@ {
            match count_of(value) {
                Some(period) => Some(MovingAverage { period, source: config.source }),
                None => None,
            }
        } else if name == "source"@ {
            match Source::of_text(value) {
                Some(source) => Some(MovingAverage { period: config.period, source }),
                None => None,
            }
        } else {
            None
        }
    }

    /// An average is taken over one bar at least.
    open spec fn is_valid(config: MovingAverage) -> bool {
        config.period >= 1
    }

    open spec fn violation(config: MovingAverage) -> Seq<char> {
        "period"@
    }

    /// One raw value, the mean, and one signal.
    open spec fn shape(config: MovingAverage) -> (u8, u8) {
        (1, 1)
    }

    /// The window is filled with the price of the seed bar.
    open spec fn seed(config: MovingAverage, bar: Candle) -> MovingAverageState {
        MovingAverageState {
            config,
            window: Seq::new(config.period as nat, |i: int| config.source.price(bar)),
        }
    }

    fn validate(&self) -> (ok: bool) {
        self.period >= 1
    }

    fn set(&mut self, name: &str, value: String) -> (outcome: Result<(), Error>) {
        if same_text(name, "period") {
            match parse_count(value.as_str()) {
                Some(period) => {
                    self.period = period;
                    Ok(())
                },
                None => Err(Error::ParseFailure(name.to_owned(), value)),
            }
        } else if same_text(name, "source") {
            match Source::parse(value.as_str()) {
                Some(source) => {
                    self.source = source;
                    Ok(())
                },
                None => Err(Error::ParseFailure(name.to_owned(), value)),
            }
        } else {
            Err(Error::UnknownParameter(name.to_owned()))
        }
    }

    fn size(&self) -> (shape: (u8, u8)) {
        (1, 1)
    }

    fn init<T: OHLCV>(self, initial_value: &T) -> (outcome: Result<MovingAverageInstance, Error>) {
        if !self.validate() {
            return Err(Error::InvalidConfiguration("period".to_owned()));
        }
        let ghost config = self;
        let price: ValueType = self.source.price_of(initial_value);
        let mut ring: Vec<ValueType> = Vec::with_capacity(self.period as usize);
        let mut sum: i128 = 0;
        let mut filled: u8 = 0;
        while filled < self.period
            invariant
                filled <= self.period,
                ring@.len() == filled,
                forall|k: int| 0 <= k < ring@.len() ==> ring@[k] == price,
                sum == total(ring@),
            decreases self.period - filled,
        {
            proof {
                lemma_total_is_bounded(ring@);
                assert(ring@.push(price).drop_last() =~= ring@);
            }
            ring.push(price);
            sum = sum + price as i128;
            filled += 1;
        }
        assert(window_of(ring@, 0) =~= ring@);
        let instance = MovingAverageInstance { config: self, ring, oldest: 0, sum };
        assert(instance@.window =~= Self::seed(config, initial_value.candle()).window);
        assert(Self::shape(config) == MovingAverageInstance::shape(instance@));
        Ok(instance)
    }
}

} // verus!
