use yata::{Highest, HighestLowestDelta, Lowest, Method, ValueType};

/// A deterministic stream of close prices: a bounded random walk.
struct RandomCloses {
    state: u64,
    price: ValueType,
}

impl RandomCloses {
    fn new() -> Self {
        RandomCloses { state: 0x2545_f491_4f6c_dd1d, price: 1_000_000 }
    }

    fn first(&self) -> ValueType {
        self.price
    }

    fn next_close(&mut self) -> ValueType {
        let current = self.price;
        self.state = self.state.wrapping_mul(6364136223846793005).wrapping_add(1442695040888963407);
        let step = ((self.state >> 33) % 20001) as i64 - 10000;
        self.price = (self.price + step).max(1);
        current
    }

    fn take(&mut self, n: usize) -> Vec<ValueType> {
        (0..n).map(|_| self.next_close()).collect()
    }
}

fn const_input(i: u8) -> ValueType {
    ((i as f64 + 56.0) / 16.3251 * 1_000_000.0) as ValueType
}

fn test_const<M: Method<Input = ValueType>>(method: &mut M, input: ValueType, output: M::Output)
where
    M::Output: PartialEq + std::fmt::Debug + Copy,
{
    for _ in 0..100 {
        assert_eq!(method.next(input), output);
    }
}

#[test]
fn test_highest_const() {
    for i in 1..30 {
        let input = const_input(i);
        let mut method = Highest::new(i, input).unwrap();

        let output = method.next(input);
        test_const(&mut method, input, output);
    }
}

#[test]
fn test_highest1() {
    let mut candles = RandomCloses::new();
    let mut ma = Highest::new(1, candles.first()).unwrap();

    for x in candles.take(100) {
        assert_eq!(x, ma.next(x));
    }
}

#[test]
fn test_highest() {
    let src = RandomCloses::new().take(100);

    for length in 2..20u8 {
        let mut ma = Highest::new(length, src[0]).unwrap();
        let length = length as usize;

        for (i, &x) in src.iter().enumerate() {
            let value1 = ma.next(x);
            let value2 = (0..length).fold(src[i], |m, j| m.max(src[i.saturating_sub(j)]));
            assert_eq!(value2, value1);
        }
    }
}

#[test]
fn test_lowest_const() {
    for i in 1..30 {
        let input = const_input(i);
        let mut method = Lowest::new(i, input).unwrap();

        let output = method.next(input);
        test_const(&mut method, input, output);
    }
}

#[test]
fn test_lowest1() {
    let mut candles = RandomCloses::new();
    let mut ma = Lowest::new(1, candles.first()).unwrap();

    for x in candles.take(100) {
        assert_eq!(x, ma.next(x));
    }
}

#[test]
fn test_lowest() {
    let src = RandomCloses::new().take(100);

    for length in 2..20u8 {
        let mut ma = Lowest::new(length, src[0]).unwrap();
        let length = length as usize;

        for (i, &x) in src.iter().enumerate() {
            let value1 = ma.next(x);
            let value2 = (0..length).fold(src[i], |m, j| m.min(src[i.saturating_sub(j)]));
            assert_eq!(value2, value1);
        }
    }
}

#[test]
fn test_highest_lowest_delta_const() {
    for i in 1..30 {
        let input = const_input(i);
        let mut method = HighestLowestDelta::new(i, input).unwrap();

        let output = method.next(input);
        test_const(&mut method, input, output);
    }
}

#[test]
fn test_highes_lowest_delta1() {
    let mut candles = RandomCloses::new();
    let mut ma = HighestLowestDelta::new(1, candles.first()).unwrap();

    for x in candles.take(100) {
        assert_eq!(0, ma.next(x));
    }
}

#[test]
fn test_highes_lowest_delta() {
    let src = RandomCloses::new().take(100);

    for length in 2..20u8 {
        let mut ma = HighestLowestDelta::new(length, src[0]).unwrap();
        let length = length as usize;

        for (i, &x) in src.iter().enumerate() {
            let value1 = ma.next(x);
            let min = (0..length).fold(src[i], |m, j| m.min(src[i.saturating_sub(j)]));
            let max = (0..length).fold(src[i], |m, j| m.max(src[i.saturating_sub(j)]));
            assert_eq!((max - min) as u64, value1);
        }
    }
}

#[test]
fn extremum_scenario_in_tenths() {
    let values: [ValueType; 8] = [10, 20, 30, 20, 10, 5, 20, 30];
    let highs: [ValueType; 8] = [10, 20, 30, 30, 30, 20, 20, 30];
    let lows: [ValueType; 8] = [10, 10, 10, 20, 10, 5, 5, 5];
    let deltas: [u64; 8] = [0, 10, 20, 10, 20, 15, 15, 25];
    let mut h = Highest::new(3, values[0]).unwrap();
    let mut l = Lowest::new(3, values[0]).unwrap();
    let mut d = HighestLowestDelta::new(3, values[0]).unwrap();
    for i in 0..values.len() {
        assert_eq!(h.next(values[i]), highs[i]);
        assert_eq!(l.next(values[i]), lows[i]);
        assert_eq!(d.next(values[i]), deltas[i]);
    }
}

#[test]
fn extremum_zero_length_is_refused() {
    assert_eq!(Highest::new(0, 5).err(), Some(yata::Error::InvalidParameters));
    assert_eq!(Lowest::new(0, 5).err(), Some(yata::Error::InvalidParameters));
    assert_eq!(HighestLowestDelta::new(0, 5).err(), Some(yata::Error::InvalidParameters));
}

#[test]
fn extremum_evicted_maximum_is_rescanned() {
    let mut h = Highest::new(2, 0).unwrap();
    assert_eq!(h.next(9), 9);
    assert_eq!(h.next(3), 9);
    assert_eq!(h.next(1), 3);
    let mut l = Lowest::new(2, 0).unwrap();
    assert_eq!(l.next(-9), -9);
    assert_eq!(l.next(-3), -9);
    assert_eq!(l.next(-1), -3);
}

#[test]
fn delta_spans_the_whole_integer_range() {
    let mut d = HighestLowestDelta::new(2, i64::MIN).unwrap();
    assert_eq!(d.next(i64::MAX), u64::MAX);
    assert_eq!(d.next(i64::MAX), 0);
}

#[test]
fn delta_is_never_negative_and_matches_difference() {
    let src = RandomCloses::new().take(60);
    for length in 1..8u8 {
        let mut h = Highest::new(length, src[0]).unwrap();
        let mut l = Lowest::new(length, src[0]).unwrap();
        let mut d = HighestLowestDelta::new(length, src[0]).unwrap();
        for &x in &src {
            let hi = h.next(x);
            let lo = l.next(x);
            assert!(hi >= lo);
            assert_eq!(d.next(x), (hi - lo) as u64);
        }
    }
}
