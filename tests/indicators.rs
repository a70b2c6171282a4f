use yata::{
    Action, Candle, Error, Example, IndicatorConfig, PivotReversalStrategy, Source,
};

fn bar(high: i64, low: i64, close: i64) -> Candle {
    Candle { open: close, high, low, close }
}

fn closing(close: i64) -> Candle {
    bar(close, close, close)
}

#[test]
fn example_defaults_and_shape() {
    let cfg = Example::default();
    assert_eq!(cfg.price, 2);
    assert_eq!(cfg.period, 3);
    assert_eq!(cfg.source, Source::Close);
    assert!(cfg.validate());
    assert_eq!(cfg.size(), (1, 2));
    let inst = cfg.init(closing(1)).unwrap();
    assert_eq!(inst.name(), "Example");
    assert_eq!(*inst.config(), cfg);
}

#[test]
fn example_signal_persists_for_period_then_resets() {
    let cfg = Example { price: 10, period: 2, source: Source::Close };
    let mut inst = cfg.init(closing(5)).unwrap();
    let expected = [
        (5, Action::Neutral),
        (15, Action::Buy(1)),
        (16, Action::Buy(1)),
        (17, Action::Buy(1)),
        (18, Action::Neutral),
        (19, Action::Neutral),
    ];
    for (close, signal) in expected {
        let r = inst.next(closing(close));
        assert_eq!(r.values(), &vec![close]);
        assert_eq!(r.signals(), &vec![signal, Action::Buy(128)]);
    }
}

#[test]
fn example_new_crossing_supersedes_live_signal() {
    let cfg = Example { price: 10, period: 3, source: Source::Close };
    let mut inst = cfg.init(closing(5)).unwrap();
    assert_eq!(inst.next(closing(15)).signals()[0], Action::Buy(1));
    assert_eq!(inst.next(closing(16)).signals()[0], Action::Buy(1));
    assert_eq!(inst.next(closing(4)).signals()[0], Action::Sell(1));
    assert_eq!(inst.next(closing(4)).signals()[0], Action::Sell(1));
    assert_eq!(inst.next(closing(3)).signals()[0], Action::Sell(1));
    assert_eq!(inst.next(closing(3)).signals()[0], Action::Sell(1));
    assert_eq!(inst.next(closing(3)).signals()[0], Action::Neutral);
}

#[test]
fn example_period_zero_reports_only_the_crossing_step() {
    let cfg = Example { price: 10, period: 0, source: Source::Close };
    let mut inst = cfg.init(closing(5)).unwrap();
    assert_eq!(inst.next(closing(11)).signals()[0], Action::Buy(1));
    assert_eq!(inst.next(closing(12)).signals()[0], Action::Neutral);
}

#[test]
fn example_set_fields() {
    let mut cfg = Example::default();
    assert_eq!(cfg.set("price", "42".to_string()), Ok(()));
    assert_eq!(cfg.price, 42);
    assert_eq!(cfg.set("price", "-7".to_string()), Ok(()));
    assert_eq!(cfg.price, -7);
    assert!(!cfg.validate());
    assert_eq!(cfg.set("period", "+9".to_string()), Ok(()));
    assert_eq!(cfg.period, 9);
}

#[test]
fn example_set_errors() {
    let mut cfg = Example::default();
    assert_eq!(
        cfg.set("price", "2.5".to_string()),
        Err(Error::InvalidValue { name: "price".to_string(), value: "2.5".to_string() })
    );
    assert_eq!(
        cfg.set("period", "-1".to_string()),
        Err(Error::InvalidValue { name: "period".to_string(), value: "-1".to_string() })
    );
    assert_eq!(
        cfg.set("period", "256".to_string()),
        Err(Error::InvalidValue { name: "period".to_string(), value: "256".to_string() })
    );
    assert_eq!(
        cfg.set("colour", "red".to_string()),
        Err(Error::UnknownField { name: "colour".to_string(), value: "red".to_string() })
    );
    assert_eq!(cfg, Example::default());
}

#[test]
fn example_invalid_config_is_refused() {
    let cfg = Example { price: 0, period: 3, source: Source::Close };
    assert!(!cfg.validate());
    assert_eq!(cfg.init(closing(1)).err(), Some(Error::InvalidParameters));
}

#[test]
fn example_replay_is_identical() {
    let closes = [5i64, 12, 13, 1, 0, 3, 40, 2, 2, 9];
    let cfg = Example { price: 4, period: 2, source: Source::Close };
    let run = |cfg: Example| {
        let mut inst = cfg.init(closing(3)).unwrap();
        closes
            .iter()
            .map(|&c| {
                let r = inst.next(closing(c));
                (r.values().clone(), r.signals().clone())
            })
            .collect::<Vec<_>>()
    };
    assert_eq!(run(cfg), run(cfg));
}

#[test]
fn strategy_defaults_and_shape() {
    let cfg = PivotReversalStrategy::default();
    assert_eq!(cfg, PivotReversalStrategy { left: 4, right: 2 });
    assert!(cfg.validate());
    assert_eq!(cfg.size(), (1, 1));
    let inst = cfg.init(bar(2, 1, 1)).unwrap();
    assert_eq!(inst.name(), "PivotReversalStrategy");
    assert_eq!(*inst.config(), cfg);
}

#[test]
fn strategy_scenario() {
    let cfg = PivotReversalStrategy { left: 1, right: 1 };
    let mut inst = cfg.init(bar(10, 5, 7)).unwrap();
    let bars = [(12, 6), (11, 7), (13, 4), (14, 8), (9, 3)];
    let expected = [1i64, 0, 1, 1, -1];
    for (i, &(h, l)) in bars.iter().enumerate() {
        let r = inst.next(bar(h, l, l));
        assert_eq!(r.values(), &vec![expected[i]]);
        assert_eq!(r.signals(), &vec![Action::from_analog(expected[i] as i8)]);
    }
}

#[test]
fn strategy_set_and_errors() {
    let mut cfg = PivotReversalStrategy::default();
    assert_eq!(cfg.set("left", "3".to_string()), Ok(()));
    assert_eq!(cfg.set("right", "5".to_string()), Ok(()));
    assert_eq!(cfg, PivotReversalStrategy { left: 3, right: 5 });
    assert_eq!(
        cfg.set("right", " 5".to_string()),
        Err(Error::InvalidValue { name: "right".to_string(), value: " 5".to_string() })
    );
    assert_eq!(
        cfg.set("middle", "1".to_string()),
        Err(Error::UnknownField { name: "middle".to_string(), value: "1".to_string() })
    );
    assert_eq!(cfg.set("left", "0".to_string()), Ok(()));
    assert!(!cfg.validate());
    assert_eq!(cfg.init(bar(1, 1, 1)).err(), Some(Error::InvalidParameters));
}

#[test]
fn strategy_replay_is_identical() {
    let bars = [(12, 6), (11, 7), (13, 4), (14, 8), (9, 3), (9, 3), (20, 1)];
    let cfg = PivotReversalStrategy { left: 2, right: 1 };
    let run = || {
        let mut inst = cfg.init(bar(10, 5, 7)).unwrap();
        bars.iter().map(|&(h, l)| inst.next(bar(h, l, l)).values()[0]).collect::<Vec<_>>()
    };
    assert_eq!(run(), run());
}
