use yata::Window;

#[test]
fn window_starts_full_of_seed() {
    let w = Window::new(4, 7i64);
    assert_eq!(w.len(), 4);
    assert_eq!(w.to_vec(), vec![7, 7, 7, 7]);
}

#[test]
fn window_push_evicts_oldest() {
    let mut w = Window::new(3, 0i64);
    assert_eq!(w.push(1), 0);
    assert_eq!(w.push(2), 0);
    assert_eq!(w.push(3), 0);
    assert_eq!(w.push(4), 1);
    assert_eq!(w.len(), 3);
    assert_eq!(w.to_vec(), vec![2, 3, 4]);
    assert_eq!(w.oldest(), 2);
    assert_eq!(w.newest(), 4);
    assert_eq!(w.get(1), 3);
}

#[test]
fn window_full_turnover_leaves_no_seed() {
    let mut w = Window::new(5, -1i64);
    for v in 10..15 {
        w.push(v);
        assert_eq!(w.len(), 5);
    }
    assert_eq!(w.to_vec(), vec![10, 11, 12, 13, 14]);
}

#[test]
fn window_of_one_slot() {
    let mut w = Window::new(1, 'a');
    assert_eq!(w.push('b'), 'a');
    assert_eq!(w.push('c'), 'b');
    assert_eq!(w.to_vec(), vec!['c']);
}
