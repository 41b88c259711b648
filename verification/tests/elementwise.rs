use flightdyn::atmosphere::{layer_for_height, select_layer};
use flightdyn::elementwise::map_each;

fn kelvin_at(h: f64) -> f64 {
    let l = layer_for_height(h.floor() as i64);
    l.base_temperature as f64 / 1.0e4 + l.lapse_rate as f64 / 1.0e4 * (h - l.base_height as f64)
}

#[test]
fn map_each_keeps_length_and_order() {
    let heights = vec![0.0, 1000.0, 2000.0, 12_000.0];
    let temps = map_each(&heights, kelvin_at);
    assert_eq!(temps.len(), heights.len());
    for i in 0..heights.len() {
        assert_eq!(temps[i], kelvin_at(heights[i]));
    }
    assert_eq!(temps[0], 288.15);
    assert_eq!(temps[3], 216.65);
}

#[test]
fn map_each_of_nothing_is_empty() {
    let none: Vec<i64> = Vec::new();
    let out = map_each(&none, select_layer);
    assert!(out.is_empty());
}

#[test]
fn map_each_is_not_the_identity() {
    let heights: Vec<i64> = vec![90_000, 0, 25_000, 0];
    let layers = map_each(&heights, select_layer);
    assert_eq!(layers, vec![7usize, 0, 2, 0]);
}

#[test]
fn map_each_with_a_closure() {
    let offset: i64 = 3;
    let doubled = map_each(&[1i64, 2, 3], |x: i64| 2 * x + offset);
    assert_eq!(doubled, vec![5i64, 7, 9]);
}

#[test]
fn map_each_may_change_the_type() {
    let flags = map_each(&[10_000i64, 11_000, 47_500], |h: i64| {
        layer_for_height(h).lapse_rate == 0
    });
    assert_eq!(flags, vec![false, true, true]);
}
