use fleet_midi_pulse::tempo::{TempoCurve, TempoMap, TempoPoint, TempoSpan};

#[test]
fn constant_tempo() {
    let map = TempoMap::constant(120.0);
    assert_eq!(map.span_at(0), Some(TempoSpan::Fixed(120.0)));
    assert_eq!(map.span_at(1000), Some(TempoSpan::Fixed(120.0)));
}

#[test]
fn before_first_point() {
    let mut map = TempoMap::new();
    map.add_point(TempoPoint::new(100, 140.0));
    assert_eq!(map.span_at(0), Some(TempoSpan::Fixed(140.0)));
    assert_eq!(map.span_at(50), Some(TempoSpan::Fixed(140.0)));
}

#[test]
fn after_last_point() {
    let mut map = TempoMap::new();
    map.add_point(TempoPoint::new(0, 120.0));
    assert_eq!(map.span_at(99999), Some(TempoSpan::Fixed(120.0)));
}

#[test]
fn points_sorted() {
    let mut map = TempoMap::new();
    map.add_point(TempoPoint::new(200, 130.0));
    map.add_point(TempoPoint::new(0, 120.0));
    map.add_point(TempoPoint::new(100, 125.0));
    assert_eq!(map.points()[0].tick, 0);
    assert_eq!(map.points()[1].tick, 100);
    assert_eq!(map.points()[2].tick, 200);
}

#[test]
fn clear_points() {
    let mut map = TempoMap::constant(120.0);
    map.clear();
    assert!(map.points().is_empty());
}

#[test]
fn default_is_linear() {
    let map = TempoMap::<f64>::default();
    assert_eq!(map.default_curve, TempoCurve::Linear);
}

// ── Further cases ──

#[test]
fn empty_map_has_no_span() {
    let map = TempoMap::<f64>::new();
    assert_eq!(map.span_at(0), None);
}

#[test]
fn ramp_is_bracketed_by_its_points() {
    let mut map = TempoMap::new();
    map.add_point(TempoPoint::new(0, 100.0));
    map.add_point(TempoPoint::new(100, 200.0));
    map.add_point(TempoPoint::new(200, 150.0));
    assert_eq!(
        map.span_at(50),
        Some(TempoSpan::Ramp(TempoPoint::new(0, 100.0), TempoPoint::new(100, 200.0)))
    );
    assert_eq!(
        map.span_at(100),
        Some(TempoSpan::Ramp(TempoPoint::new(100, 200.0), TempoPoint::new(200, 150.0)))
    );
    assert_eq!(map.span_at(200), Some(TempoSpan::Fixed(150.0)));
}

#[test]
fn points_at_one_tick_keep_insertion_order() {
    let mut map = TempoMap::new();
    map.add_point(TempoPoint::new(10, 1.0));
    map.add_point(TempoPoint::new(10, 2.0));
    map.add_point(TempoPoint::new(5, 3.0));
    map.add_point(TempoPoint::new(10, 4.0));
    let bpms: Vec<f64> = map.points().iter().map(|p| p.bpm).collect();
    assert_eq!(bpms, vec![3.0, 1.0, 2.0, 4.0]);
}

#[test]
fn accelerando_and_ritardando_add_both_points() {
    let mut map = TempoMap::new();
    map.accelerando(0, 80.0, 1000, 160.0);
    map.ritardando(1000, 160.0, 2000, 80.0);
    let ticks: Vec<u64> = map.points().iter().map(|p| p.tick).collect();
    assert_eq!(ticks, vec![0, 1000, 1000, 2000]);
    assert_eq!(
        map.span_at(500),
        Some(TempoSpan::Ramp(TempoPoint::new(0, 80.0), TempoPoint::new(1000, 160.0)))
    );
    assert_eq!(
        map.span_at(1500),
        Some(TempoSpan::Ramp(TempoPoint::new(1000, 160.0), TempoPoint::new(2000, 80.0)))
    );
}

#[test]
fn set_default_curve_keeps_points() {
    let mut map = TempoMap::constant(90.0);
    map.set_default_curve(TempoCurve::Smooth);
    assert_eq!(map.default_curve, TempoCurve::Smooth);
    assert_eq!(map.points().len(), 1);
}
