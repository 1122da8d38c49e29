use cairo_context::{Antialias, FillRule, FontSlant, FontWeight, LineCap, LineJoin, TextClusterFlags};

#[test]
fn antialias_codes() {
    let all = [
        Antialias::Default,
        Antialias::Off,
        Antialias::Gray,
        Antialias::Subpixel,
        Antialias::Fast,
        Antialias::Good,
        Antialias::Best,
    ];
    for (i, a) in all.iter().enumerate() {
        assert_eq!(a.to_raw(), i as i32);
        assert_eq!(Antialias::from_raw(i as i32), Some(*a));
    }
    assert_eq!(Antialias::from_raw(7), None);
    assert_eq!(Antialias::from_raw(-1), None);
}

#[test]
fn fill_rule_codes() {
    assert_eq!(FillRule::Winding.to_raw(), 0);
    assert_eq!(FillRule::EvenOdd.to_raw(), 1);
    assert_eq!(FillRule::from_raw(0), Some(FillRule::Winding));
    assert_eq!(FillRule::from_raw(1), Some(FillRule::EvenOdd));
    assert_eq!(FillRule::from_raw(2), None);
}

#[test]
fn line_cap_codes() {
    assert_eq!(LineCap::Butt.to_raw(), 0);
    assert_eq!(LineCap::Round.to_raw(), 1);
    assert_eq!(LineCap::Square.to_raw(), 2);
    assert_eq!(LineCap::from_raw(2), Some(LineCap::Square));
    assert_eq!(LineCap::from_raw(3), None);
}

#[test]
fn line_join_codes() {
    assert_eq!(LineJoin::Miter.to_raw(), 0);
    assert_eq!(LineJoin::Round.to_raw(), 1);
    assert_eq!(LineJoin::Bevel.to_raw(), 2);
    assert_eq!(LineJoin::from_raw(0), Some(LineJoin::Miter));
    assert_eq!(LineJoin::from_raw(-3), None);
}

#[test]
fn font_slant_and_weight_codes() {
    assert_eq!(FontSlant::Normal.to_raw(), 0);
    assert_eq!(FontSlant::Italic.to_raw(), 1);
    assert_eq!(FontSlant::Oblique.to_raw(), 2);
    assert_eq!(FontSlant::from_raw(1), Some(FontSlant::Italic));
    assert_eq!(FontSlant::from_raw(3), None);
    assert_eq!(FontWeight::Normal.to_raw(), 0);
    assert_eq!(FontWeight::Bold.to_raw(), 1);
    assert_eq!(FontWeight::from_raw(1), Some(FontWeight::Bold));
    assert_eq!(FontWeight::from_raw(2), None);
}

#[test]
fn text_cluster_flag_codes() {
    assert_eq!(TextClusterFlags::Forward.to_raw(), 0);
    assert_eq!(TextClusterFlags::Backward.to_raw(), 1);
    assert_eq!(TextClusterFlags::from_raw(1), Some(TextClusterFlags::Backward));
    assert_eq!(TextClusterFlags::from_raw(2), None);
}

#[test]
fn setting_codes_round_trip() {
    for code in -2..10 {
        if let Some(x) = LineJoin::from_raw(code) {
            assert_eq!(x.to_raw(), code);
        }
        if let Some(x) = LineCap::from_raw(code) {
            assert_eq!(x.to_raw(), code);
        }
        if let Some(x) = Antialias::from_raw(code) {
            assert_eq!(x.to_raw(), code);
        }
        if let Some(x) = FillRule::from_raw(code) {
            assert_eq!(x.to_raw(), code);
        }
    }
}
