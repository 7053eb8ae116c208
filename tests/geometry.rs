use macpaste::geometry::{compute, Display, Logical, Scale, PANEL_HEIGHT};
use macpaste::monitor::resolve_primary;

fn display(width: u32, height: u32, x: i32, y: i32, num: u16, den: u16, is_primary: bool) -> Display {
    Display { width, height, x, y, scale: Scale { num, den }, is_primary }
}

fn value(l: Logical) -> f64 {
    l.num as f64 / l.den as f64
}

#[test]
fn retina_display_geometry() {
    let d = display(1920, 1080, 0, 0, 2, 1, true);
    let g = compute(&d);
    assert_eq!(value(g.x), 0.0);
    assert_eq!(value(g.y), 200.0);
    assert_eq!(value(g.width), 960.0);
    assert_eq!(value(g.height), 340.0);
    assert_eq!(PANEL_HEIGHT, 340);
}

#[test]
fn width_times_scale_is_display_width() {
    let d = display(2560, 1440, 0, 0, 3, 2, true);
    let g = compute(&d);
    let scale = 1.5;
    assert!((value(g.width) * scale - 2560.0).abs() < 1e-9);
    assert_eq!(value(g.height), 340.0);
}

#[test]
fn bottom_edges_align_with_offset_origin() {
    let d = display(3000, 2000, -1500, 1000, 5, 4, false);
    let g = compute(&d);
    let scale = 1.25;
    assert_eq!(value(g.x), -1200.0);
    assert_eq!(value(g.y) + value(g.height), 1000.0 / scale + 2000.0 / scale);
    assert_eq!(value(g.y), 2400.0 - 340.0);
}

#[test]
fn unit_scale_geometry_is_in_pixels() {
    let d = display(1440, 900, 0, 0, 1, 1, true);
    let g = compute(&d);
    assert_eq!(g.width, Logical { num: 1440, den: 1 });
    assert_eq!(g.y, Logical { num: 560, den: 1 });
}

#[test]
fn no_display_resolves_to_nothing() {
    assert_eq!(resolve_primary(&vec![]), None);
}

#[test]
fn primary_flag_wins_over_list_order() {
    let first = display(1920, 1080, 0, 0, 1, 1, false);
    let second = display(2560, 1440, 1920, 0, 2, 1, true);
    assert_eq!(resolve_primary(&vec![first, second]), Some(second));
}

#[test]
fn first_display_without_primary_flag() {
    let first = display(1920, 1080, 0, 0, 1, 1, false);
    let second = display(2560, 1440, 1920, 0, 2, 1, false);
    assert_eq!(resolve_primary(&vec![first, second]), Some(first));
}

#[test]
fn first_flagged_display_of_several() {
    let a = display(800, 600, 0, 0, 1, 1, false);
    let b = display(1024, 768, 800, 0, 1, 1, true);
    let c = display(1280, 720, 1824, 0, 1, 1, true);
    assert_eq!(resolve_primary(&vec![a, b, c]), Some(b));
}
