use macpaste::geometry::{compute, Display, Scale};
use macpaste::panel::{hide_panel, init_panel, reposition, show_panel, toggle_panel, PanelError};
use macpaste::surface::{PanelConfig, SurfaceCommand, SurfaceState, PANEL_LABEL, PANEL_LEVEL};

fn retina() -> Display {
    Display { width: 1920, height: 1080, x: 0, y: 0, scale: Scale { num: 2, den: 1 }, is_primary: true }
}

fn external() -> Display {
    Display { width: 2560, height: 1440, x: 1920, y: 0, scale: Scale { num: 1, den: 1 }, is_primary: false }
}

fn created() -> SurfaceState {
    let config = init_panel(&vec![retina()]).unwrap();
    SurfaceState::created(&config)
}

#[test]
fn init_builds_hidden_floating_panel() {
    let config = init_panel(&vec![external(), retina()]).unwrap();
    let expected = PanelConfig {
        geometry: compute(&retina()),
        decorations: false,
        transparent: true,
        always_on_top: true,
        visible: false,
        skip_taskbar: true,
        resizable: false,
        level: 25,
    };
    assert_eq!(config, expected);
    assert_eq!(PANEL_LEVEL, 25);
    assert_eq!(PANEL_LABEL, "panel");
    let s = SurfaceState::created(&config);
    assert!(!s.visible);
    assert!(!s.key);
    assert_eq!(s.frame, compute(&retina()));
    assert_eq!(s.level, 25);
}

#[test]
fn init_without_display_fails() {
    assert_eq!(init_panel(&vec![]), Err(PanelError::NoDisplay));
}

#[test]
fn show_repositions_then_raises() {
    let cs = show_panel(Some(false), &vec![retina()]).unwrap();
    assert_eq!(cs, vec![SurfaceCommand::SetFrame(compute(&retina())), SurfaceCommand::OrderFrontAsKey]);
}

#[test]
fn show_without_display_still_shows() {
    let cs = show_panel(Some(false), &vec![]).unwrap();
    assert_eq!(cs, vec![SurfaceCommand::OrderFrontAsKey]);
    let mut s = created();
    let before = s.frame;
    s.apply_all(&cs);
    assert!(s.visible);
    assert!(s.key);
    assert_eq!(s.frame, before);
}

#[test]
fn show_twice_stays_visible() {
    let mut s = created();
    let first = show_panel(Some(s.visible), &vec![retina()]).unwrap();
    s.apply_all(&first);
    assert!(s.visible && s.key);
    let second = show_panel(Some(s.visible), &vec![external()]).unwrap();
    s.apply_all(&second);
    assert!(s.visible && s.key);
    assert_eq!(s.frame, compute(&external()));
}

#[test]
fn hide_twice_stays_hidden() {
    let mut s = created();
    s.apply_all(&show_panel(Some(false), &vec![retina()]).unwrap());
    let cs = hide_panel(Some(s.visible)).unwrap();
    assert_eq!(cs, vec![SurfaceCommand::OrderOut]);
    s.apply_all(&cs);
    assert!(!s.visible);
    let after_first = s;
    s.apply_all(&hide_panel(Some(s.visible)).unwrap());
    assert!(!s.visible);
    assert_eq!(s, after_first);
}

#[test]
fn toggle_twice_returns_to_hidden() {
    let mut s = created();
    let t1 = toggle_panel(Some(s.visible), &vec![retina()]).unwrap();
    s.apply_all(&t1.commands);
    assert!(t1.visible);
    assert_eq!(s.visible, t1.visible);
    let t2 = toggle_panel(Some(s.visible), &vec![retina()]).unwrap();
    s.apply_all(&t2.commands);
    assert!(!t2.visible);
    assert_eq!(s.visible, t2.visible);
}

#[test]
fn toggle_follows_live_visibility() {
    let t = toggle_panel(Some(true), &vec![retina()]).unwrap();
    assert!(!t.visible);
    assert_eq!(t.commands, vec![SurfaceCommand::OrderOut]);
}

#[test]
fn missing_surface_is_an_error() {
    assert_eq!(show_panel(None, &vec![retina()]), Err(PanelError::SurfaceMissing));
    assert_eq!(hide_panel(None), Err(PanelError::SurfaceMissing));
    assert!(matches!(toggle_panel(None, &vec![retina()]), Err(PanelError::SurfaceMissing)));
}

#[test]
fn error_messages() {
    assert_eq!(PanelError::NoDisplay.message(), "No display found to place the panel on");
    assert_eq!(PanelError::SurfaceMissing.message(), "No panel surface is open");
}

#[test]
fn reposition_uses_resolved_display() {
    assert_eq!(reposition(&vec![external(), retina()]), Some(SurfaceCommand::SetFrame(compute(&retina()))));
    assert_eq!(reposition(&vec![]), None);
}
