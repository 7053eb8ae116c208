use vstd::prelude::*;
use vstd::string::StringExecFns;
use crate::geometry::{compute, geometry_of, Display};
use crate::monitor::{all_wf, resolve_primary, resolved};
use crate::surface::{PanelConfig, SurfaceCommand, SurfaceState, PANEL_LEVEL};

verus! {

/// Why a panel operation could not be carried out.
#[derive(Clone, Copy, Debug, PartialEq, Eq, Structural)]
pub enum PanelError {
    /// No display was found to place the panel on at creation.
    NoDisplay,
    /// No surface carries the panel's label.
    SurfaceMissing,
}

impl PanelError {
    /// A message that says what went wrong, for logs and menus.
    pub fn message(&self) -> (r: String)
        ensures
            r@ == match *self {
                PanelError::NoDisplay => "No display found to place the panel on"@,
                PanelError::SurfaceMissing => "No panel surface is open"@,
            },
    {
        match self {
            PanelError::NoDisplay => String::from_str("No display found to place the panel on"),
            PanelError::SurfaceMissing => String::from_str("No panel surface is open"),
        }
    }
}

/// The outcome of a toggle: the visibility after it, and the commands that
/// bring the surface there.
#[derive(Debug)]
pub struct Transition {
    pub visible: bool,
    pub commands: Vec<SurfaceCommand>,
}

/// How the panel is created on display `d`: borderless, transparent, always
/// on top, hidden, off the taskbar, fixed in size, above the dock.
pub open spec fn initial_config(d: Display) -> PanelConfig {
    PanelConfig {
        geometry: geometry_of(d),
        decorations: false,
        transparent: true,
        always_on_top: true,
        visible: false,
        skip_taskbar: true,
        resizable: false,
        level: PANEL_LEVEL,
    }
}

/// Repositioning the panel: the frame for the resolved display, if any.
pub open spec fn reposition_command(ds: Seq<Display>) -> Option<SurfaceCommand> {
    match resolved(ds) {
        Some(d) => Some(SurfaceCommand::SetFrame(geometry_of(d))),
        None => None,
    }
}

/// Showing the panel: place it on the resolved display when there is one,
/// then raise it as the key window.
pub open spec fn show_commands(ds: Seq<Display>) -> Seq<SurfaceCommand> {
    match resolved(ds) {
        Some(d) => seq![SurfaceCommand::SetFrame(geometry_of(d)), SurfaceCommand::OrderFrontAsKey],
        None => seq![SurfaceCommand::OrderFrontAsKey],
    }
}

/// Hiding the panel: order it out.
pub open spec fn hide_commands() -> Seq<SurfaceCommand> {
    seq![SurfaceCommand::OrderOut]
}

/// Toggling a surface whose live visibility is `visible`.
pub open spec fn toggle_commands(visible: bool, ds: Seq<Display>) -> Seq<SurfaceCommand> {
    if visible {
        hide_commands()
    } else {
        show_commands(ds)
    }
}

/// Plans the creation of the panel surface on the display that the resolver
/// picks among `displays`.
pub fn init_panel(displays: &Vec<Display>) -> (r: Result<PanelConfig, PanelError>)
    requires
        all_wf(displays@),
    ensures
        match resolved(displays@) {
            Some(d) => r == Ok::<PanelConfig, PanelError>(initial_config(d)),
            None => r == Err::<PanelConfig, PanelError>(PanelError::NoDisplay),
        },
{
    match resolve_primary(displays) {
        Some(d) => {
            proof {
                lemma_resolved_is_listed(displays@);
            }
            Ok(
                PanelConfig {
                    geometry: compute(&d),
                    decorations: false,
                    transparent: true,
                    always_on_top: true,
                    visible: false,
                    skip_taskbar: true,
                    resizable: false,
                    level: PANEL_LEVEL,
                },
            )
        },
        None => Err(PanelError::NoDisplay),
    }
}

/// The resolved display is one of the list.
proof fn lemma_resolved_is_listed(ds: Seq<Display>)
    requires
        all_wf(ds),
    ensures
        resolved(ds) matches Some(d) ==> d.wf(),
{
    lemma_primary_from_is_listed(ds, 0);
    if ds.len() > 0 {
        assert(ds[0].wf());
    }
}

proof fn lemma_primary_from_is_listed(ds: Seq<Display>, i: int)
    requires
        all_wf(ds),
        0 <= i,
    ensures
        crate::monitor::primary_from(ds, i) matches Some(d) ==> d.wf(),
    decreases ds.len() - i,
{
    if i < ds.len() {
        assert(ds[i].wf());
        lemma_primary_from_is_listed(ds, i + 1);
    }
}

/// Plans showing the panel. `surface` is the live visibility of the panel
/// surface, `None` when no surface carries the panel's label. Without a
/// display the panel is shown where it last stood.
pub fn show_panel(surface: Option<bool>, displays: &Vec<Display>) -> (r: Result<
    Vec<SurfaceCommand>,
    PanelError,
>)
    requires
        all_wf(displays@),
    ensures
        surface is None ==> r == Err::<Vec<SurfaceCommand>, PanelError>(PanelError::SurfaceMissing),
        surface is Some ==> (r matches Ok(cs) && cs@ == show_commands(displays@)),
{
    if surface.is_none() {
        return Err(PanelError::SurfaceMissing);
    }
    Ok(show_plan(displays))
}

/// Plans repositioning the panel on the display that the resolver picks;
/// `None` when there is no display, and the panel stays where it stood.
pub fn reposition(displays: &Vec<Display>) -> (r: Option<SurfaceCommand>)
    requires
        all_wf(displays@),
    ensures
        r == reposition_command(displays@),
{
    match resolve_primary(displays) {
        Some(d) => {
            proof {
                lemma_resolved_is_listed(displays@);
            }
            Some(SurfaceCommand::SetFrame(compute(&d)))
        },
        None => None,
    }
}

fn show_plan(displays: &Vec<Display>) -> (cs: Vec<SurfaceCommand>)
    requires
        all_wf(displays@),
    ensures
        cs@ == show_commands(displays@),
{
    let mut cs: Vec<SurfaceCommand> = Vec::new();
    match reposition(displays) {
        Some(c) => cs.push(c),
        None => {},
    }
    cs.push(SurfaceCommand::OrderFrontAsKey);
    proof {
        assert(cs@ =~= show_commands(displays@));
    }
    cs
}

/// Plans hiding the panel. `surface` is as for `show_panel`.
pub fn hide_panel(surface: Option<bool>) -> (r: Result<Vec<SurfaceCommand>, PanelError>)
    ensures
        surface is None ==> r == Err::<Vec<SurfaceCommand>, PanelError>(PanelError::SurfaceMissing),
        surface is Some ==> (r matches Ok(cs) && cs@ == hide_commands()),
{
    if surface.is_none() {
        return Err(PanelError::SurfaceMissing);
    }
    let mut cs: Vec<SurfaceCommand> = Vec::new();
    cs.push(SurfaceCommand::OrderOut);
    proof {
        assert(cs@ =~= hide_commands());
    }
    Ok(cs)
}

/// Plans toggling the panel from its live visibility: hide a visible surface,
/// show a hidden one. The result reports the visibility after the toggle.
pub fn toggle_panel(surface: Option<bool>, displays: &Vec<Display>) -> (r: Result<
    Transition,
    PanelError,
>)
    requires
        all_wf(displays@),
    ensures
        surface is None ==> r == Err::<Transition, PanelError>(PanelError::SurfaceMissing),
        surface matches Some(v) ==> (r matches Ok(t) && t.visible == !v && t.commands@
            == toggle_commands(v, displays@)),
{
    match surface {
        None => Err(PanelError::SurfaceMissing),
        Some(visible) => {
            if visible {
                match hide_panel(surface) {
                    Ok(cs) => Ok(Transition { visible: false, commands: cs }),
                    Err(e) => Err(e),
                }
            } else {
                match show_panel(surface, displays) {
                    Ok(cs) => Ok(Transition { visible: true, commands: cs }),
                    Err(e) => Err(e),
                }
            }
        },
    }
}

proof fn lemma_after_one(s: SurfaceState, a: SurfaceCommand)
    ensures
        s.after_all(seq![a]) == s.after(a),
{
    let cs = seq![a];
    assert(cs.drop_last() =~= Seq::<SurfaceCommand>::empty());
    assert(s.after_all(cs.drop_last()) == s);
    assert(cs.last() == a);
}

proof fn lemma_after_two(s: SurfaceState, a: SurfaceCommand, b: SurfaceCommand)
    ensures
        s.after_all(seq![a, b]) == s.after(a).after(b),
{
    let cs = seq![a, b];
    assert(cs.drop_last() =~= seq![a]);
    assert(cs.last() == b);
    lemma_after_one(s, a);
}

/// What showing does to any surface: it ends visible and key, on the frame of
/// the resolved display when there is one and on its old frame otherwise.
pub proof fn lemma_show_effect(s: SurfaceState, ds: Seq<Display>)
    ensures
        s.after_all(show_commands(ds)) == (match resolved(ds) {
            Some(d) => SurfaceState { visible: true, key: true, frame: geometry_of(d), ..s },
            None => SurfaceState { visible: true, key: true, ..s },
        }),
{
    match resolved(ds) {
        Some(d) => lemma_after_two(
            s,
            SurfaceCommand::SetFrame(geometry_of(d)),
            SurfaceCommand::OrderFrontAsKey,
        ),
        None => lemma_after_one(s, SurfaceCommand::OrderFrontAsKey),
    }
}

/// What hiding does to any surface: it ends hidden and not key, nothing else
/// changed.
pub proof fn lemma_hide_effect(s: SurfaceState)
    ensures
        s.after_all(hide_commands()) == (SurfaceState { visible: false, key: false, ..s }),
{
    lemma_after_one(s, SurfaceCommand::OrderOut);
}

/// Repositioning leaves visibility and focus alone, and doing it a second
/// time on the same displays changes nothing more.
pub proof fn lemma_reposition_idempotent(s: SurfaceState, ds: Seq<Display>)
    ensures
        reposition_command(ds) matches Some(c) ==> {
            &&& s.after(c).after(c) == s.after(c)
            &&& s.after(c).visible == s.visible
            &&& s.after(c).key == s.key
        },
{
}

/// A toggle reports what the surface shows right after it: once its commands
/// are applied, the surface is visible exactly when it was hidden before.
pub proof fn lemma_toggle_reports_visibility(s: SurfaceState, ds: Seq<Display>)
    ensures
        s.after_all(toggle_commands(s.visible, ds)).visible == !s.visible,
{
    lemma_show_effect(s, ds);
    lemma_hide_effect(s);
}

/// Toggling twice from a hidden surface shows it, then hides it again,
/// whatever displays each toggle sees.
pub proof fn lemma_toggle_twice(s: SurfaceState, ds1: Seq<Display>, ds2: Seq<Display>)
    requires
        !s.visible,
    ensures
        ({
            let s1 = s.after_all(toggle_commands(s.visible, ds1));
            let s2 = s1.after_all(toggle_commands(s1.visible, ds2));
            s1.visible && !s2.visible
        }),
{
    let s1 = s.after_all(toggle_commands(s.visible, ds1));
    lemma_toggle_reports_visibility(s, ds1);
    lemma_toggle_reports_visibility(s1, ds2);
}

/// Showing twice in a row leaves the surface visible and key both times.
pub proof fn lemma_show_twice(s: SurfaceState, ds1: Seq<Display>, ds2: Seq<Display>)
    ensures
        ({
            let s1 = s.after_all(show_commands(ds1));
            let s2 = s1.after_all(show_commands(ds2));
            s1.visible && s1.key && s2.visible && s2.key
        }),
{
    let s1 = s.after_all(show_commands(ds1));
    lemma_show_effect(s, ds1);
    lemma_show_effect(s1, ds2);
}

/// Hiding twice in a row leaves the surface hidden both times, and the second
/// hide changes nothing.
pub proof fn lemma_hide_twice(s: SurfaceState)
    ensures
        ({
            let s1 = s.after_all(hide_commands());
            let s2 = s1.after_all(hide_commands());
            !s1.visible && !s2.visible && s2 == s1
        }),
{
    let s1 = s.after_all(hide_commands());
    lemma_hide_effect(s);
    lemma_hide_effect(s1);
}

/// With no display, nothing is resolved, and showing still shows the surface
/// where it stood.
pub proof fn lemma_show_without_display(s: SurfaceState, ds: Seq<Display>)
    requires
        ds.len() == 0,
    ensures
        resolved(ds) is None,
        s.after_all(show_commands(ds)) == (SurfaceState { visible: true, key: true, ..s }),
{
    lemma_show_effect(s, ds);
}

/// A panel just created from its initial configuration is hidden, not key,
/// at the level above the dock, on the geometry of its display.
pub proof fn lemma_created_hidden(d: Display)
    ensures
        SurfaceState::created_with(initial_config(d)) == (SurfaceState {
            visible: false,
            key: false,
            frame: geometry_of(d),
            level: PANEL_LEVEL,
        }),
{
}

} // verus!
