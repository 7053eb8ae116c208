use vstd::prelude::*;
use crate::geometry::PanelGeometry;

verus! {

/// Label of the one panel surface of the process.
pub const PANEL_LABEL: &'static str = "panel";

/// Window level of the panel: one above the main menu level, so that the
/// panel floats over the dock.
pub const PANEL_LEVEL: i32 = 25;

/// How the panel surface is created: where it stands, its decoration flags
/// and its window level once it is converted into a floating panel.
#[derive(Clone, Copy, Debug, PartialEq, Eq, Structural)]
pub struct PanelConfig {
    pub geometry: PanelGeometry,
    pub decorations: bool,
    pub transparent: bool,
    pub always_on_top: bool,
    pub visible: bool,
    pub skip_taskbar: bool,
    pub resizable: bool,
    pub level: i32,
}

/// An operation on the live panel surface.
#[derive(Clone, Copy, Debug, PartialEq, Eq, Structural)]
pub enum SurfaceCommand {
    /// Give the surface this size and position.
    SetFrame(PanelGeometry),
    /// Raise the surface and make it the key window, with keyboard focus.
    OrderFrontAsKey,
    /// Take the surface out of the window order without activating another
    /// window of the application.
    OrderOut,
}

/// The observable state of the panel surface.
#[derive(Clone, Copy, Debug, PartialEq, Eq, Structural)]
pub struct SurfaceState {
    pub visible: bool,
    pub key: bool,
    pub frame: PanelGeometry,
    pub level: i32,
}

impl SurfaceState {
    /// The state after one command.
    pub open spec fn after(self, c: SurfaceCommand) -> SurfaceState {
        match c {
            SurfaceCommand::SetFrame(g) => SurfaceState { frame: g, ..self },
            SurfaceCommand::OrderFrontAsKey => SurfaceState { visible: true, key: true, ..self },
            SurfaceCommand::OrderOut => SurfaceState { visible: false, key: false, ..self },
        }
    }

    /// The state after the commands, in their order.
    pub open spec fn after_all(self, cs: Seq<SurfaceCommand>) -> SurfaceState
        decreases cs.len(),
    {
        if cs.len() == 0 {
            self
        } else {
            self.after_all(cs.drop_last()).after(cs.last())
        }
    }

    /// The state of a surface just created and converted with `config`.
    pub open spec fn created_with(config: PanelConfig) -> SurfaceState {
        SurfaceState {
            visible: config.visible,
            key: false,
            frame: config.geometry,
            level: config.level,
        }
    }

    pub fn created(config: &PanelConfig) -> (s: SurfaceState)
        ensures
            s == SurfaceState::created_with(*config),
    {
        SurfaceState { visible: config.visible, key: false, frame: config.geometry, level: config.level }
    }

    pub fn apply(&mut self, c: &SurfaceCommand)
        ensures
            *final(self) == old(self).after(*c),
    {
        match c {
            SurfaceCommand::SetFrame(g) => {
                self.frame = *g;
            },
            SurfaceCommand::OrderFrontAsKey => {
                self.visible = true;
                self.key = true;
            },
            SurfaceCommand::OrderOut => {
                self.visible = false;
                self.key = false;
            },
        }
    }

    pub fn apply_all(&mut self, cs: &Vec<SurfaceCommand>)
        ensures
            *final(self) == old(self).after_all(cs@),
    {
        let n = cs.len();
        let mut i: usize = 0;
        while i < n
            invariant
                n == cs@.len(),
                0 <= i <= n,
                *self == old(self).after_all(cs@.subrange(0, i as int)),
            decreases n - i,
        {
            proof {
                assert(cs@.subrange(0, i + 1).drop_last() =~= cs@.subrange(0, i as int));
            }
            self.apply(&cs[i]);
            i = i + 1;
        }
        proof {
            assert(cs@.subrange(0, n as int) =~= cs@);
        }
    }
}

} // verus!
