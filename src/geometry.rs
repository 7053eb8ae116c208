use vstd::prelude::*;

verus! {

/// Height of the panel, in logical units.
pub const PANEL_HEIGHT: u16 = 340;

/// Physical pixels per logical unit, held exactly as the ratio `num / den`.
#[derive(Clone, Copy, Debug, PartialEq, Eq, Structural)]
pub struct Scale {
    pub num: u16,
    pub den: u16,
}

impl Scale {
    /// A scale factor is strictly positive.
    pub open spec fn wf(self) -> bool {
        self.num > 0 && self.den > 0
    }
}

/// A snapshot of one display: size and origin in physical pixels, its scale
/// factor, and whether it is the primary display (the one with the menu bar
/// and the dock).
#[derive(Clone, Copy, Debug, PartialEq, Eq, Structural)]
pub struct Display {
    pub width: u32,
    pub height: u32,
    pub x: i32,
    pub y: i32,
    pub scale: Scale,
    pub is_primary: bool,
}

impl Display {
    pub open spec fn wf(self) -> bool {
        self.scale.wf()
    }
}

/// A coordinate or a length in logical units, held exactly as `num / den`.
#[derive(Clone, Copy, Debug, PartialEq, Eq, Structural)]
pub struct Logical {
    pub num: i64,
    pub den: u16,
}

impl Logical {
    /// The value is the number `n / d`.
    pub open spec fn equals(self, n: int, d: int) -> bool {
        self.num * d == n * self.den
    }
}

/// Where the panel stands on a display, in logical units.
#[derive(Clone, Copy, Debug, PartialEq, Eq, Structural)]
pub struct PanelGeometry {
    pub x: Logical,
    pub y: Logical,
    pub width: Logical,
    pub height: Logical,
}

/// `px` physical pixels on a display of scale `s`, as logical units.
pub open spec fn to_logical(px: int, s: Scale) -> Logical {
    Logical { num: (px * s.den) as i64, den: s.num }
}

/// The panel on display `d`: as wide as the display, `PANEL_HEIGHT` high,
/// its bottom edge on the display's bottom edge.
pub open spec fn geometry_of(d: Display) -> PanelGeometry {
    PanelGeometry {
        x: to_logical(d.x as int, d.scale),
        y: Logical {
            num: ((d.y + d.height) * d.scale.den - PANEL_HEIGHT * d.scale.num) as i64,
            den: d.scale.num,
        },
        width: to_logical(d.width as int, d.scale),
        height: Logical { num: (PANEL_HEIGHT * d.scale.num) as i64, den: d.scale.num },
    }
}

proof fn lemma_product_bounds(a: int, b: int)
    requires
        -0x2_0000_0000 <= a <= 0x2_0000_0000,
        0 <= b <= 0xffff,
    ensures
        -0x2_0000_0000 * 0x1_0000 <= a * b <= 0x2_0000_0000 * 0x1_0000,
{
    assert(-0x2_0000_0000 * 0x1_0000 <= a * b <= 0x2_0000_0000 * 0x1_0000) by (nonlinear_arith)
        requires
            -0x2_0000_0000 <= a <= 0x2_0000_0000,
            0 <= b <= 0xffff,
    ;
}

/// Computes the panel's geometry on display `d`.
pub fn compute(d: &Display) -> (g: PanelGeometry)
    requires
        d.wf(),
    ensures
        g == geometry_of(*d),
{
    let den = d.scale.den as i64;
    let num = d.scale.num as i64;
    proof {
        lemma_product_bounds(d.x as int, den as int);
        lemma_product_bounds(d.width as int, den as int);
        lemma_product_bounds(d.y + d.height, den as int);
        lemma_product_bounds(PANEL_HEIGHT as int, num as int);
    }
    let bottom = (d.y as i64 + d.height as i64) * den;
    let height = PANEL_HEIGHT as i64 * num;
    PanelGeometry {
        x: Logical { num: d.x as i64 * den, den: d.scale.num },
        y: Logical { num: bottom - height, den: d.scale.num },
        width: Logical { num: d.width as i64 * den, den: d.scale.num },
        height: Logical { num: height, den: d.scale.num },
    }
}

/// The panel spans the display's full width: its width times the scale
/// factor is the display's width in pixels; its height is `PANEL_HEIGHT`.
pub proof fn lemma_full_width(d: Display)
    requires
        d.wf(),
    ensures
        geometry_of(d).width.num * d.scale.num == d.width * d.scale.den * geometry_of(d).width.den,
        geometry_of(d).height.equals(PANEL_HEIGHT as int, 1),
{
    let g = geometry_of(d);
    lemma_product_bounds(d.width as int, d.scale.den as int);
    lemma_product_bounds(PANEL_HEIGHT as int, d.scale.num as int);
    assert(g.width.num * d.scale.num == d.width * d.scale.den * g.width.den) by (nonlinear_arith)
        requires
            g.width.num == d.width * d.scale.den,
            g.width.den == d.scale.num,
    ;
}

/// The panel's bottom edge, `y + height`, lies on the display's bottom edge,
/// `origin.y / scale + height_px / scale`.
pub proof fn lemma_bottom_anchored(d: Display)
    requires
        d.wf(),
    ensures
        geometry_of(d).y.den == geometry_of(d).height.den,
        (geometry_of(d).y.num + geometry_of(d).height.num) * d.scale.num == (d.y + d.height)
            * d.scale.den * geometry_of(d).y.den,
{
    let g = geometry_of(d);
    lemma_product_bounds(d.y + d.height, d.scale.den as int);
    lemma_product_bounds(PANEL_HEIGHT as int, d.scale.num as int);
    assert((g.y.num + g.height.num) * d.scale.num == (d.y + d.height) * d.scale.den * g.y.den)
        by (nonlinear_arith)
        requires
            g.y.num + g.height.num == (d.y + d.height) * d.scale.den,
            g.y.den == d.scale.num,
    ;
}

} // verus!
