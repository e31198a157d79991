//! Element geometry in integer layout units: bounding rectangles, the
//! normalised slide position under the mouse, and the flip-if-offscreen
//! placement rule.
use vstd::prelude::*;

verus! {

/// A bounding rectangle in layout units, with the edges the host reports.
#[derive(PartialEq, Eq, Structural, Clone, Copy, Debug)]
pub struct Rect {
    pub top: i32,
    pub right: i32,
    pub bottom: i32,
    pub left: i32,
}

impl Rect {
    /// Width including padding and border: right edge minus left edge.
    pub fn width(&self) -> (r: i64)
        ensures
            r == self.right - self.left,
    {
        self.right as i64 - self.left as i64
    }

    /// Height including padding and border: bottom edge minus top edge.
    pub fn height(&self) -> (r: i64)
        ensures
            r == self.bottom - self.top,
    {
        self.bottom as i64 - self.top as i64
    }
}

/// The rational number `num / den`.
#[derive(PartialEq, Eq, Structural, Clone, Copy, Debug)]
pub struct Fraction {
    pub num: i64,
    pub den: i64,
}

pub open spec fn clamp(v: int, lo: int, hi: int) -> int {
    if v < lo { lo } else if v > hi { hi } else { v }
}

/// `clamp((x - left) / width, 0, 1)` as a pair (numerator, denominator)
/// with a positive denominator. A zero width divides to an infinity of the
/// sign of `x - left`, which clamps to 0 or 1; at `x == left` the quotient is
/// undefined and there is no position.
pub open spec fn slide_spec(x: int, left: int, width: int) -> Option<(int, int)> {
    let n = if width < 0 { left - x } else { x - left };
    let w = if width < 0 { -width } else { width };
    if w == 0 {
        if n > 0 {
            Some((1, 1))
        } else if n < 0 {
            Some((0, 1))
        } else {
            None
        }
    } else {
        Some((clamp(n, 0, w), w))
    }
}

/// For an element of positive width the slide position is the offset from
/// the left edge clamped to the element, over the width: that is
/// `clamp((x - left) / width, 0, 1)`, exactly.
pub proof fn law_slide_position_is_clamped_ratio(x: int, left: int, width: int)
    requires
        width > 0,
    ensures
        slide_spec(x, left, width) == Some((clamp(x - left, 0, width), width)),
        0 <= clamp(x - left, 0, width) <= width,
        x - left <= 0 ==> clamp(x - left, 0, width) == 0,
        x - left >= width ==> clamp(x - left, 0, width) == width,
{
}

/// Where the mouse at horizontal position `mouse_x` is along the element
/// `rect`, from 0 at the left edge to 1 at the right edge, clamped to that
/// range.
pub fn slide_position(mouse_x: i32, rect: &Rect) -> (r: Option<Fraction>)
    ensures
        slide_spec(mouse_x as int, rect.left as int, rect.right - rect.left) matches Some(p)
            ==> r matches Some(f) && f.num == p.0 && f.den == p.1,
        slide_spec(mouse_x as int, rect.left as int, rect.right - rect.left) is None
            ==> r is None,
        r matches Some(f) ==> 0 <= f.num <= f.den && f.den > 0,
{
    let width = rect.width();
    let offset = mouse_x as i64 - rect.left as i64;
    let (n, w) = if width < 0 { (-offset, -width) } else { (offset, width) };
    if w == 0 {
        if n > 0 {
            Some(Fraction { num: 1, den: 1 })
        } else if n < 0 {
            Some(Fraction { num: 0, den: 1 })
        } else {
            None
        }
    } else if n < 0 {
        Some(Fraction { num: 0, den: w })
    } else if n > w {
        Some(Fraction { num: w, den: w })
    } else {
        Some(Fraction { num: n, den: w })
    }
}

/// A side of a box, as named by the positional style properties.
#[derive(PartialEq, Eq, Structural, Clone, Copy, Debug)]
pub enum Side {
    Top,
    Right,
    Bottom,
    Left,
}

/// A positional property handed to the flip rule: the spacing between the
/// parent and the element, on a side, in layout units. Anything the rule
/// cannot read (another unit, another property) is `Unsupported`.
#[derive(PartialEq, Eq, Structural, Clone, Copy, Debug)]
pub enum Offset {
    Px { side: Side, amount: i32 },
    Unsupported,
}

/// A positional property the flip rule sets: `side` at
/// `100% + extra` layout units.
#[derive(PartialEq, Eq, Structural, Clone, Copy, Debug)]
pub struct Anchor {
    pub side: Side,
    pub extra: i64,
}

/// What the flip rule decided: the positional properties to set, vertical
/// first, and for each axis whether its spacing was given but could not be
/// read (the host warns about those and leaves the axis alone).
pub struct FlipPlan {
    pub style: Vec<Anchor>,
    pub unsupported_vertical: bool,
    pub unsupported_horizontal: bool,
}

/// The vertical rule. Spacing from the top places the element below its
/// parent, unless its bottom would then pass the window's bottom edge: then
/// it is placed above. Spacing from the bottom places it above, unless its
/// top would then pass the window's top edge: then it is placed below.
pub open spec fn vertical_anchor(spacing: Offset, parent: Rect, own_height: int, window_height: int) -> Option<Anchor> {
    match spacing {
        Offset::Px { side: Side::Top, amount } => Some(Anchor {
            side: if parent.bottom + amount + own_height > window_height { Side::Bottom } else { Side::Top },
            extra: amount as i64,
        }),
        Offset::Px { side: Side::Bottom, amount } => Some(Anchor {
            side: if parent.top - amount - own_height < 0 { Side::Top } else { Side::Bottom },
            extra: amount as i64,
        }),
        _ => None,
    }
}

/// The horizontal rule, the same on the other axis, except that the
/// distance is `100%` less the spacing.
pub open spec fn horizontal_anchor(spacing: Offset, parent: Rect, own_width: int, window_width: int) -> Option<Anchor> {
    match spacing {
        Offset::Px { side: Side::Left, amount } => Some(Anchor {
            side: if parent.right + amount + own_width > window_width { Side::Right } else { Side::Left },
            extra: -amount as i64,
        }),
        Offset::Px { side: Side::Right, amount } => Some(Anchor {
            side: if parent.left - amount - own_width < 0 { Side::Left } else { Side::Right },
            extra: -amount as i64,
        }),
        _ => None,
    }
}

pub open spec fn anchors_of(a: Option<Offset>, rule: spec_fn(Offset) -> Option<Anchor>) -> Seq<Anchor> {
    match a {
        Some(o) => match rule(o) {
            Some(anchor) => seq![anchor],
            None => Seq::empty(),
        },
        None => Seq::empty(),
    }
}

fn vertical(spacing: Offset, parent: &Rect, own_height: i64, window_height: i64) -> (r: Option<Anchor>)
    requires
        -0x1_0000_0000 <= own_height <= 0x1_0000_0000,
    ensures
        r == vertical_anchor(spacing, *parent, own_height as int, window_height as int),
{
    match spacing {
        Offset::Px { side: Side::Top, amount } => {
            let side = if parent.bottom as i64 + amount as i64 + own_height > window_height {
                Side::Bottom
            } else {
                Side::Top
            };
            Some(Anchor { side, extra: amount as i64 })
        },
        Offset::Px { side: Side::Bottom, amount } => {
            let side = if parent.top as i64 - amount as i64 - own_height < 0 {
                Side::Top
            } else {
                Side::Bottom
            };
            Some(Anchor { side, extra: amount as i64 })
        },
        _ => None,
    }
}

fn horizontal(spacing: Offset, parent: &Rect, own_width: i64, window_width: i64) -> (r: Option<Anchor>)
    requires
        -0x1_0000_0000 <= own_width <= 0x1_0000_0000,
    ensures
        r == horizontal_anchor(spacing, *parent, own_width as int, window_width as int),
{
    match spacing {
        Offset::Px { side: Side::Left, amount } => {
            let side = if parent.right as i64 + amount as i64 + own_width > window_width {
                Side::Right
            } else {
                Side::Left
            };
            Some(Anchor { side, extra: -(amount as i64) })
        },
        Offset::Px { side: Side::Right, amount } => {
            let side = if parent.left as i64 - amount as i64 - own_width < 0 {
                Side::Left
            } else {
                Side::Right
            };
            Some(Anchor { side, extra: -(amount as i64) })
        },
        _ => None,
    }
}

/// Flips an element to the other side of its parent where it would
/// otherwise leave the window, given the preferred vertical and horizontal
/// spacing, the parent's and the element's bounding rectangles and the
/// window's inner size. The result is also the element's preferred
/// position, so the host sets it as the element's whole positional style.
pub fn flip_if_offscreen(
    spacing_v: Option<Offset>,
    spacing_h: Option<Offset>,
    parent: &Rect,
    own: &Rect,
    window_width: i64,
    window_height: i64,
) -> (r: FlipPlan)
    ensures
        r.style@ == anchors_of(
            spacing_v,
            |o: Offset| vertical_anchor(o, *parent, own.bottom - own.top, window_height as int),
        ) + anchors_of(
            spacing_h,
            |o: Offset| horizontal_anchor(o, *parent, own.right - own.left, window_width as int),
        ),
        r.unsupported_vertical == (spacing_v matches Some(o) && vertical_anchor(
            o,
            *parent,
            own.bottom - own.top,
            window_height as int,
        ) is None),
        r.unsupported_horizontal == (spacing_h matches Some(o) && horizontal_anchor(
            o,
            *parent,
            own.right - own.left,
            window_width as int,
        ) is None),
{
    let own_height = own.height();
    let own_width = own.width();
    let mut style: Vec<Anchor> = Vec::new();
    let mut unsupported_vertical = false;
    let mut unsupported_horizontal = false;
    if let Some(v) = spacing_v {
        match vertical(v, parent, own_height, window_height) {
            Some(anchor) => style.push(anchor),
            None => unsupported_vertical = true,
        }
    }
    let ghost after_vertical = style@;
    if let Some(h) = spacing_h {
        match horizontal(h, parent, own_width, window_width) {
            Some(anchor) => style.push(anchor),
            None => unsupported_horizontal = true,
        }
    }
    proof {
        assert(after_vertical == anchors_of(
            spacing_v,
            |o: Offset| vertical_anchor(o, *parent, own.bottom - own.top, window_height as int),
        ));
    }
    FlipPlan { style, unsupported_vertical, unsupported_horizontal }
}

} // verus!
