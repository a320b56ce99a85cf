use vstd::prelude::*;

use crate::text::same_text;

verus! {

/// Distance in pixels between an overlay and the frame edges it is pinned to.
pub const OVERLAY_MARGIN: u32 = 20;

/// The corner of the frame that a picture-in-picture overlay is pinned to.
#[derive(Clone, Copy, Debug, PartialEq, Eq, Structural)]
pub enum Corner {
    TopLeft,
    TopRight,
    BottomLeft,
    BottomRight,
}

impl Corner {
    pub open spec fn is_right(self) -> bool {
        self is TopRight || self is BottomRight
    }

    pub open spec fn is_bottom(self) -> bool {
        self is BottomLeft || self is BottomRight
    }
}

/// Offset along one axis: the margin from the near edge, or from the far edge.
pub open spec fn axis_offset(frame: int, overlay: int, margin: int, far: bool) -> int {
    if far { frame - overlay - margin } else { margin }
}

/// Horizontal offset of an overlay of width `overlay_w` in a frame of width `frame_w`.
pub fn overlay_x(corner: Corner, frame_w: u32, overlay_w: u32, margin: u32) -> (x: u32)
    requires
        overlay_w + margin <= frame_w,
    ensures
        x == axis_offset(frame_w as int, overlay_w as int, margin as int, corner.is_right()),
{
    match corner {
        Corner::TopRight | Corner::BottomRight => frame_w - overlay_w - margin,
        _ => margin,
    }
}

/// Vertical offset of an overlay of height `overlay_h` in a frame of height `frame_h`.
pub fn overlay_y(corner: Corner, frame_h: u32, overlay_h: u32, margin: u32) -> (y: u32)
    requires
        overlay_h + margin <= frame_h,
    ensures
        y == axis_offset(frame_h as int, overlay_h as int, margin as int, corner.is_bottom()),
{
    match corner {
        Corner::BottomLeft | Corner::BottomRight => frame_h - overlay_h - margin,
        _ => margin,
    }
}

impl Corner {
    /// The corner's name as the user interface writes it.
    pub open spec fn name_spec(self) -> Seq<char> {
        match self {
            Corner::TopLeft => "top-left"@,
            Corner::TopRight => "top-right"@,
            Corner::BottomLeft => "bottom-left"@,
            Corner::BottomRight => "bottom-right"@,
        }
    }

    /// Reads a corner from its name; any other text names no corner.
    pub fn parse(s: &str) -> (r: Option<Corner>)
        ensures
            match r {
                Some(c) => c.name_spec() == s@,
                None => forall|c: Corner| c.name_spec() != s@,
            },
    {
        if same_text(s, "top-left") {
            Some(Corner::TopLeft)
        } else if same_text(s, "top-right") {
            Some(Corner::TopRight)
        } else if same_text(s, "bottom-left") {
            Some(Corner::BottomLeft)
        } else if same_text(s, "bottom-right") {
            Some(Corner::BottomRight)
        } else {
            assert forall|c: Corner| c.name_spec() != s@ by {
                match c {
                    Corner::TopLeft => {},
                    Corner::TopRight => {},
                    Corner::BottomLeft => {},
                    Corner::BottomRight => {},
                }
            }
            None
        }
    }

    /// Horizontal position of the overlay as an expression of the encoder's overlay filter.
    pub open spec fn x_expr(self) -> Seq<char> {
        if self.is_right() { "W-overlay_w-20"@ } else { "20"@ }
    }

    /// Vertical position of the overlay as an expression of the encoder's overlay filter.
    pub open spec fn y_expr(self) -> Seq<char> {
        if self.is_bottom() { "H-overlay_h-20"@ } else { "20"@ }
    }

    pub fn x_filter_expr(self) -> (r: &'static str)
        ensures
            r@ == self.x_expr(),
    {
        match self {
            Corner::TopRight | Corner::BottomRight => "W-overlay_w-20",
            _ => "20",
        }
    }

    pub fn y_filter_expr(self) -> (r: &'static str)
        ensures
            r@ == self.y_expr(),
    {
        match self {
            Corner::BottomLeft | Corner::BottomRight => "H-overlay_h-20",
            _ => "20",
        }
    }
}

/// Size class of a picture-in-picture overlay.
#[derive(Clone, Copy, Debug, PartialEq, Eq, Structural)]
pub enum OverlaySize {
    Small,
    Medium,
    Large,
}

impl OverlaySize {
    pub open spec fn name_spec(self) -> Seq<char> {
        match self {
            OverlaySize::Small => "small"@,
            OverlaySize::Medium => "medium"@,
            OverlaySize::Large => "large"@,
        }
    }

    /// Reads a size class from its name; any other text names none.
    pub fn parse(s: &str) -> (r: Option<OverlaySize>)
        ensures
            match r {
                Some(z) => z.name_spec() == s@,
                None => forall|z: OverlaySize| z.name_spec() != s@,
            },
    {
        if same_text(s, "small") {
            Some(OverlaySize::Small)
        } else if same_text(s, "medium") {
            Some(OverlaySize::Medium)
        } else if same_text(s, "large") {
            Some(OverlaySize::Large)
        } else {
            assert forall|z: OverlaySize| z.name_spec() != s@ by {
                match z {
                    OverlaySize::Small => {},
                    OverlaySize::Medium => {},
                    OverlaySize::Large => {},
                }
            }
            None
        }
    }
}

} // verus!
