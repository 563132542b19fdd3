//! Drag modes, selection flags and the sides on which a shape casts a shadow.

use vstd::prelude::*;
use crate::figure::{Color32, Stroke};
use crate::geometry::{Pos2, UNIT};

verus! {

pub type SelectMode = u8;

pub const SELECT_MODE_NONE: SelectMode = 0;

pub const SELECT_MODE_HOVER: SelectMode = 1;

pub const SELECT_MODE_SELECTED: SelectMode = 2;

/// What a drag does to the cell it started on. A mode that moves or resizes
/// carries the point at which the drag started or last stood.
#[derive(Clone, Copy, Debug, PartialEq, Eq, Structural)]
pub enum DragMode {
    Move(Pos2),
    Extend,
    /// Left to Right
    ResizeLtoR(Pos2),
    /// Right to Left
    ResizeRtoL(Pos2),
    /// Top to Bottom
    ResizeTtoB(Pos2),
    /// Bottom to Top
    ResizeBtoT(Pos2),
    /// TopLeft to BottomRight
    ResizeTLtoBR(Pos2),
    /// BottomRight to TopLeft
    ResizeBRtoTL(Pos2),
    /// TopRight to BottomLeft
    ResizeTRtoBL(Pos2),
    /// BottomLeft to TopRight
    ResizeBLtoTR(Pos2),
}

/// The shadow of a shape: its colour and the sides it is cast on, as flags.
#[derive(Clone, Copy, Debug, PartialEq, Eq, Structural)]
pub struct Shadow {
    pub shadow_color: Color32,
    pub shadow_place: u8,
}

/// How a figure is painted, free and selected.
#[derive(Clone, Copy, Debug, PartialEq, Eq, Structural)]
pub struct FigureBasics {
    pub fill_color: Color32,
    pub selected_fill_color: Color32,
    pub stroke: Stroke,
    pub selected_stroke: Stroke,
    pub shadow: Shadow,
}

impl Shadow {
    /// A transparent shadow, cast to the bottom and to the right.
    pub open spec fn spec_default() -> Shadow {
        Shadow {
            shadow_color: Color32 { r: 0, g: 0, b: 0, a: 0 },
            shadow_place: place_bit(ShadowPlace::Bottom) | place_bit(ShadowPlace::Right),
        }
    }
}

impl Default for Shadow {
    fn default() -> (r: Shadow)
        ensures
            r == Shadow::spec_default(),
    {
        Shadow {
            shadow_color: Color32 { r: 0, g: 0, b: 0, a: 0 },
            shadow_place: ShadowPlace::Bottom | ShadowPlace::Right,
        }
    }
}

impl FigureBasics {
    /// A dim fill, a yellow pen one unit wide, no pen for the selected
    /// figure.
    pub open spec fn spec_default() -> FigureBasics {
        FigureBasics {
            fill_color: Color32 { r: 100, g: 100, b: 50, a: 50 },
            selected_fill_color: Color32 { r: 50, g: 100, b: 100, a: 50 },
            stroke: Stroke { width: UNIT, color: Color32 { r: 255, g: 255, b: 0, a: 255 } },
            selected_stroke: Stroke { width: 0, color: Color32 { r: 0, g: 0, b: 0, a: 0 } },
            shadow: Shadow::spec_default(),
        }
    }
}

impl Default for FigureBasics {
    fn default() -> (r: FigureBasics)
        ensures
            r == FigureBasics::spec_default(),
    {
        FigureBasics {
            fill_color: Color32 { r: 100, g: 100, b: 50, a: 50 },
            selected_fill_color: Color32 { r: 50, g: 100, b: 100, a: 50 },
            stroke: Stroke { width: UNIT, color: Color32 { r: 255, g: 255, b: 0, a: 255 } },
            selected_stroke: Stroke { width: 0, color: Color32 { r: 0, g: 0, b: 0, a: 0 } },
            shadow: Shadow::default(),
        }
    }
}

/// A side on which a shape casts a shadow. Each side is one bit of a set of
/// flags.
#[derive(Clone, Copy, Debug, PartialEq, Eq, Structural)]
pub enum ShadowPlace {
    Top,
    Bottom,
    Right,
    Left,
}

/// The bit that stands for a side.
pub open spec fn place_bit(sp: ShadowPlace) -> u8 {
    match sp {
        ShadowPlace::Top => 1,
        ShadowPlace::Bottom => 2,
        ShadowPlace::Right => 4,
        ShadowPlace::Left => 8,
    }
}

/// Whether the flags hold the bit of a side.
pub open spec fn has_place(flags: u8, sp: ShadowPlace) -> bool {
    flags & place_bit(sp) > 0
}

/// The side `sp`, if the flags hold its bit.
pub open spec fn place_if(flags: u8, sp: ShadowPlace) -> Seq<ShadowPlace> {
    if has_place(flags, sp) {
        seq![sp]
    } else {
        Seq::empty()
    }
}

/// The sides whose bits the flags hold, in the order top, bottom, right,
/// left.
pub open spec fn places(flags: u8) -> Seq<ShadowPlace> {
    place_if(flags, ShadowPlace::Top) + place_if(flags, ShadowPlace::Bottom) + place_if(
        flags,
        ShadowPlace::Right,
    ) + place_if(flags, ShadowPlace::Left)
}

impl ShadowPlace {
    #[inline]
    pub fn check_flag(flags: u8, sp: ShadowPlace) -> (r: bool)
        ensures
            r == has_place(flags, sp),
    {
        flags & sp.into_u8() > 0
    }

    pub fn from(flags: u8) -> (res: Vec<ShadowPlace>)
        ensures
            res@ == places(flags),
    {
        let mut res: Vec<ShadowPlace> = Vec::new();
        if ShadowPlace::check_flag(flags, ShadowPlace::Top) {
            res.push(ShadowPlace::Top);
        }
        assert(res@ =~= place_if(flags, ShadowPlace::Top));
        if ShadowPlace::check_flag(flags, ShadowPlace::Bottom) {
            res.push(ShadowPlace::Bottom);
        }
        assert(res@ =~= place_if(flags, ShadowPlace::Top) + place_if(flags, ShadowPlace::Bottom));
        if ShadowPlace::check_flag(flags, ShadowPlace::Right) {
            res.push(ShadowPlace::Right);
        }
        assert(res@ =~= place_if(flags, ShadowPlace::Top) + place_if(flags, ShadowPlace::Bottom) + place_if(
            flags,
            ShadowPlace::Right,
        ));
        if ShadowPlace::check_flag(flags, ShadowPlace::Left) {
            res.push(ShadowPlace::Left);
        }
        assert(res@ =~= places(flags));
        res
    }

    #[inline]
    pub fn into_u8(&self) -> (r: u8)
        ensures
            r == place_bit(*self),
    {
        match self {
            ShadowPlace::Top => 1,
            ShadowPlace::Bottom => 2,
            ShadowPlace::Right => 4,
            ShadowPlace::Left => 8,
        }
    }

}

impl core::ops::BitOr for ShadowPlace {
    type Output = u8;

    fn bitor(self, rhs: ShadowPlace) -> (r: u8) {
        self.into_u8() | rhs.into_u8()
    }
}

impl vstd::std_specs::ops::BitOrSpecImpl for ShadowPlace {
    open spec fn obeys_bitor_spec() -> bool {
        true
    }

    open spec fn bitor_req(self, rhs: ShadowPlace) -> bool {
        true
    }

    open spec fn bitor_spec(self, rhs: ShadowPlace) -> u8 {
        place_bit(self) | place_bit(rhs)
    }
}

impl core::ops::BitAnd<u8> for ShadowPlace {
    type Output = u8;

    fn bitand(self, rhs: u8) -> (r: u8) {
        self.into_u8() & rhs
    }
}

impl vstd::std_specs::ops::BitAndSpecImpl<u8> for ShadowPlace {
    open spec fn obeys_bitand_spec() -> bool {
        true
    }

    open spec fn bitand_req(self, rhs: u8) -> bool {
        true
    }

    open spec fn bitand_spec(self, rhs: u8) -> u8 {
        place_bit(self) & rhs
    }
}

} // verus!
