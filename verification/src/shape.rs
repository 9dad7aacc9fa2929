//! Piece geometry: each shape is an ordered list of integer cell offsets
//! relative to a pivot, with a 90° rotation transform.
//!
//! Gameplay pieces rotate; the square stays grid-aligned, and the
//! display-only letter shapes never rotate.

use vstd::prelude::*;
use crate::colors::{COLOR_CYAN, COLOR_MAGENTA, COLOR_ORANGE, COLOR_SOFTWARE_GREEN, COLOR_WHITE,
    COLOR_YELLOW};

verus! {

/// Largest magnitude a shape offset may have; keeps rotation and cell
/// arithmetic free of overflow.
pub const SHAPE_OFFSET_BOUND: i32 = 8;

/// One block of a shape: an integer `(x, y)` offset from the pivot cell.
#[derive(Clone, Copy, PartialEq, Eq, Structural, Debug)]
pub struct ShapeDimension {
    /// Column offset from the pivot.
    pub x: i32,
    /// Row offset from the pivot.
    pub y: i32,
}

/// True when both offsets are small, as every catalog shape's are.
pub open spec fn dim_bounded(d: ShapeDimension) -> bool {
    -SHAPE_OFFSET_BOUND <= d.x <= SHAPE_OFFSET_BOUND && -SHAPE_OFFSET_BOUND <= d.y
        <= SHAPE_OFFSET_BOUND
}

/// The offset turned 90° clockwise around the origin: `(x, y) → (y, -x)`.
pub open spec fn rotated_cw(d: ShapeDimension) -> ShapeDimension {
    ShapeDimension { x: d.y, y: (-(d.x as int)) as i32 }
}

/// The offset turned 90° counter-clockwise around the origin:
/// `(x, y) → (-y, x)`.
pub open spec fn rotated_ccw(d: ShapeDimension) -> ShapeDimension {
    ShapeDimension { x: (-(d.y as int)) as i32, y: d.x }
}

impl ShapeDimension {
    /// Build an offset.
    pub fn new(x: i32, y: i32) -> (d: ShapeDimension)
        ensures
            d.x == x,
            d.y == y,
    {
        ShapeDimension { x, y }
    }

    /// Rotate 90 degrees clockwise around the origin.
    pub fn rotate_clockwise(&mut self)
        requires
            dim_bounded(*old(self)),
        ensures
            *final(self) == rotated_cw(*old(self)),
            dim_bounded(*final(self)),
    {
        let new_x = self.y;
        let new_y = -self.x;
        self.x = new_x;
        self.y = new_y;
    }

    /// Rotate 90 degrees counter-clockwise around the origin.
    pub fn rotate_counter_clockwise(&mut self)
        requires
            dim_bounded(*old(self)),
        ensures
            *final(self) == rotated_ccw(*old(self)),
            dim_bounded(*final(self)),
    {
        let new_x = -self.y;
        let new_y = self.x;
        self.x = new_x;
        self.y = new_y;
    }
}

/// LAW — rotation round trip: turning a list of offsets clockwise and then
/// counter-clockwise restores every original offset exactly.
pub proof fn lemma_rotation_round_trip(dims: Seq<ShapeDimension>)
    requires
        forall|i: int| 0 <= i < dims.len() ==> dim_bounded(#[trigger] dims[i]),
    ensures
        dims.map_values(|d: ShapeDimension| rotated_cw(d)).map_values(
            |d: ShapeDimension| rotated_ccw(d),
        ) == dims,
{
    assert(dims.map_values(|d: ShapeDimension| rotated_cw(d)).map_values(
        |d: ShapeDimension| rotated_ccw(d),
    ) =~= dims);
}

/// Which shape a piece is; gameplay pieces first, then the display-only
/// letters the interface spells with blocks.
#[derive(Clone, Copy, PartialEq, Eq, Structural, Debug)]
pub enum ShapeName {
    /// The four-in-a-line gameplay piece.
    Straight,
    /// The 2×2 gameplay piece; rotation keeps it grid-aligned.
    Square,
    /// The T-shaped gameplay piece.
    Tee,
    /// The L-shaped gameplay piece.
    Ell,
    /// The S-shaped gameplay piece.
    Slew,
    /// Display-only block letter T.
    LetterT,
    /// Display-only block letter E.
    LetterE,
    /// Display-only block letter R.
    LetterR,
    /// Display-only block letter I.
    LetterI,
    /// Display-only block letter S.
    LetterS,
}

/// True for the five shapes that fall during play; false for the letters.
pub open spec fn spec_is_gameplay(name: ShapeName) -> bool {
    match name {
        ShapeName::Straight | ShapeName::Square | ShapeName::Tee | ShapeName::Ell
        | ShapeName::Slew => true,
        _ => false,
    }
}

/// The color tag a piece of the given shape carries.
pub open spec fn shape_color(name: ShapeName) -> u32 {
    match name {
        ShapeName::Straight => COLOR_CYAN,
        ShapeName::Square => COLOR_YELLOW,
        ShapeName::Tee => COLOR_MAGENTA,
        ShapeName::Ell => COLOR_ORANGE,
        ShapeName::Slew => COLOR_SOFTWARE_GREEN,
        _ => COLOR_WHITE,
    }
}

impl ShapeName {
    /// True for the five shapes that fall during play.
    pub fn is_gameplay_piece(&self) -> (r: bool)
        ensures
            r == spec_is_gameplay(*self),
    {
        match self {
            ShapeName::Straight | ShapeName::Square | ShapeName::Tee | ShapeName::Ell
            | ShapeName::Slew => true,
            _ => false,
        }
    }
}

/// The catalog geometry of each shape: its blocks in order, as offsets from
/// the pivot.
pub open spec fn initial_dims(name: ShapeName) -> Seq<ShapeDimension> {
    match name {
        ShapeName::Straight => seq![
            (ShapeDimension { x: 0, y: -1i32 }),
            (ShapeDimension { x: 0, y: 0 }),
            (ShapeDimension { x: 0, y: 1 }),
            (ShapeDimension { x: 0, y: 2 }),
        ],
        ShapeName::Square => seq![
            (ShapeDimension { x: 0, y: 0 }),
            (ShapeDimension { x: 1, y: 0 }),
            (ShapeDimension { x: 0, y: 1 }),
            (ShapeDimension { x: 1, y: 1 }),
        ],
        ShapeName::Tee => seq![
            (ShapeDimension { x: -1i32, y: 0 }),
            (ShapeDimension { x: 0, y: 0 }),
            (ShapeDimension { x: 1, y: 0 }),
            (ShapeDimension { x: 0, y: 1 }),
        ],
        ShapeName::Ell => seq![
            (ShapeDimension { x: 0, y: -1i32 }),
            (ShapeDimension { x: 0, y: 0 }),
            (ShapeDimension { x: 0, y: 1 }),
            (ShapeDimension { x: 1, y: 1 }),
        ],
        ShapeName::Slew => seq![
            (ShapeDimension { x: -1i32, y: 0 }),
            (ShapeDimension { x: 0, y: 0 }),
            (ShapeDimension { x: 0, y: 1 }),
            (ShapeDimension { x: 1, y: 1 }),
        ],
        ShapeName::LetterT => seq![
            (ShapeDimension { x: -1i32, y: -2i32 }),
            (ShapeDimension { x: 0, y: -2i32 }),
            (ShapeDimension { x: 1, y: -2i32 }),
            (ShapeDimension { x: 0, y: -1i32 }),
            (ShapeDimension { x: 0, y: 0 }),
            (ShapeDimension { x: 0, y: 1 }),
            (ShapeDimension { x: 0, y: 2 }),
        ],
        ShapeName::LetterE => seq![
            (ShapeDimension { x: -1i32, y: -2i32 }),
            (ShapeDimension { x: 0, y: -2i32 }),
            (ShapeDimension { x: 1, y: -2i32 }),
            (ShapeDimension { x: -1i32, y: 0 }),
            (ShapeDimension { x: 0, y: 0 }),
            (ShapeDimension { x: 1, y: 0 }),
            (ShapeDimension { x: -1i32, y: 2 }),
            (ShapeDimension { x: 0, y: 2 }),
            (ShapeDimension { x: 1, y: 2 }),
            (ShapeDimension { x: -1i32, y: -1i32 }),
            (ShapeDimension { x: -1i32, y: 1 }),
        ],
        ShapeName::LetterR => seq![
            (ShapeDimension { x: -1i32, y: -2i32 }),
            (ShapeDimension { x: 0, y: -2i32 }),
            (ShapeDimension { x: 1, y: -2i32 }),
            (ShapeDimension { x: -1i32, y: 0 }),
            (ShapeDimension { x: 0, y: 0 }),
            (ShapeDimension { x: 1, y: 0 }),
            (ShapeDimension { x: -1i32, y: -1i32 }),
            (ShapeDimension { x: -1i32, y: 1 }),
            (ShapeDimension { x: -1i32, y: 2 }),
            (ShapeDimension { x: 1, y: -1i32 }),
            (ShapeDimension { x: 0, y: 1 }),
            (ShapeDimension { x: 1, y: 2 }),
        ],
        ShapeName::LetterI => seq![
            (ShapeDimension { x: -1i32, y: -2i32 }),
            (ShapeDimension { x: 0, y: -2i32 }),
            (ShapeDimension { x: 1, y: -2i32 }),
            (ShapeDimension { x: -1i32, y: 2 }),
            (ShapeDimension { x: 0, y: 2 }),
            (ShapeDimension { x: 1, y: 2 }),
            (ShapeDimension { x: 0, y: -1i32 }),
            (ShapeDimension { x: 0, y: 0 }),
            (ShapeDimension { x: 0, y: 1 }),
        ],
        ShapeName::LetterS => seq![
            (ShapeDimension { x: -1i32, y: -2i32 }),
            (ShapeDimension { x: 0, y: -2i32 }),
            (ShapeDimension { x: 1, y: -2i32 }),
            (ShapeDimension { x: -1i32, y: 0 }),
            (ShapeDimension { x: 0, y: 0 }),
            (ShapeDimension { x: 1, y: 0 }),
            (ShapeDimension { x: -1i32, y: 2 }),
            (ShapeDimension { x: 0, y: 2 }),
            (ShapeDimension { x: 1, y: 2 }),
            (ShapeDimension { x: -1i32, y: -1i32 }),
            (ShapeDimension { x: 1, y: 1 }),
        ],
    }
}

/// A shape: which piece it is, and its current blocks as offsets from the
/// pivot.  Rotation mutates the offsets in place.
pub struct Shape {
    name: ShapeName,
    dims: Vec<ShapeDimension>,
}

impl Shape {
    /// Which piece this is.
    pub closed spec fn spec_name(&self) -> ShapeName {
        self.name
    }

    /// The current blocks, as offsets from the pivot.
    pub closed spec fn dims(&self) -> Seq<ShapeDimension> {
        self.dims@
    }

    /// Shape invariant: at least one block, not absurdly many, every offset
    /// small.
    pub open spec fn wf(&self) -> bool {
        &&& 1 <= self.dims().len() <= 16
        &&& forall|i: int| 0 <= i < self.dims().len() ==> dim_bounded(#[trigger] self.dims()[i])
    }

    /// Which piece this is.
    pub fn name(&self) -> (r: ShapeName)
        ensures
            r == self.spec_name(),
    {
        self.name
    }

    /// The current blocks, as offsets from the pivot.
    pub fn get_dimensions(&self) -> (r: &Vec<ShapeDimension>)
        ensures
            r@ == self.dims(),
    {
        &self.dims
    }

    /// Build the catalog shape of the given name, in its initial
    /// orientation.
    pub fn from_catalog(name: ShapeName) -> (s: Shape)
        ensures
            s.wf(),
            s.spec_name() == name,
            s.dims() == initial_dims(name),
    {
        let mut dims: Vec<ShapeDimension> = Vec::new();
        match name {
            ShapeName::Straight => {
                dims.push(ShapeDimension::new(0, -1));
                dims.push(ShapeDimension::new(0, 0));
                dims.push(ShapeDimension::new(0, 1));
                dims.push(ShapeDimension::new(0, 2));
            },
            ShapeName::Square => {
                dims.push(ShapeDimension::new(0, 0));
                dims.push(ShapeDimension::new(1, 0));
                dims.push(ShapeDimension::new(0, 1));
                dims.push(ShapeDimension::new(1, 1));
            },
            ShapeName::Tee => {
                dims.push(ShapeDimension::new(-1, 0));
                dims.push(ShapeDimension::new(0, 0));
                dims.push(ShapeDimension::new(1, 0));
                dims.push(ShapeDimension::new(0, 1));
            },
            ShapeName::Ell => {
                dims.push(ShapeDimension::new(0, -1));
                dims.push(ShapeDimension::new(0, 0));
                dims.push(ShapeDimension::new(0, 1));
                dims.push(ShapeDimension::new(1, 1));
            },
            ShapeName::Slew => {
                dims.push(ShapeDimension::new(-1, 0));
                dims.push(ShapeDimension::new(0, 0));
                dims.push(ShapeDimension::new(0, 1));
                dims.push(ShapeDimension::new(1, 1));
            },
            ShapeName::LetterT => {
                dims.push(ShapeDimension::new(-1, -2));
                dims.push(ShapeDimension::new(0, -2));
                dims.push(ShapeDimension::new(1, -2));
                dims.push(ShapeDimension::new(0, -1));
                dims.push(ShapeDimension::new(0, 0));
                dims.push(ShapeDimension::new(0, 1));
                dims.push(ShapeDimension::new(0, 2));
            },
            ShapeName::LetterE => {
                dims.push(ShapeDimension::new(-1, -2));
                dims.push(ShapeDimension::new(0, -2));
                dims.push(ShapeDimension::new(1, -2));
                dims.push(ShapeDimension::new(-1, 0));
                dims.push(ShapeDimension::new(0, 0));
                dims.push(ShapeDimension::new(1, 0));
                dims.push(ShapeDimension::new(-1, 2));
                dims.push(ShapeDimension::new(0, 2));
                dims.push(ShapeDimension::new(1, 2));
                dims.push(ShapeDimension::new(-1, -1));
                dims.push(ShapeDimension::new(-1, 1));
            },
            ShapeName::LetterR => {
                dims.push(ShapeDimension::new(-1, -2));
                dims.push(ShapeDimension::new(0, -2));
                dims.push(ShapeDimension::new(1, -2));
                dims.push(ShapeDimension::new(-1, 0));
                dims.push(ShapeDimension::new(0, 0));
                dims.push(ShapeDimension::new(1, 0));
                dims.push(ShapeDimension::new(-1, -1));
                dims.push(ShapeDimension::new(-1, 1));
                dims.push(ShapeDimension::new(-1, 2));
                dims.push(ShapeDimension::new(1, -1));
                dims.push(ShapeDimension::new(0, 1));
                dims.push(ShapeDimension::new(1, 2));
            },
            ShapeName::LetterI => {
                dims.push(ShapeDimension::new(-1, -2));
                dims.push(ShapeDimension::new(0, -2));
                dims.push(ShapeDimension::new(1, -2));
                dims.push(ShapeDimension::new(-1, 2));
                dims.push(ShapeDimension::new(0, 2));
                dims.push(ShapeDimension::new(1, 2));
                dims.push(ShapeDimension::new(0, -1));
                dims.push(ShapeDimension::new(0, 0));
                dims.push(ShapeDimension::new(0, 1));
            },
            ShapeName::LetterS => {
                dims.push(ShapeDimension::new(-1, -2));
                dims.push(ShapeDimension::new(0, -2));
                dims.push(ShapeDimension::new(1, -2));
                dims.push(ShapeDimension::new(-1, 0));
                dims.push(ShapeDimension::new(0, 0));
                dims.push(ShapeDimension::new(1, 0));
                dims.push(ShapeDimension::new(-1, 2));
                dims.push(ShapeDimension::new(0, 2));
                dims.push(ShapeDimension::new(1, 2));
                dims.push(ShapeDimension::new(-1, -1));
                dims.push(ShapeDimension::new(1, 1));
            },
        }
        proof {
            assert(dims@ =~= initial_dims(name));
        }
        Shape { name, dims }
    }

    /// Create the display-only letter T.
    pub fn new_letter_t() -> (s: Shape)
        ensures
            s.wf(),
            s.spec_name() == ShapeName::LetterT,
            s.dims() == initial_dims(ShapeName::LetterT),
    {
        Shape::from_catalog(ShapeName::LetterT)
    }

    /// Create the display-only letter E.
    pub fn new_letter_e() -> (s: Shape)
        ensures
            s.wf(),
            s.spec_name() == ShapeName::LetterE,
            s.dims() == initial_dims(ShapeName::LetterE),
    {
        Shape::from_catalog(ShapeName::LetterE)
    }

    /// Create the display-only letter R.
    pub fn new_letter_r() -> (s: Shape)
        ensures
            s.wf(),
            s.spec_name() == ShapeName::LetterR,
            s.dims() == initial_dims(ShapeName::LetterR),
    {
        Shape::from_catalog(ShapeName::LetterR)
    }

    /// Create the display-only letter I.
    pub fn new_letter_i() -> (s: Shape)
        ensures
            s.wf(),
            s.spec_name() == ShapeName::LetterI,
            s.dims() == initial_dims(ShapeName::LetterI),
    {
        Shape::from_catalog(ShapeName::LetterI)
    }

    /// Create the display-only letter S.
    pub fn new_letter_s() -> (s: Shape)
        ensures
            s.wf(),
            s.spec_name() == ShapeName::LetterS,
            s.dims() == initial_dims(ShapeName::LetterS),
    {
        Shape::from_catalog(ShapeName::LetterS)
    }

    /// The gameplay shape with the given index; any index outside the
    /// catalog yields the slew, as the random draw never exceeds it.
    pub fn get_shape_by_index(index: i32) -> (s: Shape)
        ensures
            s.wf(),
            spec_is_gameplay(s.spec_name()),
            s.spec_name() == spec_shape_for_index(index),
            s.dims() == initial_dims(s.spec_name()),
    {
        match index {
            0 => Shape::from_catalog(ShapeName::Straight),
            1 => Shape::from_catalog(ShapeName::Square),
            2 => Shape::from_catalog(ShapeName::Tee),
            3 => Shape::from_catalog(ShapeName::Ell),
            _ => Shape::from_catalog(ShapeName::Slew),
        }
    }

    /// Rotate the shape 90 degrees clockwise.  Display pieces do not
    /// rotate, and the square stays grid-aligned.
    pub fn rotate_clockwise(&mut self)
        requires
            old(self).wf(),
        ensures
            final(self).wf(),
            final(self).spec_name() == old(self).spec_name(),
            !rotates(old(self).spec_name()) ==> final(self).dims() == old(self).dims(),
            rotates(old(self).spec_name()) ==> final(self).dims() == old(self).dims().map_values(
                |d: ShapeDimension| rotated_cw(d),
            ),
    {
        if !self.name.is_gameplay_piece() {
            return ;
        }
        if matches!(self.name, ShapeName::Square) {
            return ;
        }
        let n = self.dims.len();
        let mut i: usize = 0;
        while i < n
            invariant
                n == old(self).dims().len(),
                i <= n,
                self.spec_name() == old(self).spec_name(),
                old(self).wf(),
                self.dims() == old(self).dims().map_values(
                    |d: ShapeDimension| rotated_cw(d),
                ).subrange(0, i as int) + old(self).dims().subrange(i as int, n as int),
            decreases n - i,
        {
            let mut d = self.dims[i];
            proof {
                assert(d == old(self).dims()[i as int]);
            }
            d.rotate_clockwise();
            self.dims[i] = d;
            proof {
                assert(self.dims() =~= old(self).dims().map_values(
                    |d: ShapeDimension| rotated_cw(d),
                ).subrange(0, i as int + 1) + old(self).dims().subrange(i as int + 1, n as int));
            }
            i = i + 1;
        }
        proof {
            assert(self.dims() =~= old(self).dims().map_values(
                |d: ShapeDimension| rotated_cw(d),
            ));
        }
    }

    /// Rotate the shape 90 degrees counter-clockwise: the inverse of the
    /// clockwise turn, used to undo a failed rotation.  Display pieces do
    /// not rotate, and the square stays grid-aligned.
    pub fn rotate_counter_clockwise(&mut self)
        requires
            old(self).wf(),
        ensures
            final(self).wf(),
            final(self).spec_name() == old(self).spec_name(),
            !rotates(old(self).spec_name()) ==> final(self).dims() == old(self).dims(),
            rotates(old(self).spec_name()) ==> final(self).dims() == old(self).dims().map_values(
                |d: ShapeDimension| rotated_ccw(d),
            ),
    {
        if !self.name.is_gameplay_piece() {
            return ;
        }
        if matches!(self.name, ShapeName::Square) {
            return ;
        }
        let n = self.dims.len();
        let mut i: usize = 0;
        while i < n
            invariant
                n == old(self).dims().len(),
                i <= n,
                self.spec_name() == old(self).spec_name(),
                old(self).wf(),
                self.dims() == old(self).dims().map_values(
                    |d: ShapeDimension| rotated_ccw(d),
                ).subrange(0, i as int) + old(self).dims().subrange(i as int, n as int),
            decreases n - i,
        {
            let mut d = self.dims[i];
            proof {
                assert(d == old(self).dims()[i as int]);
            }
            d.rotate_counter_clockwise();
            self.dims[i] = d;
            proof {
                assert(self.dims() =~= old(self).dims().map_values(
                    |d: ShapeDimension| rotated_ccw(d),
                ).subrange(0, i as int + 1) + old(self).dims().subrange(i as int + 1, n as int));
            }
            i = i + 1;
        }
        proof {
            assert(self.dims() =~= old(self).dims().map_values(
                |d: ShapeDimension| rotated_ccw(d),
            ));
        }
    }
}

/// True when rotation actually turns the shape: gameplay pieces except the
/// square, which stays grid-aligned.
pub open spec fn rotates(name: ShapeName) -> bool {
    spec_is_gameplay(name) && name != ShapeName::Square
}

/// Which gameplay shape each random index denotes.
pub open spec fn spec_shape_for_index(index: i32) -> ShapeName {
    if index == 0 {
        ShapeName::Straight
    } else if index == 1 {
        ShapeName::Square
    } else if index == 2 {
        ShapeName::Tee
    } else if index == 3 {
        ShapeName::Ell
    } else {
        ShapeName::Slew
    }
}

} // verus!
