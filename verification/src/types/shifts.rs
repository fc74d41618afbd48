//! Oblique planar deformation operators and their configuration.

use vstd::prelude::*;

verus! {

/// The four kinds of a 3D shift: the target region (inner) or its
/// complement (outer) is lifted or lowered.
#[derive(Debug, Clone, Copy, PartialEq, Eq, Structural)]
pub enum ShiftTypes {
    InnerDescent,
    OuterDescent,
    InnerLift,
    OuterLift,
}

/// The kinds of a 2D shift; reserved for slice-level deformation.
#[derive(Debug, Clone, Copy, PartialEq, Eq, Structural)]
pub enum ShiftTypes2D {
    LeftDescent,
    RightDescent,
    LeftLift,
    RightLift,
    Horst,
    Graber,
}

/// Why a shift setter rejected a value.
#[derive(Debug, Clone, Copy, PartialEq, Eq, Structural)]
pub enum ShiftError {
    /// An angle lies outside its legal range.
    AngleOutOfRange,
    /// The main region is not one of 1 through 4.
    RegionOutOfRange,
    /// The shift force is negative.
    NegativeForce,
}

impl ShiftError {
    /// A human-readable description of the failure.
    pub fn message(&self) -> (r: &'static str)
        ensures
            self is AngleOutOfRange ==> r@ == "Angle is outside its legal range"@,
            self is RegionOutOfRange ==> r@
                == "Region can be only between 1 and 4, where 1 is upper left part, and 4 - lower right"@,
            self is NegativeForce ==> r@ == "Shift force cannot be negative"@,
    {
        match self {
            ShiftError::AngleOutOfRange => "Angle is outside its legal range",
            ShiftError::RegionOutOfRange => {
                "Region can be only between 1 and 4, where 1 is upper left part, and 4 - lower right"
            },
            ShiftError::NegativeForce => "Shift force cannot be negative",
        }
    }
}

/// One oblique planar deformation: two ground lines through an anchor
/// point carve the plane into four regions; a tilted fault plane lifts
/// or lowers borders near the lines, capped by a force.
///
/// Coordinates are in millis; angles are in milli-degrees.
#[derive(Debug, Clone)]
pub struct Shift3D {
    /// X coordinate of the anchor of the two ground lines, in millis.
    pub pos_x: i64,
    /// Y coordinate of the anchor, in millis.
    pub pos_y: i64,
    /// Orientation of the first ground line, in milli-degrees within
    /// `[0, 180000]`.
    pub angle_x: i64,
    /// Orientation of the second ground line, likewise.
    pub angle_y: i64,
    /// The quadrant the shift targets: 1 through 4.
    pub main_region: i32,
    /// Tilt of the fault plane, in milli-degrees within `[0, 90000]`.
    pub angle_z: i64,
    /// Largest depth change a single application may make to a cell.
    pub shift_force: i32,
    /// Which region moves and in which direction.
    pub shift_type: ShiftTypes,
}

/// A 2D shift; reserved for slice-level deformation.
#[derive(Debug, Clone)]
pub struct Shift2D {
    /// Anchor coordinate, in millis.
    pub pos_x: i64,
    /// Line angle, in milli-degrees within `(0, 90000)`.
    pub angle: i64,
    /// Largest depth change per cell.
    pub shift_force: i32,
    /// Which side moves and in which direction.
    pub shift_type: ShiftTypes2D,
}

impl Shift3D {
    /// Well-formedness: angles inside their legal ranges, a region
    /// among the four, a non-negative force, and a bounded anchor.
    pub open spec fn wf(&self) -> bool {
        &&& 0 <= self.angle_x <= 180_000
        &&& 0 <= self.angle_y <= 180_000
        &&& 0 <= self.angle_z <= 90_000
        &&& 1 <= self.main_region <= 4
        &&& self.shift_force >= 0
        &&& -crate::MILLI_LIMIT <= self.pos_x <= crate::MILLI_LIMIT
        &&& -crate::MILLI_LIMIT <= self.pos_y <= crate::MILLI_LIMIT
    }

    /// The default shift: an inner descent of region 2 anchored at
    /// (5, 5) with right-angle lines and a force of 20.
    pub fn new() -> (r: Shift3D)
        ensures
            r.wf(),
            r == (Shift3D {
                pos_x: 5_000i64,
                pos_y: 5_000i64,
                angle_x: 90_000i64,
                angle_y: 90_000i64,
                main_region: 2i32,
                angle_z: 90_000i64,
                shift_force: 20i32,
                shift_type: ShiftTypes::InnerDescent,
            }),
    {
        Shift3D {
            pos_x: 5_000,
            pos_y: 5_000,
            angle_x: 90_000,
            angle_y: 90_000,
            main_region: 2,
            angle_z: 90_000,
            shift_force: 20,
            shift_type: ShiftTypes::InnerDescent,
        }
    }

    /// Sets the anchor's X coordinate, in millis.
    pub fn set_pos_x(&mut self, pos_x: i64)
        ensures
            *final(self) == (Shift3D { pos_x, ..*old(self) }),
    {
        self.pos_x = pos_x;
    }

    /// Returns the anchor's X coordinate, in millis.
    pub fn pos_x(&self) -> (r: i64)
        ensures
            r == self.pos_x,
    {
        self.pos_x
    }

    /// Sets the anchor's Y coordinate, in millis.
    pub fn set_pos_y(&mut self, pos_y: i64)
        ensures
            *final(self) == (Shift3D { pos_y, ..*old(self) }),
    {
        self.pos_y = pos_y;
    }

    /// Returns the anchor's Y coordinate, in millis.
    pub fn pos_y(&self) -> (r: i64)
        ensures
            r == self.pos_y,
    {
        self.pos_y
    }

    /// Sets the first ground line's angle; it must lie within
    /// `[0, 180000]` milli-degrees.
    pub fn set_angle_x(&mut self, angle_x: i64) -> (r: Result<(), ShiftError>)
        ensures
            r is Ok <==> 0 <= angle_x <= 180_000,
            r is Ok ==> *final(self) == (Shift3D { angle_x, ..*old(self) }),
            r is Err ==> *final(self) == *old(self),
    {
        if !(0 <= angle_x && angle_x <= 180_000) {
            return Err(ShiftError::AngleOutOfRange);
        }
        self.angle_x = angle_x;
        Ok(())
    }

    /// Returns the first ground line's angle, in milli-degrees.
    pub fn angle_x(&self) -> (r: i64)
        ensures
            r == self.angle_x,
    {
        self.angle_x
    }

    /// Sets the second ground line's angle; it must lie within
    /// `[0, 180000]` milli-degrees.
    pub fn set_angle_y(&mut self, angle_y: i64) -> (r: Result<(), ShiftError>)
        ensures
            r is Ok <==> 0 <= angle_y <= 180_000,
            r is Ok ==> *final(self) == (Shift3D { angle_y, ..*old(self) }),
            r is Err ==> *final(self) == *old(self),
    {
        if !(0 <= angle_y && angle_y <= 180_000) {
            return Err(ShiftError::AngleOutOfRange);
        }
        self.angle_y = angle_y;
        Ok(())
    }

    /// Returns the second ground line's angle, in milli-degrees.
    pub fn angle_y(&self) -> (r: i64)
        ensures
            r == self.angle_y,
    {
        self.angle_y
    }

    /// Sets the target quadrant; it must be 1 through 4.
    pub fn set_main_region(&mut self, region: i32) -> (r: Result<(), ShiftError>)
        ensures
            r is Ok <==> 1 <= region <= 4,
            r is Ok ==> *final(self) == (Shift3D { main_region: region, ..*old(self) }),
            r is Err ==> *final(self) == *old(self),
    {
        if region <= 0 || region > 4 {
            return Err(ShiftError::RegionOutOfRange);
        }
        self.main_region = region;
        Ok(())
    }

    /// Returns the target quadrant.
    pub fn main_region(&self) -> (r: i32)
        ensures
            r == self.main_region,
    {
        self.main_region
    }

    /// Sets the fault plane's tilt; it must lie within `[0, 90000]`
    /// milli-degrees.
    pub fn set_angle_z(&mut self, angle_z: i64) -> (r: Result<(), ShiftError>)
        ensures
            r is Ok <==> 0 <= angle_z <= 90_000,
            r is Ok ==> *final(self) == (Shift3D { angle_z, ..*old(self) }),
            r is Err ==> *final(self) == *old(self),
    {
        if !(0 <= angle_z && angle_z <= 90_000) {
            return Err(ShiftError::AngleOutOfRange);
        }
        self.angle_z = angle_z;
        Ok(())
    }

    /// Returns the fault plane's tilt, in milli-degrees.
    pub fn angle_z(&self) -> (r: i64)
        ensures
            r == self.angle_z,
    {
        self.angle_z
    }

    /// Sets the force cap; it must not be negative.
    pub fn set_shift_force(&mut self, shift_force: i32) -> (r: Result<(), ShiftError>)
        ensures
            r is Ok <==> shift_force >= 0,
            r is Ok ==> *final(self) == (Shift3D { shift_force, ..*old(self) }),
            r is Err ==> *final(self) == *old(self),
    {
        if shift_force < 0 {
            return Err(ShiftError::NegativeForce);
        }
        self.shift_force = shift_force;
        Ok(())
    }

    /// Returns the force cap.
    pub fn shift_force(&self) -> (r: i32)
        ensures
            r == self.shift_force,
    {
        self.shift_force
    }

    /// Sets the kind of the shift.
    pub fn set_shift_type(&mut self, shift_type: ShiftTypes)
        ensures
            *final(self) == (Shift3D { shift_type, ..*old(self) }),
    {
        self.shift_type = shift_type;
    }

    /// Returns the kind of the shift.
    pub fn shift_type(&self) -> (r: ShiftTypes)
        ensures
            r == self.shift_type,
    {
        self.shift_type
    }
}

impl Default for Shift3D {
    /// The default shift of [`Shift3D::new`].
    fn default() -> (r: Self)
        ensures
            r.wf(),
    {
        Self::new()
    }
}

impl Shift2D {
    /// The default 2D shift: a right descent anchored at 5 under a
    /// right angle with a force of 20.
    pub fn new() -> (r: Shift2D)
        ensures
            r == (Shift2D {
                pos_x: 5_000i64,
                angle: 90_000i64,
                shift_force: 20i32,
                shift_type: ShiftTypes2D::RightDescent,
            }),
    {
        Shift2D { pos_x: 5_000, angle: 90_000, shift_force: 20, shift_type: ShiftTypes2D::RightDescent }
    }

    /// Sets the anchor coordinate, in millis.
    pub fn set_pos_x(&mut self, pos_x: i64)
        ensures
            *final(self) == (Shift2D { pos_x, ..*old(self) }),
    {
        self.pos_x = pos_x;
    }

    /// Returns the anchor coordinate, in millis.
    pub fn pos_x(&self) -> (r: i64)
        ensures
            r == self.pos_x,
    {
        self.pos_x
    }

    /// Sets the line angle; it must lie strictly between 0 and 90000
    /// milli-degrees.
    pub fn set_angle(&mut self, angle: i64) -> (r: Result<(), ShiftError>)
        ensures
            r is Ok <==> 0 < angle < 90_000,
            r is Ok ==> *final(self) == (Shift2D { angle, ..*old(self) }),
            r is Err ==> *final(self) == *old(self),
    {
        if angle <= 0 || angle >= 90_000 {
            return Err(ShiftError::AngleOutOfRange);
        }
        self.angle = angle;
        Ok(())
    }

    /// Returns the line angle, in milli-degrees.
    pub fn angle(&self) -> (r: i64)
        ensures
            r == self.angle,
    {
        self.angle
    }

    /// Sets the force cap.
    pub fn set_shift_force(&mut self, shift_force: i32)
        ensures
            *final(self) == (Shift2D { shift_force, ..*old(self) }),
    {
        self.shift_force = shift_force;
    }

    /// Returns the force cap.
    pub fn shift_force(&self) -> (r: i32)
        ensures
            r == self.shift_force,
    {
        self.shift_force
    }

    /// Sets the kind of the shift.
    pub fn set_shift_type(&mut self, shift_type: ShiftTypes2D)
        ensures
            *final(self) == (Shift2D { shift_type, ..*old(self) }),
    {
        self.shift_type = shift_type;
    }

    /// Returns the kind of the shift.
    pub fn shift_type(&self) -> (r: ShiftTypes2D)
        ensures
            r == self.shift_type,
    {
        self.shift_type
    }
}

impl Default for Shift2D {
    /// The default 2D shift of [`Shift2D::new`].
    fn default() -> (r: Self)
        ensures
            r == (Shift2D {
                pos_x: 5_000i64,
                angle: 90_000i64,
                shift_force: 20i32,
                shift_type: ShiftTypes2D::RightDescent,
            }),
    {
        Self::new()
    }
}

} // verus!
