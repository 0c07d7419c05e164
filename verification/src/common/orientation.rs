//! How an image has to be turned and mirrored to be shown upright.
use vstd::prelude::*;

verus! {

/// Operations that have to be applied to orient the image correctly
///
/// Rotations are counter-clockwise
#[derive(Clone, Copy, Debug, PartialEq, Eq, Structural)]
pub enum Orientation {
    Id,
    Rotation90,
    Rotation180,
    Rotation270,
    Mirrored,
    MirroredRotation90,
    MirroredRotation180,
    MirroredRotation270,
}

/// The value is not the code of an orientation.
#[derive(Debug, Clone, Copy, PartialEq, Eq, Structural)]
pub struct UnknownOrientationValueError(pub u16);

#[derive(Debug, Clone, Copy, PartialEq, Eq, Structural)]
pub struct UnknownOrientation;

/// Counter-clockwise rotation
#[derive(Clone, Copy, Debug, PartialEq, Eq, Structural)]
pub enum Rotation {
    _0,
    _90,
    _180,
    _270,
}

impl Rotation {
    /// The rotation in degrees.
    pub open spec fn spec_degrees(self) -> u16 {
        match self {
            Rotation::_0 => 0,
            Rotation::_90 => 90,
            Rotation::_180 => 180,
            Rotation::_270 => 270,
        }
    }

    /// The rotation of a whole number of quarter turns, given in degrees.
    pub open spec fn of_degrees(degrees: int) -> Rotation {
        if degrees % 360 == 0 {
            Rotation::_0
        } else if degrees % 360 == 90 {
            Rotation::_90
        } else if degrees % 360 == 180 {
            Rotation::_180
        } else {
            Rotation::_270
        }
    }

    /// The rotation in degrees.
    pub fn degrees(self) -> (degrees: u16)
        ensures
            degrees == self.spec_degrees(),
    {
        match self {
            Rotation::_0 => 0,
            Rotation::_90 => 90,
            Rotation::_180 => 180,
            Rotation::_270 => 270,
        }
    }

    /// This rotation followed by `rhs`.
    pub fn plus(self, rhs: Rotation) -> (sum: Rotation)
        ensures
            sum == Rotation::of_degrees(self.spec_degrees() + rhs.spec_degrees()),
    {
        let degrees = (self.degrees() + rhs.degrees()) % 360;
        if degrees == 0 {
            Rotation::_0
        } else if degrees == 90 {
            Rotation::_90
        } else if degrees == 180 {
            Rotation::_180
        } else {
            Rotation::_270
        }
    }

    /// This rotation followed by `rhs` backwards.
    pub fn minus(self, rhs: Rotation) -> (difference: Rotation)
        ensures
            difference == Rotation::of_degrees(self.spec_degrees() - rhs.spec_degrees()),
    {
        let degrees = (self.degrees() + 360 - rhs.degrees()) % 360;
        if degrees == 0 {
            Rotation::_0
        } else if degrees == 90 {
            Rotation::_90
        } else if degrees == 180 {
            Rotation::_180
        } else {
            Rotation::_270
        }
    }
}

impl Orientation {
    /// The code that Exif uses for the orientation.
    pub open spec fn code(self) -> u16 {
        match self {
            Orientation::Id => 1,
            Orientation::Rotation90 => 8,
            Orientation::Rotation180 => 3,
            Orientation::Rotation270 => 6,
            Orientation::Mirrored => 2,
            Orientation::MirroredRotation90 => 5,
            Orientation::MirroredRotation180 => 4,
            Orientation::MirroredRotation270 => 7,
        }
    }

    /// The orientation that mirrors, or not, and rotates.
    pub open spec fn spec_new(mirrored: bool, rotation: Rotation) -> Orientation {
        match (mirrored, rotation) {
            (false, Rotation::_0) => Orientation::Id,
            (false, Rotation::_90) => Orientation::Rotation90,
            (false, Rotation::_180) => Orientation::Rotation180,
            (false, Rotation::_270) => Orientation::Rotation270,
            (true, Rotation::_0) => Orientation::Mirrored,
            (true, Rotation::_90) => Orientation::MirroredRotation90,
            (true, Rotation::_180) => Orientation::MirroredRotation180,
            (true, Rotation::_270) => Orientation::MirroredRotation270,
        }
    }

    /// Whether the orientation mirrors.
    pub open spec fn spec_mirror(self) -> bool {
        self == Orientation::Mirrored || self == Orientation::MirroredRotation90 || self
            == Orientation::MirroredRotation180 || self == Orientation::MirroredRotation270
    }

    /// How the orientation rotates.
    pub open spec fn spec_rotate(self) -> Rotation {
        match self {
            Orientation::Id | Orientation::Mirrored => Rotation::_0,
            Orientation::Rotation90 | Orientation::MirroredRotation90 => Rotation::_90,
            Orientation::Rotation180 | Orientation::MirroredRotation180 => Rotation::_180,
            Orientation::Rotation270 | Orientation::MirroredRotation270 => Rotation::_270,
        }
    }

    /// This orientation with a horizontal mirroring after it.
    pub open spec fn mirrored_horizontally(self) -> Orientation {
        Orientation::spec_new(
            !self.spec_mirror(),
            Rotation::of_degrees(0 - self.spec_rotate().spec_degrees()),
        )
    }

    /// This orientation with a rotation after it.
    pub open spec fn rotated(self, rotation: Rotation) -> Orientation {
        Orientation::spec_new(
            self.spec_mirror(),
            Rotation::of_degrees(self.spec_rotate().spec_degrees() + rotation.spec_degrees()),
        )
    }

    /// This orientation with `orientation` applied after it.
    pub open spec fn combined(self, orientation: Orientation) -> Orientation {
        (if orientation.spec_mirror() {
            self.mirrored_horizontally()
        } else {
            self
        }).rotated(orientation.spec_rotate())
    }

    pub fn new(mirrored: bool, rotation: Rotation) -> (orientation: Orientation)
        ensures
            orientation == Orientation::spec_new(mirrored, rotation),
            orientation.spec_mirror() == mirrored,
            orientation.spec_rotate() == rotation,
    {
        match (mirrored, rotation) {
            (false, Rotation::_0) => Orientation::Id,
            (false, Rotation::_90) => Orientation::Rotation90,
            (false, Rotation::_180) => Orientation::Rotation180,
            (false, Rotation::_270) => Orientation::Rotation270,
            (true, Rotation::_0) => Orientation::Mirrored,
            (true, Rotation::_90) => Orientation::MirroredRotation90,
            (true, Rotation::_180) => Orientation::MirroredRotation180,
            (true, Rotation::_270) => Orientation::MirroredRotation270,
        }
    }

    /// The orientation with the given Exif code, if there is one.
    pub open spec fn of_code(code: u16) -> Option<Orientation> {
        if code == 1 {
            Some(Orientation::Id)
        } else if code == 8 {
            Some(Orientation::Rotation90)
        } else if code == 3 {
            Some(Orientation::Rotation180)
        } else if code == 6 {
            Some(Orientation::Rotation270)
        } else if code == 2 {
            Some(Orientation::Mirrored)
        } else if code == 5 {
            Some(Orientation::MirroredRotation90)
        } else if code == 4 {
            Some(Orientation::MirroredRotation180)
        } else if code == 7 {
            Some(Orientation::MirroredRotation270)
        } else {
            None
        }
    }

    /// The orientation with the given Exif code.
    pub fn from_u16(code: u16) -> (orientation: Result<Orientation, UnknownOrientationValueError>)
        ensures
            match orientation {
                Ok(o) => o.code() == code && Orientation::of_code(code) == Some(o),
                Err(e) => e.0 == code && Orientation::of_code(code) is None && forall|
                    o: Orientation,
                | o.code() != code,
            },
    {
        if code == 1 {
            Ok(Orientation::Id)
        } else if code == 8 {
            Ok(Orientation::Rotation90)
        } else if code == 3 {
            Ok(Orientation::Rotation180)
        } else if code == 6 {
            Ok(Orientation::Rotation270)
        } else if code == 2 {
            Ok(Orientation::Mirrored)
        } else if code == 5 {
            Ok(Orientation::MirroredRotation90)
        } else if code == 4 {
            Ok(Orientation::MirroredRotation180)
        } else if code == 7 {
            Ok(Orientation::MirroredRotation270)
        } else {
            Err(UnknownOrientationValueError(code))
        }
    }

    /// The Exif code of the orientation.
    pub fn to_u16(self) -> (code: u16)
        ensures
            code == self.code(),
    {
        match self {
            Orientation::Id => 1,
            Orientation::Rotation90 => 8,
            Orientation::Rotation180 => 3,
            Orientation::Rotation270 => 6,
            Orientation::Mirrored => 2,
            Orientation::MirroredRotation90 => 5,
            Orientation::MirroredRotation180 => 4,
            Orientation::MirroredRotation270 => 7,
        }
    }

    /// Combine two orientation changes to one
    ///
    /// The `orientation` is applied after `self`
    #[must_use]
    pub fn combine(self, orientation: Orientation) -> (combined: Orientation)
        ensures
            combined == self.combined(orientation),
    {
        let mut new_orientation = self;
        if orientation.mirror() {
            new_orientation = new_orientation.add_mirror_horizontally()
        }
        new_orientation = new_orientation.add_rotation(orientation.rotate());

        new_orientation
    }

    #[must_use]
    pub fn add_mirror_horizontally(self) -> (orientation: Orientation)
        ensures
            orientation == self.mirrored_horizontally(),
            orientation.spec_mirror() == !self.spec_mirror(),
    {
        Orientation::new(!self.mirror(), Rotation::_0.minus(self.rotate()))
    }

    #[must_use]
    pub fn add_mirror_vertically(self) -> (orientation: Orientation)
        ensures
            orientation == Orientation::spec_new(
                !self.spec_mirror(),
                Rotation::of_degrees(self.spec_rotate().spec_degrees() + 180),
            ),
            orientation.spec_mirror() == !self.spec_mirror(),
    {
        Orientation::new(!self.mirror(), self.rotate().plus(Rotation::_180))
    }

    #[must_use]
    pub fn add_rotation(self, rotation: Rotation) -> (orientation: Orientation)
        ensures
            orientation == self.rotated(rotation),
            orientation.spec_mirror() == self.spec_mirror(),
    {
        Orientation::new(self.mirror(), self.rotate().plus(rotation))
    }

    /// Whether the orientation mirrors.
    pub fn mirror(self) -> (mirrored: bool)
        ensures
            mirrored == self.spec_mirror(),
    {
        match self {
            Orientation::Mirrored
            | Orientation::MirroredRotation90
            | Orientation::MirroredRotation180
            | Orientation::MirroredRotation270 => true,
            _ => false,
        }
    }

    /// How the orientation rotates.
    pub fn rotate(self) -> (rotation: Rotation)
        ensures
            rotation == self.spec_rotate(),
    {
        match self {
            Orientation::Id | Orientation::Mirrored => Rotation::_0,
            Orientation::Rotation90 | Orientation::MirroredRotation90 => Rotation::_90,
            Orientation::Rotation180 | Orientation::MirroredRotation180 => Rotation::_180,
            Orientation::Rotation270 | Orientation::MirroredRotation270 => Rotation::_270,
        }
    }
}

/// An orientation is made up of whether it mirrors and how it rotates.
pub proof fn orientation_is_mirror_and_rotation(orientation: Orientation)
    ensures
        Orientation::spec_new(orientation.spec_mirror(), orientation.spec_rotate()) == orientation,
{
}

/// Doing nothing after an orientation leaves it as it is; mirroring twice
/// in the same direction undoes itself.
pub proof fn orientation_identities(orientation: Orientation)
    ensures
        orientation.combined(Orientation::Id) == orientation,
        Orientation::Id.combined(orientation) == orientation,
        orientation.mirrored_horizontally().mirrored_horizontally() == orientation,
{
}

} // verus!
