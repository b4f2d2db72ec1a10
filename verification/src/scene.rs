//! The point set of a 3D Gaussian splatting scene.

use crate::error::{first_of, other_than, Error};
use crate::train::gaussian_3d::partition::Partition;
use vstd::prelude::*;

verus! {

/// A scene of 3D Gaussian points, as five arrays with one row for each point.
///
/// The rows hold the parameters as the optimizer sees them: opacities and
/// scalings in their unconstrained form.
#[derive(Clone, Debug, PartialEq)]
pub struct Gaussian3dScene<T> {
    /// Coefficients of the spherical harmonics of the colour, `[P, 16 * 3]`.
    pub colors_sh: Vec<[T; 48]>,
    /// Opacities, `[P, 1]`.
    pub opacities: Vec<[T; 1]>,
    /// Positions in world space, `[P, 3]`.
    pub positions: Vec<[T; 3]>,
    /// Rotations as quaternions, `[P, 4]`.
    pub rotations: Vec<[T; 4]>,
    /// Scalings, `[P, 3]`.
    pub scalings: Vec<[T; 3]>,
}

/// The number of rows of the first array after the colours that has another
/// number of rows than there are colours, if there is one.
pub open spec fn scene_mismatch(
    colors_sh: nat,
    opacities: nat,
    positions: nat,
    rotations: nat,
    scalings: nat,
) -> Option<nat> {
    first_of(
        other_than(opacities, colors_sh),
        first_of(
            other_than(positions, colors_sh),
            first_of(other_than(rotations, colors_sh), other_than(scalings, colors_sh)),
        ),
    )
}

impl<T: Copy> Gaussian3dScene<T> {
    /// The five arrays have one row for each point.
    pub open spec fn wf(&self) -> bool {
        &&& self.opacities@.len() == self.colors_sh@.len()
        &&& self.positions@.len() == self.colors_sh@.len()
        &&& self.rotations@.len() == self.colors_sh@.len()
        &&& self.scalings@.len() == self.colors_sh@.len()
    }

    /// The scene follows from `before` when the point set is rebuilt as
    /// `partition` says: each of the five arrays holds the retained rows,
    /// then the cloned rows, then the split rows twice over.
    pub open spec fn is_rebuilt(&self, before: Self, partition: Partition) -> bool {
        &&& self.colors_sh@ == partition.rebuilt(before.colors_sh@)
        &&& self.opacities@ == partition.rebuilt(before.opacities@)
        &&& self.positions@ == partition.rebuilt(before.positions@)
        &&& self.rotations@ == partition.rebuilt(before.rotations@)
        &&& self.scalings@ == partition.rebuilt(before.scalings@)
    }

    /// The number of points.
    pub open spec fn spec_point_count(&self) -> nat {
        self.colors_sh@.len()
    }

    /// The number of points.
    pub fn point_count(&self) -> (count: usize)
        ensures
            count == self.spec_point_count(),
    {
        self.colors_sh.len()
    }

    /// Whether the five arrays have one row for each point.
    pub fn is_wf(&self) -> (r: bool)
        ensures
            r == self.wf(),
    {
        let point_count: usize = self.colors_sh.len();
        self.opacities.len() == point_count && self.positions.len() == point_count
            && self.rotations.len() == point_count && self.scalings.len() == point_count
    }

    /// A scene of the five arrays, which must have the same number of rows.
    ///
    /// The number of colour rows is the one expected; the first array with
    /// another number of rows is reported.
    pub fn new(
        colors_sh: Vec<[T; 48]>,
        opacities: Vec<[T; 1]>,
        positions: Vec<[T; 3]>,
        rotations: Vec<[T; 4]>,
        scalings: Vec<[T; 3]>,
    ) -> (made: Result<Self, Error>)
        ensures
            made is Ok <==> scene_mismatch(
                colors_sh@.len(),
                opacities@.len(),
                positions@.len(),
                rotations@.len(),
                scalings@.len(),
            ) is None,
            made matches Ok(scene) ==> scene.wf() && scene == (Gaussian3dScene {
                colors_sh,
                opacities,
                positions,
                rotations,
                scalings,
            }),
            made matches Err(e) ==> e.is_row_mismatch(
                scene_mismatch(
                    colors_sh@.len(),
                    opacities@.len(),
                    positions@.len(),
                    rotations@.len(),
                    scalings@.len(),
                )->0,
                colors_sh@.len(),
            ),
    {
        let point_count: usize = colors_sh.len();
        if opacities.len() != point_count {
            return Err(Error::row_mismatch(opacities.len(), point_count));
        }
        if positions.len() != point_count {
            return Err(Error::row_mismatch(positions.len(), point_count));
        }
        if rotations.len() != point_count {
            return Err(Error::row_mismatch(rotations.len(), point_count));
        }
        if scalings.len() != point_count {
            return Err(Error::row_mismatch(scalings.len(), point_count));
        }
        Ok(Gaussian3dScene { colors_sh, opacities, positions, rotations, scalings })
    }

    /// Puts `colors_sh` in place of the colours. An array that has not one
    /// row for each point is refused, and the scene stays as it is.
    pub fn set_colors_sh(&mut self, colors_sh: Vec<[T; 48]>) -> (set: Result<(), Error>)
        ensures
            set is Ok <==> colors_sh@.len() == old(self).colors_sh@.len(),
            set is Ok ==> *final(self) == (Gaussian3dScene { colors_sh, ..*old(self) }),
            set matches Err(e) ==> *final(self) == *old(self) && e.is_row_mismatch(
                colors_sh@.len(),
                old(self).colors_sh@.len(),
            ),
    {
        if colors_sh.len() != self.colors_sh.len() {
            return Err(Error::row_mismatch(colors_sh.len(), self.colors_sh.len()));
        }
        self.colors_sh = colors_sh;
        Ok(())
    }

    /// Puts `opacities` in place of the opacities. An array that has not one
    /// row for each point is refused, and the scene stays as it is.
    pub fn set_opacities(&mut self, opacities: Vec<[T; 1]>) -> (set: Result<(), Error>)
        ensures
            set is Ok <==> opacities@.len() == old(self).opacities@.len(),
            set is Ok ==> *final(self) == (Gaussian3dScene { opacities, ..*old(self) }),
            set matches Err(e) ==> *final(self) == *old(self) && e.is_row_mismatch(
                opacities@.len(),
                old(self).opacities@.len(),
            ),
    {
        if opacities.len() != self.opacities.len() {
            return Err(Error::row_mismatch(opacities.len(), self.opacities.len()));
        }
        self.opacities = opacities;
        Ok(())
    }

    /// Puts `positions` in place of the positions. An array that has not one
    /// row for each point is refused, and the scene stays as it is.
    pub fn set_positions(&mut self, positions: Vec<[T; 3]>) -> (set: Result<(), Error>)
        ensures
            set is Ok <==> positions@.len() == old(self).positions@.len(),
            set is Ok ==> *final(self) == (Gaussian3dScene { positions, ..*old(self) }),
            set matches Err(e) ==> *final(self) == *old(self) && e.is_row_mismatch(
                positions@.len(),
                old(self).positions@.len(),
            ),
    {
        if positions.len() != self.positions.len() {
            return Err(Error::row_mismatch(positions.len(), self.positions.len()));
        }
        self.positions = positions;
        Ok(())
    }

    /// Puts `rotations` in place of the rotations. An array that has not one
    /// row for each point is refused, and the scene stays as it is.
    pub fn set_rotations(&mut self, rotations: Vec<[T; 4]>) -> (set: Result<(), Error>)
        ensures
            set is Ok <==> rotations@.len() == old(self).rotations@.len(),
            set is Ok ==> *final(self) == (Gaussian3dScene { rotations, ..*old(self) }),
            set matches Err(e) ==> *final(self) == *old(self) && e.is_row_mismatch(
                rotations@.len(),
                old(self).rotations@.len(),
            ),
    {
        if rotations.len() != self.rotations.len() {
            return Err(Error::row_mismatch(rotations.len(), self.rotations.len()));
        }
        self.rotations = rotations;
        Ok(())
    }

    /// Puts `scalings` in place of the scalings. An array that has not one
    /// row for each point is refused, and the scene stays as it is.
    pub fn set_scalings(&mut self, scalings: Vec<[T; 3]>) -> (set: Result<(), Error>)
        ensures
            set is Ok <==> scalings@.len() == old(self).scalings@.len(),
            set is Ok ==> *final(self) == (Gaussian3dScene { scalings, ..*old(self) }),
            set matches Err(e) ==> *final(self) == *old(self) && e.is_row_mismatch(
                scalings@.len(),
                old(self).scalings@.len(),
            ),
    {
        if scalings.len() != self.scalings.len() {
            return Err(Error::row_mismatch(scalings.len(), self.scalings.len()));
        }
        self.scalings = scalings;
        Ok(())
    }

    /// Rebuilds the point set as `partition` says, the five arrays alike.
    pub fn rebuild(&mut self, partition: &Partition)
        requires
            old(self).wf(),
            partition.wf(old(self).spec_point_count()),
        ensures
            final(self).is_rebuilt(*old(self), *partition),
            final(self).wf(),
            final(self).spec_point_count() == partition.point_count_new(),
    {
        self.colors_sh = partition.rebuild(&self.colors_sh);
        self.opacities = partition.rebuild(&self.opacities);
        self.positions = partition.rebuild(&self.positions);
        self.rotations = partition.rebuild(&self.rotations);
        self.scalings = partition.rebuild(&self.scalings);
    }
}

} // verus!
