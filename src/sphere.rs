use vstd::prelude::*;
use crate::material::{is_positive_bits, MaterialReference, Vec3Bits};

verus! {

/// A sphere of the scene; centre and radius are `f32` bit patterns.
#[derive(Clone, Copy, Debug, PartialEq, Eq, Structural)]
pub struct Sphere {
    pub center: Vec3Bits,
    pub radius: u32,
    pub material: MaterialReference,
}

impl Sphere {
    pub fn new(center: Vec3Bits, radius: u32, material: MaterialReference) -> (r: Self)
        requires
            is_positive_bits(radius),
        ensures
            r == (Sphere { center, radius, material }),
    {
        Sphere { center, radius, material }
    }

    /// The eight-word device record: centre, radius, material index, and
    /// three words of padding to a 16-byte stride.
    pub open spec fn record(self) -> Seq<u32> {
        seq![
            self.center.x, self.center.y, self.center.z, self.radius,
            self.material.id, 0u32, 0u32, 0u32,
        ]
    }

    /// Appends the device record of this sphere to `out`.
    pub fn push_record(&self, out: &mut Vec<u32>)
        ensures
            final(out)@ == old(out)@ + self.record(),
    {
        out.push(self.center.x);
        out.push(self.center.y);
        out.push(self.center.z);
        out.push(self.radius);
        out.push(self.material.id);
        out.push(0);
        out.push(0);
        out.push(0);
        assert(final(out)@ =~= old(out)@ + self.record());
    }
}

} // verus!
