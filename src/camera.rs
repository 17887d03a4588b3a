use vstd::prelude::*;
use crate::material::Vec3Bits;

verus! {

/// The camera as the tracer reads it; vectors are `f32` bit patterns.
#[derive(Clone, Copy, Debug, PartialEq, Eq, Structural)]
pub struct CameraUniform {
    pub center: Vec3Bits,
    pub samples_per_pixel: u32,
    pub pixel00_loc: Vec3Bits,
    pub max_depth: u32,
    pub pixel_delta_u: Vec3Bits,
    pub pixel_delta_v: Vec3Bits,
}

impl CameraUniform {
    /// The sixteen-word uniform record: each vector padded to a four-word
    /// stride, the padding slot holding the sample count, the depth, or zero.
    pub open spec fn record(self) -> Seq<u32> {
        seq![
            self.center.x, self.center.y, self.center.z, self.samples_per_pixel,
            self.pixel00_loc.x, self.pixel00_loc.y, self.pixel00_loc.z, self.max_depth,
            self.pixel_delta_u.x, self.pixel_delta_u.y, self.pixel_delta_u.z, 0u32,
            self.pixel_delta_v.x, self.pixel_delta_v.y, self.pixel_delta_v.z, 0u32,
        ]
    }

    /// Builds the uniform; at least one sample per pixel is taken.
    pub fn new(
        center: Vec3Bits,
        samples_per_pixel: u32,
        pixel00_loc: Vec3Bits,
        max_depth: u32,
        pixel_delta_u: Vec3Bits,
        pixel_delta_v: Vec3Bits,
    ) -> (r: Self)
        requires
            samples_per_pixel >= 1,
        ensures
            r == (CameraUniform { center, samples_per_pixel, pixel00_loc, max_depth, pixel_delta_u, pixel_delta_v }),
    {
        CameraUniform { center, samples_per_pixel, pixel00_loc, max_depth, pixel_delta_u, pixel_delta_v }
    }

    /// The uniform record as device words.
    pub fn words(&self) -> (r: Vec<u32>)
        ensures
            r@ == self.record(),
    {
        let mut out: Vec<u32> = Vec::new();
        out.push(self.center.x);
        out.push(self.center.y);
        out.push(self.center.z);
        out.push(self.samples_per_pixel);
        out.push(self.pixel00_loc.x);
        out.push(self.pixel00_loc.y);
        out.push(self.pixel00_loc.z);
        out.push(self.max_depth);
        out.push(self.pixel_delta_u.x);
        out.push(self.pixel_delta_u.y);
        out.push(self.pixel_delta_u.z);
        out.push(0);
        out.push(self.pixel_delta_v.x);
        out.push(self.pixel_delta_v.y);
        out.push(self.pixel_delta_v.z);
        out.push(0);
        assert(out@ =~= self.record());
        out
    }
}

} // verus!
