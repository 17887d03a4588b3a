use vstd::prelude::*;

verus! {

/// Bit pattern of `1.0f32`.
pub const ONE_BITS: u32 = 0x3F80_0000;

/// Bit pattern of positive infinity.
pub const INFINITY_BITS: u32 = 0x7F80_0000;

/// The bit pattern encodes an `f32` in `[0, 1]`.
pub open spec fn is_unit_interval_bits(b: u32) -> bool {
    b <= ONE_BITS
}

/// The bit pattern encodes a finite `f32` greater than zero.
pub open spec fn is_positive_bits(b: u32) -> bool {
    0 < b && b < INFINITY_BITS
}

/// Three `f32` components, each as its bit pattern.
#[derive(Clone, Copy, Debug, PartialEq, Eq, Structural)]
pub struct Vec3Bits {
    pub x: u32,
    pub y: u32,
    pub z: u32,
}

/// Dense index of a material in a scene's material table.
#[derive(Clone, Copy, Debug, PartialEq, Eq, Structural)]
pub struct MaterialReference {
    pub id: u32,
}

impl MaterialReference {
    pub fn new(id: u32) -> (r: Self)
        ensures
            r.id == id,
    {
        Self { id }
    }
}

/// How a surface scatters light. Colours and scalars are `f32` bit patterns.
#[derive(Clone, Copy, Debug, PartialEq, Eq, Structural)]
pub enum Material {
    Lambertian { albedo: Vec3Bits },
    Metal { albedo: Vec3Bits, fuzz: u32 },
    Dielectric { refraction_index: u32 },
}

/// Tag that the tracer reads to tell the kinds of material apart.
pub const LAMBERTIAN_TAG: u32 = 0;

pub const METAL_TAG: u32 = 1;

pub const DIELECTRIC_TAG: u32 = 2;

impl Material {
    pub fn lambertian(albedo: Vec3Bits) -> (r: Self)
        ensures
            r == (Material::Lambertian { albedo }),
    {
        Material::Lambertian { albedo }
    }

    pub fn metal(albedo: Vec3Bits, fuzz: u32) -> (r: Self)
        requires
            is_unit_interval_bits(fuzz),
        ensures
            r == (Material::Metal { albedo, fuzz }),
    {
        Material::Metal { albedo, fuzz }
    }

    pub fn dielectric(refraction_index: u32) -> (r: Self)
        requires
            is_positive_bits(refraction_index),
        ensures
            r == (Material::Dielectric { refraction_index }),
    {
        Material::Dielectric { refraction_index }
    }

    /// The material's parameters are within the ranges the tracer expects.
    pub open spec fn valid(self) -> bool {
        match self {
            Material::Lambertian { .. } => true,
            Material::Metal { fuzz, .. } => is_unit_interval_bits(fuzz),
            Material::Dielectric { refraction_index } => is_positive_bits(refraction_index),
        }
    }

    /// The eight-word device record: a four-word data vector, the kind tag,
    /// and three words of padding to a 16-byte stride.
    pub open spec fn record(self) -> Seq<u32> {
        match self {
            Material::Lambertian { albedo } => seq![
                albedo.x, albedo.y, albedo.z, 0u32, LAMBERTIAN_TAG, 0u32, 0u32, 0u32,
            ],
            Material::Metal { albedo, fuzz } => seq![
                albedo.x, albedo.y, albedo.z, fuzz, METAL_TAG, 0u32, 0u32, 0u32,
            ],
            Material::Dielectric { refraction_index } => seq![
                refraction_index, 0u32, 0u32, 0u32, DIELECTRIC_TAG, 0u32, 0u32, 0u32,
            ],
        }
    }

    /// Appends the device record of this material to `out`.
    pub fn push_record(&self, out: &mut Vec<u32>)
        ensures
            final(out)@ == old(out)@ + self.record(),
    {
        let (data, tag): ([u32; 4], u32) = match self {
            Material::Lambertian { albedo } => ([albedo.x, albedo.y, albedo.z, 0], LAMBERTIAN_TAG),
            Material::Metal { albedo, fuzz } => ([albedo.x, albedo.y, albedo.z, *fuzz], METAL_TAG),
            Material::Dielectric { refraction_index } => ([*refraction_index, 0, 0, 0], DIELECTRIC_TAG),
        };
        out.push(data[0]);
        out.push(data[1]);
        out.push(data[2]);
        out.push(data[3]);
        out.push(tag);
        out.push(0);
        out.push(0);
        out.push(0);
        assert(final(out)@ =~= old(out)@ + self.record());
    }
}

} // verus!
