use sphere_tracer::camera::CameraUniform;
use sphere_tracer::material::{Material, MaterialReference, Vec3Bits};
use sphere_tracer::sphere::Sphere;
use sphere_tracer::world::World;

fn bits(x: f32, y: f32, z: f32) -> Vec3Bits {
    Vec3Bits { x: x.to_bits(), y: y.to_bits(), z: z.to_bits() }
}

#[test]
fn material_reference_keeps_id() {
    assert_eq!(MaterialReference::new(7).id, 7);
}

#[test]
fn materials_get_indices_in_insertion_order() {
    let mut world = World::new();
    for i in 0..5u32 {
        let r = world.add_material(Material::dielectric((1.0f32 + i as f32).to_bits()));
        assert_eq!(r.id, i);
    }
    assert_eq!(world.materials().len(), 5);
    assert_eq!(world.materials()[3], Material::dielectric(4.0f32.to_bits()));
}

#[test]
fn sphere_uses_returned_reference() {
    let mut world = World::new();
    let ground = world.add_material(Material::lambertian(bits(0.5, 0.5, 0.5)));
    world.add_sphere(Sphere::new(bits(0.0, -1000.0, 0.0), 1000.0f32.to_bits(), ground));
    let glass = world.add_material(Material::dielectric(1.5f32.to_bits()));
    world.add_sphere(Sphere::new(bits(0.0, 1.0, 0.0), 1.0f32.to_bits(), glass));
    assert_eq!(world.spheres().len(), 2);
    for s in world.spheres() {
        assert!((s.material.id as usize) < world.materials().len());
    }
    assert_eq!(world.spheres()[1].material.id, 1);
}

#[test]
fn material_records_are_padded_and_tagged() {
    let mut world = World::new();
    world.add_material(Material::lambertian(bits(0.5, 0.25, 0.125)));
    world.add_material(Material::metal(bits(0.7, 0.6, 0.5), 0.25f32.to_bits()));
    world.add_material(Material::dielectric(1.5f32.to_bits()));
    let words = world.material_buffer();
    assert_eq!(words.len(), 24);
    assert_eq!(
        &words[0..8],
        &[0.5f32.to_bits(), 0.25f32.to_bits(), 0.125f32.to_bits(), 0, 0, 0, 0, 0]
    );
    assert_eq!(
        &words[8..16],
        &[0.7f32.to_bits(), 0.6f32.to_bits(), 0.5f32.to_bits(), 0.25f32.to_bits(), 1, 0, 0, 0]
    );
    assert_eq!(&words[16..24], &[1.5f32.to_bits(), 0, 0, 0, 2, 0, 0, 0]);
}

#[test]
fn sphere_records_are_padded() {
    let mut world = World::new();
    let m = world.add_material(Material::lambertian(bits(0.4, 0.2, 0.1)));
    let n = world.add_material(Material::lambertian(bits(0.1, 0.2, 0.4)));
    world.add_sphere(Sphere::new(bits(-4.0, 1.0, 0.0), 1.0f32.to_bits(), m));
    world.add_sphere(Sphere::new(bits(4.0, 0.2, 3.0), 0.2f32.to_bits(), n));
    let words = world.sphere_buffer();
    assert_eq!(words.len(), 16);
    assert_eq!(
        &words[0..8],
        &[(-4.0f32).to_bits(), 1.0f32.to_bits(), 0, 1.0f32.to_bits(), 0, 0, 0, 0]
    );
    assert_eq!(
        &words[8..16],
        &[4.0f32.to_bits(), 0.2f32.to_bits(), 3.0f32.to_bits(), 0.2f32.to_bits(), 1, 0, 0, 0]
    );
}

#[test]
fn empty_scene_uploads_no_words() {
    let world = World::new();
    assert!(world.material_buffer().is_empty());
    assert!(world.sphere_buffer().is_empty());
    assert!(world.materials().is_empty());
    assert!(world.spheres().is_empty());
}

#[test]
fn camera_uniform_record_layout() {
    let u = CameraUniform::new(
        bits(13.0, 2.0, 3.0),
        3,
        bits(1.0, 2.0, 3.0),
        5,
        bits(0.5, 0.0, 0.0),
        bits(0.0, -0.5, 0.0),
    );
    let w = u.words();
    assert_eq!(w.len(), 16);
    assert_eq!(w[3], 3);
    assert_eq!(w[7], 5);
    assert_eq!(w[11], 0);
    assert_eq!(w[15], 0);
    assert_eq!(w[0], 13.0f32.to_bits());
    assert_eq!(w[8], 0.5f32.to_bits());
    assert_eq!(w[13], (-0.5f32).to_bits());
}
