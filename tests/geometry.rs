use pathtrace::hitable::{closest_hit, pick_root, HitRecord, Root, Sphere};
use pathtrace::material::{Lambertian, Material};
use pathtrace::vec::{reflect, Lattice3, Ray};

#[test]
fn reflect_off_a_floor() {
    let v = Lattice3 { x: 1, y: -1, z: 0 };
    let n = Lattice3 { x: 0, y: 1, z: 0 };
    assert_eq!(reflect(v, n), Lattice3 { x: 1, y: 1, z: 0 });
}

#[test]
fn reflect_keeps_a_grazing_vector() {
    let v = Lattice3 { x: 3, y: 0, z: -4 };
    let n = Lattice3 { x: 0, y: 1, z: 0 };
    assert_eq!(reflect(v, n), v);
}

#[test]
fn reflect_reverses_a_head_on_vector() {
    let v = Lattice3 { x: 0, y: 0, z: -7 };
    let n = Lattice3 { x: 0, y: 0, z: 1 };
    assert_eq!(reflect(v, n), Lattice3 { x: 0, y: 0, z: 7 });
}

#[test]
fn lattice_dot_product() {
    let a = Lattice3 { x: 1, y: 2, z: 3 };
    let b = Lattice3 { x: -4, y: 5, z: 6 };
    assert_eq!(a.dot(b), 24);
}

#[test]
fn ray_keeps_its_parts() {
    let r = Ray::new((1, 2, 3), (0, 0, -1));
    assert_eq!(r.origin, (1, 2, 3));
    assert_eq!(r.direction, (0, 0, -1));
}

#[test]
fn tangent_ray_misses() {
    assert_eq!(pick_root(false, true, true), None);
    assert_eq!(pick_root(false, false, false), None);
}

#[test]
fn near_root_wins_when_both_fit() {
    assert_eq!(pick_root(true, true, true), Some(Root::Near));
    assert_eq!(pick_root(true, true, false), Some(Root::Near));
}

#[test]
fn far_root_only_when_near_is_out() {
    assert_eq!(pick_root(true, false, true), Some(Root::Far));
    assert_eq!(pick_root(true, false, false), None);
}

#[test]
fn closest_of_nothing() {
    assert_eq!(closest_hit(&vec![]), None);
    assert_eq!(closest_hit(&vec![None, None, None]), None);
}

#[test]
fn closest_keeps_the_first_of_equals() {
    let keys = vec![None, Some(5), Some(3), Some(3), None];
    assert_eq!(closest_hit(&keys), Some(2));
}

#[test]
fn closest_finds_a_late_minimum() {
    let keys = vec![Some(9), Some(8), None, Some(1)];
    assert_eq!(closest_hit(&keys), Some(3));
}

#[test]
fn closest_with_float_distance_keys() {
    // positive finite floats order as their bit patterns do
    let ts = [Some(2.5f32), None, Some(0.75f32), Some(1.0f32)];
    let keys: Vec<Option<u32>> = ts.iter().map(|t| t.map(|t| t.to_bits())).collect();
    assert_eq!(closest_hit(&keys), Some(2));
}

#[test]
fn scene_records_carry_a_handle() {
    let s = Sphere {
        center: (0.0f32, -100.5f32, -1.0f32),
        radius: 100.0f32,
        material: Material::Lambertian(Lambertian { albedo: (0.5f32, 0.5f32, 0.5f32) }),
    };
    let h = HitRecord { t: 1.0f32, p: (0.0f32, -0.5f32, -1.0f32), normal: (0.0f32, 1.0f32, 0.0f32), material: 0 };
    assert_eq!(h.material, 0);
    assert_eq!(s.radius, 100.0);
}
