use pathtrace::integrator::{trace_step, Event, Step, MAX_DEPTH};
use pathtrace::material::{Crossing, Dielectric, Lambertian, Metal};
use pathtrace::raster::{pixel_order, pixel_seed, SEED_STRIDE};
use pathtrace::vec::Ray;

#[test]
fn diffuse_always_scatters() {
    let m = Lambertian { albedo: (1, 2, 3) };
    let s = m.scatter((0, 0, 0), (0, 1, 0));
    assert_eq!(s.attenuation, (1, 2, 3));
    let r = s.ray.unwrap();
    assert_eq!(r.origin, (0, 0, 0));
    assert_eq!(r.direction, (0, 1, 0));
}

#[test]
fn metal_into_the_surface_is_absorbed() {
    let m = Metal { albedo: (7, 7, 7), fuzz: 1 };
    let s = m.scatter((0, 0, 0), (0, -1, 0), false);
    assert_eq!(s.attenuation, (7, 7, 7));
    assert!(s.ray.is_none());
}

#[test]
fn metal_out_of_the_surface_scatters() {
    let m = Metal { albedo: (7, 7, 7), fuzz: 0 };
    let s = m.scatter((1, 1, 1), (1, 1, 0), true);
    let r: Ray<(i32, i32, i32)> = s.ray.unwrap();
    assert_eq!(r.origin, (1, 1, 1));
    assert_eq!(r.direction, (1, 1, 0));
}

#[test]
fn dielectric_crossing_side() {
    assert_eq!(Dielectric::<f32>::crossing(true), Crossing::Exiting);
    assert_eq!(Dielectric::<f32>::crossing(false), Crossing::Entering);
}

#[test]
fn dielectric_refracts_when_the_draw_exceeds() {
    let d = Dielectric { ref_idx: 1.5f32 };
    let s = d.scatter((1, 1, 1), (0, 0, 0), Some((0, -1, 0)), (0, 1, 0), true);
    assert_eq!(s.attenuation, (1, 1, 1));
    assert_eq!(s.ray.unwrap().direction, (0, -1, 0));
}

#[test]
fn dielectric_reflects_otherwise() {
    let d = Dielectric { ref_idx: 1.5f32 };
    let low = d.scatter((1, 1, 1), (0, 0, 0), Some((0, -1, 0)), (0, 1, 0), false);
    assert_eq!(low.ray.unwrap().direction, (0, 1, 0));
    let total = d.scatter((1, 1, 1), (0, 0, 0), None, (0, 1, 0), true);
    assert_eq!(total.ray.unwrap().direction, (0, 1, 0));
}

#[test]
fn zero_depth_blocks_every_bounce() {
    assert_eq!(trace_step(0, 0, Event::Scattered), Step::Black);
    assert_eq!(trace_step(0, 0, Event::Absorbed), Step::Black);
    assert_eq!(trace_step(0, 0, Event::Miss), Step::Background);
}

#[test]
fn depth_cap_is_fifty() {
    assert_eq!(MAX_DEPTH, 50);
    assert_eq!(trace_step(49, MAX_DEPTH, Event::Scattered), Step::Continue);
    assert_eq!(trace_step(50, MAX_DEPTH, Event::Scattered), Step::Black);
    assert_eq!(trace_step(3, MAX_DEPTH, Event::Absorbed), Step::Black);
    assert_eq!(trace_step(3, MAX_DEPTH, Event::Miss), Step::Background);
}

#[test]
fn pixels_start_at_the_top_row() {
    let order = pixel_order(3, 2);
    assert_eq!(order, vec![(0, 1), (1, 1), (2, 1), (0, 0), (1, 0), (2, 0)]);
}

#[test]
fn pixel_count_is_width_times_height() {
    assert_eq!(pixel_order(800, 400).len(), 320000);
    assert!(pixel_order(0, 5).is_empty());
    assert!(pixel_order(5, 0).is_empty());
}

#[test]
fn pixel_seeds_are_fixed() {
    assert_eq!(pixel_seed(7, 0), 7);
    assert_eq!(pixel_seed(0, 1), SEED_STRIDE);
    assert_eq!(pixel_seed(1, 2), SEED_STRIDE.wrapping_mul(2).wrapping_add(1));
    assert_eq!(pixel_seed(u64::MAX, 1), SEED_STRIDE - 1);
    assert_ne!(pixel_seed(9, 3), pixel_seed(9, 4));
}
