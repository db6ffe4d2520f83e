//! The three materials and how each answers an incoming ray.
use crate::vec::Ray;
use vstd::prelude::*;

verus! {

/// A material's answer to an incoming ray: the colour it multiplies by and the
/// continuation ray, or `None` where the ray is absorbed.
#[derive(Clone, Copy, Debug)]
pub struct Scatter<V> {
    pub attenuation: V,
    pub ray: Option<Ray<V>>,
}

/// A diffuse surface.
#[derive(Clone, Copy, Debug)]
pub struct Lambertian<V> {
    pub albedo: V,
}

/// A specular surface whose reflections are blurred by `fuzz`.
#[derive(Clone, Copy, Debug)]
pub struct Metal<V, S> {
    pub albedo: V,
    pub fuzz: S,
}

/// A clear refracting medium.
#[derive(Clone, Copy, Debug)]
pub struct Dielectric<S> {
    pub ref_idx: S,
}

/// The closed set of materials an object may own.
#[derive(Clone, Copy, Debug)]
pub enum Material<V, S> {
    Lambertian(Lambertian<V>),
    Metal(Metal<V, S>),
    Dielectric(Dielectric<S>),
}

/// Which way a ray crosses a dielectric's surface.
#[derive(Clone, Copy, Debug, PartialEq, Eq, Structural)]
pub enum Crossing {
    /// From outside into the medium: the normal is kept, `ni/nt = 1/ref_idx`.
    Entering,
    /// From inside out of the medium: the normal is flipped, `ni/nt = ref_idx`.
    Exiting,
}

impl<V: Copy> Lambertian<V> {
    /// A diffuse bounce never absorbs: the ray leaves `hit_point` along
    /// `direction` (toward `normal + a point of the unit ball`), tinted by the albedo.
    pub fn scatter(&self, hit_point: V, direction: V) -> (r: Scatter<V>)
        ensures
            r.attenuation == self.albedo,
            r.ray == Some(Ray { origin: hit_point, direction }),
    {
        Scatter { attenuation: self.albedo, ray: Some(Ray::new(hit_point, direction)) }
    }
}

impl<V: Copy, S> Metal<V, S> {
    /// The fuzzed mirror ray leaves `hit_point` along `direction` only when it
    /// points out of the surface (`direction . normal > 0`); otherwise it is
    /// absorbed.
    pub fn scatter(&self, hit_point: V, direction: V, leaves_surface: bool) -> (r: Scatter<V>)
        ensures
            r.attenuation == self.albedo,
            r.ray == if leaves_surface {
                Some(Ray { origin: hit_point, direction })
            } else {
                None
            },
    {
        let ray = if leaves_surface {
            Some(Ray::new(hit_point, direction))
        } else {
            None
        };
        Scatter { attenuation: self.albedo, ray }
    }
}

impl<S> Dielectric<S> {
    /// The ray exits the medium when it runs along the normal
    /// (`direction . normal > 0`), and enters it otherwise.
    pub fn crossing(direction_along_normal: bool) -> (r: Crossing)
        ensures
            r == if direction_along_normal { Crossing::Exiting } else { Crossing::Entering },
    {
        if direction_along_normal {
            Crossing::Exiting
        } else {
            Crossing::Entering
        }
    }

    /// A dielectric never absorbs and never tints (`white` is `(1, 1, 1)`).
    /// It refracts when Snell's law allows it (`refracted` is present) and the
    /// uniform draw exceeds Schlick's reflectance; it reflects otherwise.
    pub fn scatter<V: Copy>(
        &self,
        white: V,
        hit_point: V,
        refracted: Option<V>,
        reflected: V,
        draw_exceeds_reflectance: bool,
    ) -> (r: Scatter<V>)
        ensures
            r.attenuation == white,
            r.ray == Some(Ray {
                origin: hit_point,
                direction: match refracted {
                    Some(d) if draw_exceeds_reflectance => d,
                    _ => reflected,
                },
            }),
    {
        let direction = match refracted {
            Some(d) if draw_exceeds_reflectance => d,
            _ => reflected,
        };
        Scatter { attenuation: white, ray: Some(Ray::new(hit_point, direction)) }
    }
}

} // verus!
