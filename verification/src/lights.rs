//! Light uniform packing: gather the ambient colour and every light
//! component into the effect's fixed-capacity light uniforms.
//!
//! Inclusion follows entity iteration order.  Lights beyond a buffer's
//! capacity are silently dropped — a documented constraint, not an error —
//! and since entity iteration order is unspecified, which lights are
//! dropped under over-budget conditions is not deterministic.

use vstd::prelude::*;
use crate::types::{capped, lemma_capped_push, Rgba, Vec3};

verus! {

/// Capacity, in lights, of the point-light uniform buffer.
pub const MAX_POINT_LIGHTS: usize = 128;

/// Capacity, in lights, of the directional-light uniform buffer.
pub const MAX_DIRECTIONAL_LIGHTS: usize = 16;

/// A point light, radiating from a centre within a radius.
#[derive(Clone, Copy, Debug, PartialEq, Eq, Structural)]
pub struct PointLight {
    pub center: Vec3,
    pub radius: u32,
    pub intensity: u32,
    pub color: Rgba,
}

/// A directional light, arriving from one direction everywhere.
#[derive(Clone, Copy, Debug, PartialEq, Eq, Structural)]
pub struct DirectionalLight {
    pub direction: Vec3,
    pub color: Rgba,
}

/// An illumination source carried by an entity.
#[derive(Clone, Copy, Debug, PartialEq, Eq, Structural)]
pub enum Light {
    Point(PointLight),
    Directional(DirectionalLight),
}

/// The packed light uniforms of one frame.
#[derive(Clone, Debug, PartialEq)]
pub struct LightUniforms {
    pub ambient: Rgba,
    pub point: Vec<PointLight>,
    pub directional: Vec<DirectionalLight>,
}

/// The point lights among a column of light components, in entity order.
pub open spec fn point_lights_of(lights: Seq<Option<Light>>) -> Seq<PointLight>
    decreases lights.len(),
{
    if lights.len() == 0 {
        Seq::empty()
    } else {
        let rest = point_lights_of(lights.drop_last());
        match lights.last() {
            Some(Light::Point(p)) => rest.push(p),
            _ => rest,
        }
    }
}

/// The directional lights among a column of light components, in entity
/// order.
pub open spec fn directional_lights_of(lights: Seq<Option<Light>>) -> Seq<DirectionalLight>
    decreases lights.len(),
{
    if lights.len() == 0 {
        Seq::empty()
    } else {
        let rest = directional_lights_of(lights.drop_last());
        match lights.last() {
            Some(Light::Directional(d)) => rest.push(d),
            _ => rest,
        }
    }
}

/// Pack the ambient colour and the light components into the fixed-capacity
/// light uniforms.  Each buffer receives the first lights of its kind in
/// entity order, never more than its capacity; the rest are dropped.
pub fn set_light_args(ambient: Rgba, lights: &Vec<Option<Light>>) -> (r: LightUniforms)
    ensures
        r.ambient == ambient,
        r.point@ == capped(point_lights_of(lights@), MAX_POINT_LIGHTS as int),
        r.directional@ == capped(
            directional_lights_of(lights@),
            MAX_DIRECTIONAL_LIGHTS as int,
        ),
        r.point@.len() <= MAX_POINT_LIGHTS,
        point_lights_of(lights@).len() >= MAX_POINT_LIGHTS ==> r.point@.len()
            == MAX_POINT_LIGHTS,
        r.directional@.len() <= MAX_DIRECTIONAL_LIGHTS,
        directional_lights_of(lights@).len() >= MAX_DIRECTIONAL_LIGHTS ==> r.directional@.len()
            == MAX_DIRECTIONAL_LIGHTS,
{
    let mut point: Vec<PointLight> = Vec::new();
    let mut directional: Vec<DirectionalLight> = Vec::new();
    let n = lights.len();
    let mut i: usize = 0;
    while i < n
        invariant
            i <= n,
            n == lights@.len(),
            point@ == capped(point_lights_of(lights@.take(i as int)), MAX_POINT_LIGHTS as int),
            directional@ == capped(
                directional_lights_of(lights@.take(i as int)),
                MAX_DIRECTIONAL_LIGHTS as int,
            ),
        decreases n - i,
    {
        proof {
            assert(lights@.take(i as int + 1).drop_last() =~= lights@.take(i as int));
            assert(lights@.take(i as int + 1).last() == lights@[i as int]);
        }
        match lights[i] {
            Some(Light::Point(p)) => {
                proof {
                    lemma_capped_push(
                        point_lights_of(lights@.take(i as int)),
                        p,
                        MAX_POINT_LIGHTS as int,
                    );
                }
                if point.len() < MAX_POINT_LIGHTS {
                    point.push(p);
                }
            },
            Some(Light::Directional(d)) => {
                proof {
                    lemma_capped_push(
                        directional_lights_of(lights@.take(i as int)),
                        d,
                        MAX_DIRECTIONAL_LIGHTS as int,
                    );
                }
                if directional.len() < MAX_DIRECTIONAL_LIGHTS {
                    directional.push(d);
                }
            },
            None => {},
        }
        i += 1;
    }
    proof {
        assert(lights@.take(n as int) =~= lights@);
    }
    LightUniforms { ambient, point, directional }
}

} // verus!
