//! A PBR material: up to four optional textures (each either absent, falling
//! back to a cache default, or an owned texture) plus the scalar factors.
//!
//! Scalar factors are carried as raw IEEE-754 bit patterns, so the library
//! can state and compare them exactly without floating-point arithmetic; the
//! host reinterprets them when it uploads uniforms.

use vstd::prelude::*;

use crate::texture::Texture;

verus! {

/// The bit pattern of the scalar one.
pub const ONE_BITS: u32 = 0x3F800000;

/// The bit pattern of the scalar zero.
pub const ZERO_BITS: u32 = 0x00000000;

/// The bit pattern of the scalar minus one.
pub const NEG_ONE_BITS: u32 = 0xBF800000;

/// Three color components as scalar bit patterns.
#[derive(Copy, Debug, Clone, PartialEq, Eq, Structural)]
pub struct ColorBits {
    pub x: u32,
    pub y: u32,
    pub z: u32,
}

pub struct Material {
    pub albedo_map: Option<Texture>,
    pub normal_map: Option<Texture>,
    pub specular_map: Option<Texture>,
    pub emissive_map: Option<Texture>,
    pub color: ColorBits,
    pub roughness: u32,
    pub metallic: u32,
    pub ao: u32,
}

impl Material {
    /// A material with the given factors and no maps.
    pub fn new(color: ColorBits, roughness: u32, metallic: u32, ao: u32) -> (m: Material)
        ensures
            m.albedo_map is None,
            m.normal_map is None,
            m.specular_map is None,
            m.emissive_map is None,
            m.color == color,
            m.roughness == roughness,
            m.metallic == metallic,
            m.ao == ao,
    {
        Material {
            albedo_map: None,
            normal_map: None,
            specular_map: None,
            emissive_map: None,
            color,
            roughness,
            metallic,
            ao,
        }
    }
}

impl Default for Material {
    /// The default material: solid white, fully rough, not metallic, full
    /// ambient occlusion, no maps.
    fn default() -> (m: Material)
        ensures
            m.albedo_map is None,
            m.normal_map is None,
            m.specular_map is None,
            m.emissive_map is None,
            m.color == (ColorBits { x: ONE_BITS, y: ONE_BITS, z: ONE_BITS }),
            m.roughness == ONE_BITS,
            m.metallic == ZERO_BITS,
            m.ao == ONE_BITS,
    {
        Material {
            albedo_map: None,
            normal_map: None,
            specular_map: None,
            emissive_map: None,
            color: ColorBits { x: ONE_BITS, y: ONE_BITS, z: ONE_BITS },
            roughness: ONE_BITS,
            metallic: ZERO_BITS,
            ao: ONE_BITS,
        }
    }
}

} // verus!
