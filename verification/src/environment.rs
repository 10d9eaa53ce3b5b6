//! Scene environment: the bound environment and irradiance cubemaps and the
//! per-frame light list.  Light records carry their scalar fields as
//! IEEE-754 bit patterns, exactly as they are uploaded to the lighting
//! shader's constant buffer.

use vstd::prelude::*;
use crate::texture::Texture;

verus! {

/// Bit pattern of the value one as a 32-bit float.
pub const F32_ONE_BITS: u32 = 0x3F800000;

/// Bit pattern of the default linear light attenuation (eight hundredths)
/// as a 32-bit float.
pub const F32_LINEAR_ATTENUATION_BITS: u32 = 0x3DA3D70A;

/// Most lights a scene may hold.
pub const MAX_LIGHT_COUNT: usize = 10;

/// One light's constant-buffer record; scalar and vector fields are 32-bit
/// float bit patterns.
#[derive(Clone, Copy, Debug, PartialEq, Eq)]
pub struct Light {
    pub position: [u32; 4],
    pub direction: [u32; 4],
    pub color: [u32; 4],
    pub intensity: u32,
    pub cone_angle: u32,
    pub const_attenuation: u32,
    pub linear_attenuation: u32,
    pub quadratic_attenuation: u32,
    pub light_type: u32,
}

impl DeepView for Light {
    type V = Light;

    open spec fn deep_view(&self) -> Light {
        *self
    }
}

impl Light {
    /// A directional light: direction and color with zero and one filled
    /// into the fourth lanes, default attenuation, light type zero.
    pub fn CreateDirectionalLight(color: [u32; 3], intensity: u32, direction: [u32; 3]) -> (r:
        Light)
        ensures
            r.position == [0u32, 0u32, 0u32, 0u32],
            r.direction == [direction[0], direction[1], direction[2], 0u32],
            r.color == [color[0], color[1], color[2], F32_ONE_BITS],
            r.intensity == intensity,
            r.cone_angle == 0,
            r.const_attenuation == F32_ONE_BITS,
            r.linear_attenuation == F32_LINEAR_ATTENUATION_BITS,
            r.quadratic_attenuation == 0,
            r.light_type == 0,
    {
        Light {
            position: [0, 0, 0, 0],
            direction: [direction[0], direction[1], direction[2], 0],
            color: [color[0], color[1], color[2], F32_ONE_BITS],
            intensity,
            cone_angle: 0,
            const_attenuation: F32_ONE_BITS,
            linear_attenuation: F32_LINEAR_ATTENUATION_BITS,
            quadratic_attenuation: 0,
            light_type: 0,
        }
    }

    /// A point light: position with one in the fourth lane, light type one.
    pub fn CreatePointLight(color: [u32; 3], intensity: u32, position: [u32; 3]) -> (r: Light)
        ensures
            r.position == [position[0], position[1], position[2], F32_ONE_BITS],
            r.direction == [0u32, 0u32, 0u32, 0u32],
            r.color == [color[0], color[1], color[2], F32_ONE_BITS],
            r.intensity == intensity,
            r.cone_angle == 0,
            r.const_attenuation == F32_ONE_BITS,
            r.linear_attenuation == F32_LINEAR_ATTENUATION_BITS,
            r.quadratic_attenuation == 0,
            r.light_type == 1,
    {
        Light {
            position: [position[0], position[1], position[2], F32_ONE_BITS],
            direction: [0, 0, 0, 0],
            color: [color[0], color[1], color[2], F32_ONE_BITS],
            intensity,
            cone_angle: 0,
            const_attenuation: F32_ONE_BITS,
            linear_attenuation: F32_LINEAR_ATTENUATION_BITS,
            quadratic_attenuation: 0,
            light_type: 1,
        }
    }

    /// A spot light: position, cone angle, light type two.
    pub fn CreateSpotLight(color: [u32; 3], intensity: u32, position: [u32; 3], coneAngle: u32)
        -> (r: Light)
        ensures
            r.position == [position[0], position[1], position[2], F32_ONE_BITS],
            r.direction == [0u32, 0u32, 0u32, 0u32],
            r.color == [color[0], color[1], color[2], F32_ONE_BITS],
            r.intensity == intensity,
            r.cone_angle == coneAngle,
            r.const_attenuation == F32_ONE_BITS,
            r.linear_attenuation == F32_LINEAR_ATTENUATION_BITS,
            r.quadratic_attenuation == 0,
            r.light_type == 2,
    {
        Light {
            position: [position[0], position[1], position[2], F32_ONE_BITS],
            direction: [0, 0, 0, 0],
            color: [color[0], color[1], color[2], F32_ONE_BITS],
            intensity,
            cone_angle: coneAngle,
            const_attenuation: F32_ONE_BITS,
            linear_attenuation: F32_LINEAR_ATTENUATION_BITS,
            quadratic_attenuation: 0,
            light_type: 2,
        }
    }
}

/// A copy of a light list.
pub fn copy_lights(src: &Vec<Light>) -> (r: Vec<Light>)
    ensures
        r@ == src@,
{
    let n = src.len();
    let mut v: Vec<Light> = Vec::new();
    let mut i: usize = 0;
    while i < n
        invariant
            n == src@.len(),
            i <= n,
            v@ == src@.take(i as int),
        decreases n - i,
    {
        v.push(src[i]);
        proof {
            assert(v@ =~= src@.take(i as int + 1));
        }
        i = i + 1;
    }
    proof {
        assert(src@.take(n as int) =~= src@);
    }
    v
}

/// The scene's image-based-lighting maps and its lights.
pub struct Environment {
    pub environment_map: Texture,
    pub irradiance_map: Texture,
    pub lights: Vec<Light>,
}

impl Environment {
    pub open spec fn wf(self) -> bool {
        self.lights@.len() <= MAX_LIGHT_COUNT
    }

    /// An environment with no lights, bound to the given fallback cubemap.
    pub fn Create(black_cube: &Texture) -> (r: Environment)
        ensures
            r.wf(),
            r.environment_map == *black_cube,
            r.irradiance_map == *black_cube,
            r.lights@.len() == 0,
    {
        Environment {
            environment_map: black_cube.Duplicate(),
            irradiance_map: black_cube.Duplicate(),
            lights: Vec::new(),
        }
    }

    /// Binds freshly baked environment and irradiance maps.
    pub fn SetEnvironmentMap(&mut self, environmentMap: Texture, irradianceMap: Texture)
        ensures
            final(self).environment_map == environmentMap,
            final(self).irradiance_map == irradianceMap,
            final(self).lights@ == old(self).lights@,
    {
        self.environment_map = environmentMap;
        self.irradiance_map = irradianceMap;
    }

    /// Appends a light; the scene holds at most `MAX_LIGHT_COUNT` of them.
    pub fn AddLight(&mut self, light: Light)
        requires
            old(self).lights@.len() < MAX_LIGHT_COUNT,
        ensures
            final(self).lights@ == old(self).lights@.push(light),
            final(self).environment_map == old(self).environment_map,
            final(self).irradiance_map == old(self).irradiance_map,
    {
        self.lights.push(light);
    }

    pub fn GetEnvironmentMap(&self) -> (r: &Texture)
        ensures
            r == &self.environment_map,
    {
        &self.environment_map
    }

    pub fn GetIrradianceMap(&self) -> (r: &Texture)
        ensures
            r == &self.irradiance_map,
    {
        &self.irradiance_map
    }

    pub fn GetLights(&self) -> (r: &Vec<Light>)
        ensures
            r == &self.lights,
    {
        &self.lights
    }
}

} // verus!
