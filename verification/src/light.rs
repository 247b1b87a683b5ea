//! Point lights and the fixed-capacity uniform arrays uploaded per draw.
//!
//! Components are `f32` bit patterns. A slot holding the maximal float in
//! every component is the sentinel for "no light".

use vstd::prelude::*;
use crate::floatbits::F32_MAX_BITS;
use crate::floatbits::F32_ONE_BITS;

verus! {

/// How many light slots every draw uploads.
pub const MAX_LIGHT_COUNT: usize = 512;

/// A point light: position and colour.
#[derive(Clone, Copy, PartialEq, Eq, Debug)]
pub struct Light {
    pub position: [u32; 3],
    pub colour: [u32; 3],
}

/// The sentinel slot: every component the maximal float.
pub open spec fn sentinel_light() -> Light {
    Light {
        position: [F32_MAX_BITS, F32_MAX_BITS, F32_MAX_BITS],
        colour: [F32_MAX_BITS, F32_MAX_BITS, F32_MAX_BITS],
    }
}

impl Light {
    /// A light at `position`; without an explicit colour it shines white,
    /// (1, 1, 1).
    pub fn new(position: [u32; 3], colour: Option<[u32; 3]>) -> (r: Light)
        ensures
            r.position == position,
            match colour {
                Some(c) => r.colour == c,
                None => r.colour == [F32_ONE_BITS, F32_ONE_BITS, F32_ONE_BITS],
            },
    {
        let colour = match colour {
            Some(c) => c,
            None => [F32_ONE_BITS, F32_ONE_BITS, F32_ONE_BITS],
        };
        Light { position, colour }
    }
}

impl Default for Light {
    /// The unused-slot sentinel.
    fn default() -> (r: Light)
        ensures
            r == sentinel_light(),
    {
        Light {
            position: [F32_MAX_BITS, F32_MAX_BITS, F32_MAX_BITS],
            colour: [F32_MAX_BITS, F32_MAX_BITS, F32_MAX_BITS],
        }
    }
}

/// Builds the two per-draw uniform arrays: slot `i` carries light `i`'s
/// position and colour, and every slot past the last light is
/// sentinel-filled. At most [`MAX_LIGHT_COUNT`] lights are uploaded.
pub fn light_uniform_arrays(lights: &Vec<Light>) -> (r: (Vec<[u32; 3]>, Vec<[u32; 3]>))
    ensures
        r.0@.len() == MAX_LIGHT_COUNT,
        r.1@.len() == MAX_LIGHT_COUNT,
        forall|i: int| 0 <= i < MAX_LIGHT_COUNT ==> {
            &&& r.0@[i] == (if i < lights@.len() {
                lights@[i].position
            } else {
                sentinel_light().position
            })
            &&& r.1@[i] == (if i < lights@.len() {
                lights@[i].colour
            } else {
                sentinel_light().colour
            })
        },
{
    let mut positions: Vec<[u32; 3]> = Vec::new();
    let mut colours: Vec<[u32; 3]> = Vec::new();
    let mut i: usize = 0;
    while i < MAX_LIGHT_COUNT
        invariant
            i <= MAX_LIGHT_COUNT,
            positions@.len() == i,
            colours@.len() == i,
            forall|k: int| 0 <= k < i ==> {
                &&& positions@[k] == (if k < lights@.len() {
                    lights@[k].position
                } else {
                    sentinel_light().position
                })
                &&& colours@[k] == (if k < lights@.len() {
                    lights@[k].colour
                } else {
                    sentinel_light().colour
                })
            },
        decreases MAX_LIGHT_COUNT - i,
    {
        if i < lights.len() {
            positions.push(lights[i].position);
            colours.push(lights[i].colour);
        } else {
            positions.push([F32_MAX_BITS, F32_MAX_BITS, F32_MAX_BITS]);
            colours.push([F32_MAX_BITS, F32_MAX_BITS, F32_MAX_BITS]);
        }
        i = i + 1;
    }
    (positions, colours)
}

} // verus!
