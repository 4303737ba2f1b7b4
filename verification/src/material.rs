use crate::color::Color;
use crate::scalar::Scalar;
use crate::vector::Point;
use vstd::prelude::*;

verus! {

/// The pattern of `0.1`, the ambient share of the default material.
pub const DEFAULT_AMBIENT_BITS: u64 = 0x3fb9_9999_9999_999a;

/// The pattern of `0.9`, the diffuse share of the default material.
pub const DEFAULT_DIFFUSE_BITS: u64 = 0x3fec_cccc_cccc_cccd;

/// The pattern of `0.9`, the specular share of the default material.
pub const DEFAULT_SPECULAR_BITS: u64 = 0x3fec_cccc_cccc_cccd;

/// The pattern of `200.0`, the shininess of the default material.
pub const DEFAULT_SHININESS_BITS: u64 = 0x4069_0000_0000_0000;

/// A single point source of light that shines the same in all directions.
#[derive(Clone, Copy, Debug)]
pub struct PointLight {
    position: Point,
    intensity: Color,
}

impl PointLight {
    /// Where the light stands.
    pub closed spec fn spec_position(self) -> Point {
        self.position
    }

    /// The colour and brightness of the light.
    pub closed spec fn spec_intensity(self) -> Color {
        self.intensity
    }

    pub fn new(position: Point, intensity: Color) -> (light: PointLight)
        ensures
            light.spec_position() == position,
            light.spec_intensity() == intensity,
    {
        PointLight { position, intensity }
    }

    pub fn position(&self) -> (position: &Point)
        ensures
            *position == self.spec_position(),
    {
        &self.position
    }

    pub fn intensity(&self) -> (intensity: &Color)
        ensures
            *intensity == self.spec_intensity(),
    {
        &self.intensity
    }
}

/// How a surface answers to light: its colour, the shares of ambient, diffuse
/// and specular light, and the exponent of the specular highlight.
#[derive(Clone, Copy, Debug)]
pub struct Material {
    color: Color,
    ambient: Scalar,
    diffuse: Scalar,
    specular: Scalar,
    shininess: Scalar,
}

/// The three terms of the reflection model, in the order in which they are
/// added up.
#[derive(Clone, Copy, Debug)]
pub struct Shading {
    pub ambient: Color,
    pub diffuse: Color,
    pub specular: Color,
}

/// Whether the light lies behind the surface: the cosine between the
/// direction to the light and the normal is below zero.
pub open spec fn light_is_behind(light_dot_normal: Scalar) -> bool {
    light_dot_normal.below(Scalar::zero())
}

/// Whether the reflected light misses the eye: the cosine between the
/// reflection and the direction to the eye is at most zero.
pub open spec fn reflection_misses_eye(reflect_dot_eye: Scalar) -> bool {
    reflect_dot_eye.at_most(Scalar::zero())
}

impl Material {
    /// Whether `self` is the default material: white, with an ambient share of
    /// `0.1`, diffuse and specular shares of `0.9` and a shininess of `200.0`.
    pub open spec fn is_default(self) -> bool {
        &&& self.spec_color().is_white()
        &&& self.spec_ambient().bits == DEFAULT_AMBIENT_BITS
        &&& self.spec_diffuse().bits == DEFAULT_DIFFUSE_BITS
        &&& self.spec_specular().bits == DEFAULT_SPECULAR_BITS
        &&& self.spec_shininess().bits == DEFAULT_SHININESS_BITS
    }

    /// The surface's own colour.
    pub closed spec fn spec_color(self) -> Color {
        self.color
    }

    /// The share of ambient light.
    pub closed spec fn spec_ambient(self) -> Scalar {
        self.ambient
    }

    /// The share of diffuse light.
    pub closed spec fn spec_diffuse(self) -> Scalar {
        self.diffuse
    }

    /// The share of specular light.
    pub closed spec fn spec_specular(self) -> Scalar {
        self.specular
    }

    /// The exponent of the specular highlight.
    pub closed spec fn spec_shininess(self) -> Scalar {
        self.shininess
    }

    pub fn new(color: Color, ambient: Scalar, diffuse: Scalar, specular: Scalar, shininess: Scalar) -> (m:
        Material)
        ensures
            m.spec_color() == color,
            m.spec_ambient() == ambient,
            m.spec_diffuse() == diffuse,
            m.spec_specular() == specular,
            m.spec_shininess() == shininess,
    {
        Material { color, ambient, diffuse, specular, shininess }
    }

    pub fn color(&self) -> (color: &Color)
        ensures
            *color == self.spec_color(),
    {
        &self.color
    }

    pub fn ambient(&self) -> (ambient: Scalar)
        ensures
            ambient == self.spec_ambient(),
    {
        self.ambient
    }

    pub fn diffuse(&self) -> (diffuse: Scalar)
        ensures
            diffuse == self.spec_diffuse(),
    {
        self.diffuse
    }

    pub fn specular(&self) -> (specular: Scalar)
        ensures
            specular == self.spec_specular(),
    {
        self.specular
    }

    pub fn shininess(&self) -> (shininess: Scalar)
        ensures
            shininess == self.spec_shininess(),
    {
        self.shininess
    }

    /// The terms that make up the light at a point of a surface.
    ///
    /// The caller has computed, for one light, one point, one eye direction and
    /// one normal: the cosine `light_dot_normal` between the direction to the
    /// light and the normal, the cosine `reflect_dot_eye` between the reflected
    /// light and the direction to the eye, and the three contributions as they
    /// would be on a lit surface. This function decides which of them count:
    ///
    /// - the ambient term always;
    /// - the diffuse term unless the light lies behind the surface;
    /// - the specular term unless the light lies behind the surface or the
    ///   reflection misses the eye.
    ///
    /// A term that does not count is black. The light at the point is the sum
    /// of the three.
    pub fn lighting(
        light_dot_normal: Scalar,
        reflect_dot_eye: Scalar,
        ambient: Color,
        diffuse: Color,
        specular: Color,
    ) -> (shading: Shading)
        ensures
            shading.ambient == ambient,
            light_is_behind(light_dot_normal) ==> shading.diffuse.is_black() && shading.specular.is_black(),
            !light_is_behind(light_dot_normal) ==> shading.diffuse == diffuse,
            !light_is_behind(light_dot_normal) && reflection_misses_eye(reflect_dot_eye)
                ==> shading.specular.is_black(),
            !light_is_behind(light_dot_normal) && !reflection_misses_eye(reflect_dot_eye)
                ==> shading.specular == specular,
    {
        let zero = Scalar::zero();
        if light_dot_normal.lt(&zero) {
            Shading { ambient, diffuse: Color::black(), specular: Color::black() }
        } else if reflect_dot_eye.le(&zero) {
            Shading { ambient, diffuse, specular: Color::black() }
        } else {
            Shading { ambient, diffuse, specular }
        }
    }
}

impl Default for Material {
    /// White, with an ambient share of `0.1`, diffuse and specular shares of
    /// `0.9` and a shininess of `200.0`.
    fn default() -> (m: Material)
        ensures
            m.is_default(),
    {
        Material {
            color: Color::white(),
            ambient: Scalar::from_bits(DEFAULT_AMBIENT_BITS),
            diffuse: Scalar::from_bits(DEFAULT_DIFFUSE_BITS),
            specular: Scalar::from_bits(DEFAULT_SPECULAR_BITS),
            shininess: Scalar::from_bits(DEFAULT_SHININESS_BITS),
        }
    }
}

} // verus!
