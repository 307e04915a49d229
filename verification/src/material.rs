//! The Phong reflection model: the attributes of a surface and the lighting
//! rule that combines them at a point.

use vstd::prelude::*;
use crate::color::Color;
use crate::color::black_c;
use crate::color::cadd;
use crate::color::cmul;
use crate::color::cmul_s;
use crate::fx::Fx;
use crate::fx::SCALE;
use crate::fx::fpow;
use crate::light::PointLight;
use crate::matrix::Matrix;
use crate::matrix::grid;
use crate::patterns::Pattern;
use crate::patterns::pattern_color;
use crate::patterns::point_through;
use crate::point::Point;
use crate::point::psub;
use crate::vector::Vector;
use crate::vector::dot_raw;
use crate::vector::neg_v;
use crate::vector::norm_v;
use crate::vector::reflect_v;

verus! {

/// The attributes of a surface under the Phong reflection model.
#[derive(Clone, Copy, Debug)]
pub struct Material {
    /// Flat color of the material, used when it carries no pattern.
    pub color: Color,
    /// Background light reflected equally at every point.
    pub ambient: Fx,
    /// Light reflected from a matte surface.
    pub diffuse: Fx,
    /// Reflection of the light source itself: the bright spot on a curve.
    pub specular: Fx,
    /// How small and tight the specular highlight is.
    pub shininess: Fx,
    /// How strongly the surface mirrors its surroundings.
    pub reflective: Fx,
    /// How much light passes through the surface.
    pub transparency: Fx,
    /// How strongly the surface bends the light passing through it.
    pub refractive_index: Fx,
    /// An optional space-mapped color rule in place of the flat color.
    pub pattern: Option<Pattern>,
}

/// The exponent the specular factor is raised to: the whole units of the
/// shininess, never negative.
pub open spec fn shin_n(sh: int) -> nat {
    if sh <= 0 {
        0
    } else {
        (sh / (SCALE as int)) as nat
    }
}

/// The surface color at the point: the pattern's color there, or the flat
/// color when the material has no pattern.
pub open spec fn surface_color(m: Material, object_transform: Matrix, point: Point) -> Color {
    match m.pattern {
        Some(p) => pattern_color(
            p,
            point_through(
                grid(p.spec_transform().inverse),
                point_through(grid(object_transform.inverse), point),
            ),
        ),
        None => m.color,
    }
}

/// The color the Phong model gives a point: ambient, diffuse and specular
/// contributions, the latter two dark when the point is shadowed or the
/// light is behind the surface.
pub open spec fn lighting_v(
    m: Material,
    object_transform: Matrix,
    light: PointLight,
    point: Point,
    eyev: Vector,
    normalv: Vector,
    in_shadow: bool,
) -> Color {
    let effective = cmul(surface_color(m, object_transform, point), light.intensity);
    let lightv = norm_v(psub(light.position, point));
    let ambient = cmul_s(effective, m.ambient.raw as int);
    let ldn = dot_raw(lightv, normalv);
    if ldn < 0 || in_shadow {
        ambient
    } else {
        let diffuse = cmul_s(cmul_s(effective, m.diffuse.raw as int), ldn);
        let reflectv = reflect_v(neg_v(lightv), normalv);
        let rde = dot_raw(reflectv, eyev);
        let specular = if rde <= 0 {
            black_c()
        } else {
            cmul_s(
                cmul_s(light.intensity, m.specular.raw as int),
                fpow(rde, shin_n(m.shininess.raw as int)),
            )
        };
        cadd(cadd(ambient, diffuse), specular)
    }
}

impl Material {
    /// The value of the default material.
    pub open spec fn new_v() -> Material {
        Material {
            color: Color { red: Fx { raw: SCALE }, green: Fx { raw: SCALE }, blue: Fx { raw: SCALE } },
            ambient: Fx { raw: 10000 },
            diffuse: Fx { raw: 90000 },
            specular: Fx { raw: 90000 },
            shininess: Fx { raw: 20000000 },
            reflective: Fx { raw: 0 },
            transparency: Fx { raw: 0 },
            refractive_index: Fx { raw: SCALE },
            pattern: None,
        }
    }

    /// Every attribute lies in the representable range.
    pub open spec fn wf(self) -> bool {
        &&& self.color.wf()
        &&& self.ambient.wf()
        &&& self.diffuse.wf()
        &&& self.specular.wf()
        &&& self.shininess.wf()
        &&& self.reflective.wf()
        &&& self.transparency.wf()
        &&& self.refractive_index.wf()
        &&& match self.pattern {
            Some(p) => p.wf(),
            None => true,
        }
    }

    /// The default material: white, mostly diffuse, a touch of ambient
    /// light, shiny, neither reflective nor transparent, with the
    /// refractive index of a vacuum.
    pub fn new() -> (r: Material)
        ensures
            r.color == (Color { red: Fx { raw: SCALE }, green: Fx { raw: SCALE }, blue: Fx { raw: SCALE } }),
            r.ambient.raw * 10 == SCALE,
            r.diffuse.raw * 10 == 9 * SCALE,
            r.specular.raw * 10 == 9 * SCALE,
            r.shininess.raw == 200 * SCALE,
            r.reflective.raw == 0,
            r.transparency.raw == 0,
            r.refractive_index.raw == SCALE,
            r.pattern is None,
            r == Material::new_v(),
            r.wf(),
    {
        Material {
            color: Color { red: Fx { raw: SCALE }, green: Fx { raw: SCALE }, blue: Fx { raw: SCALE } },
            ambient: Fx { raw: 10000 },
            diffuse: Fx { raw: 90000 },
            specular: Fx { raw: 90000 },
            shininess: Fx { raw: 20000000 },
            reflective: Fx { raw: 0 },
            transparency: Fx { raw: 0 },
            refractive_index: Fx { raw: SCALE },
            pattern: None,
        }
    }

    /// Add the ambient, diffuse and specular contributions at a point,
    /// weighted by the angles between the light, the normal and the eye.
    pub fn lighting(
        &self,
        object_transform: &Matrix,
        light: PointLight,
        point: Point,
        eyev: Vector,
        normalv: Vector,
        in_shadow: bool,
    ) -> (r: Color)
        requires
            self.wf(),
            object_transform.wf(),
            light.wf(),
            point.wf(),
            eyev.wf(),
            normalv.wf(),
        ensures
            r == lighting_v(*self, *object_transform, light, point, eyev, normalv, in_shadow),
            r.wf(),
    {
        let color = match &self.pattern {
            Some(p) => p.pattern_at_shape(object_transform, point),
            None => self.color,
        };
        let effective_color = color.mul(light.intensity);
        let lightv = light.position.sub(point).normalize();
        let ambient = effective_color.mul_s(self.ambient);
        let light_dot_normal = lightv.dot(normalv);
        if light_dot_normal.raw < 0 || in_shadow {
            ambient
        } else {
            let diffuse = effective_color.mul_s(self.diffuse).mul_s(light_dot_normal);
            let reflectv = lightv.neg().reflect(normalv);
            let reflect_dot_eye = reflectv.dot(eyev);
            let specular = if reflect_dot_eye.raw <= 0 {
                Color { red: Fx { raw: 0 }, green: Fx { raw: 0 }, blue: Fx { raw: 0 } }
            } else {
                let n: u64 = if self.shininess.raw <= 0 {
                    0
                } else {
                    self.shininess.floor_units() as u64
                };
                let factor = reflect_dot_eye.powi(n);
                light.intensity.mul_s(self.specular).mul_s(factor)
            };
            ambient.add(diffuse).add(specular)
        }
    }
}

impl Default for Material {
    /// The default material.
    fn default() -> (r: Material)
        ensures
            r.reflective.raw == 0,
            r.transparency.raw == 0,
            r.refractive_index.raw == SCALE,
            r.pattern is None,
            r.wf(),
    {
        Material::new()
    }
}

} // verus!
