//! Textures: pure functions from surface coordinates to a color or scalar.
//!
//! Image pixels are held as plain decoded RGB data; decoding an image file
//! into that form is the caller's concern.

use vstd::prelude::*;

use crate::fx::{fadd, fdiv, ffloor_div, fmul, sadd64, sclamp, sdiv64, smul64, ssub64, abs_int,
    FX_ONE};
use crate::vec3::{v3, Vec3};

verus! {

/// A texture holding one constant value.
pub struct SolidTexture<T> {
    pub value: T,
}

impl<T: Copy> SolidTexture<T> {
    pub fn new(value: T) -> (r: Self)
        ensures
            r.value == value,
    {
        SolidTexture { value }
    }

    pub fn value(&self) -> (r: T)
        ensures
            r == self.value,
    {
        self.value
    }
}

/// Decoded image data: `pixels` holds rows top to bottom, each pixel an RGB
/// color in fixed point.
pub struct ImageTexture {
    pub width: usize,
    pub height: usize,
    pub pixels: Vec<Vec3>,
}

/// The pixel index selected by a coordinate in `[0, 1]` over `n` texels.
pub open spec fn simg_index(u: i64, n: usize) -> int {
    let i = sclamp(u as int, 0, FX_ONE as int) * (n as int) / (FX_ONE as int);
    if i < n {
        i
    } else {
        n - 1
    }
}

/// The color an image lookup yields: cyan for degenerate image data, else the
/// texel at the clamped, vertically flipped coordinates.
pub open spec fn simg_value(t: ImageTexture, u: i64, v: i64) -> Vec3 {
    if t.height == 0 || t.width == 0 || t.pixels@.len() != t.width * t.height {
        v3(0, FX_ONE, FX_ONE)
    } else {
        let i = simg_index(u, t.width);
        let j = simg_index(ssub64(FX_ONE, sclamp(v as int, 0, FX_ONE as int) as i64), t.height);
        t.pixels@[j * (t.width as int) + i]
    }
}

impl ImageTexture {
    /// Wrap already-decoded pixel rows.
    pub fn from_pixels(width: usize, height: usize, pixels: Vec<Vec3>) -> (r: ImageTexture)
        ensures
            r.width == width,
            r.height == height,
            r.pixels == pixels,
    {
        ImageTexture { width, height, pixels }
    }

    pub fn value(&self, u: i64, v: i64) -> (r: Vec3)
        ensures
            r == simg_value(*self, u, v),
    {
        if self.height == 0 || self.width == 0 {
            return Vec3::new(0, FX_ONE, FX_ONE);
        }
        let expected = self.width.checked_mul(self.height);
        let len = self.pixels.len();
        let ok = match expected {
            Some(n) => len == n,
            None => false,
        };
        if !ok {
            return Vec3::new(0, FX_ONE, FX_ONE);
        }
        let uu = crate::fx::fclamp(u, 0, FX_ONE);
        let vv = crate::fx::fsub(FX_ONE, crate::fx::fclamp(v, 0, FX_ONE));
        let i = Self::texel_index(uu, self.width);
        let j = Self::texel_index(vv, self.height);
        proof {
            assert((j as int) * (self.width as int) + (i as int) < (self.width as int) * (
            self.height as int)) by (nonlinear_arith)
                requires
                    (j as int) < (self.height as int),
                    (i as int) < (self.width as int),
                    0 <= (j as int),
                    0 <= (i as int),
                    (self.width as int) > 0,
            ;
        }
        let idx = j * self.width + i;
        self.pixels[idx]
    }

    /// Map a coordinate already clamped to `[0, 1]` to a texel index.
    fn texel_index(u: i64, n: usize) -> (r: usize)
        requires
            n > 0,
            0 <= u <= FX_ONE,
        ensures
            r as int == simg_index(u, n),
            r < n,
    {
        proof {
            assert((u as int) * (n as int) < 340282366920938463463374607431768211456int)
                by (nonlinear_arith)
                requires
                    0 <= (u as int) <= 65536,
                    0 <= (n as int) < 18446744073709551616int,
            ;
        }
        let p: u128 = (u as u128) * (n as u128);
        let i: u128 = p / (FX_ONE as u128);
        if i < n as u128 {
            i as usize
        } else {
            n - 1
        }
    }
}

/// A color texture: constant, checkerboard over two color textures, or an
/// image lookup.
pub enum ColorTexture {
    Solid(SolidTexture<Vec3>),
    Checker(CheckerTexture),
    Image(ImageTexture),
}

/// Alternates its two inner textures on a 3D lattice of the given scale.
pub struct CheckerTexture {
    pub inv_scale: i64,
    pub tex1: Box<ColorTexture>,
    pub tex2: Box<ColorTexture>,
}

/// The lattice cell coordinate of one component: the fixed-point product
/// with the inverse scale, rounded down to a whole cell.
pub open spec fn scell(v: i64, inv_scale: i64) -> i64 {
    ((smul64(v, inv_scale) as int) / (FX_ONE as int)) as i64
}

/// Whether the lattice cell holding `p` is an even cell.
pub open spec fn schecker_even(inv_scale: i64, p: Vec3) -> bool {
    let s = sadd64(sadd64(scell(p.x, inv_scale), scell(p.y, inv_scale)), scell(p.z, inv_scale));
    abs_int(s as int) % 2 == 0
}

/// The color a texture yields at surface coordinates `(u, v)` and point `p`.
pub open spec fn scolor_value(t: ColorTexture, u: i64, v: i64, p: Vec3) -> Vec3
    decreases t,
{
    match t {
        ColorTexture::Solid(s) => s.value,
        ColorTexture::Checker(c) => {
            if schecker_even(c.inv_scale, p) {
                scolor_value(*c.tex1, u, v, p)
            } else {
                scolor_value(*c.tex2, u, v, p)
            }
        },
        ColorTexture::Image(img) => simg_value(img, u, v),
    }
}

impl CheckerTexture {
    /// `scale` is the lattice cell size; its reciprocal is stored.
    pub fn new(scale: i64, tex1: Box<ColorTexture>, tex2: Box<ColorTexture>) -> (r:
        CheckerTexture)
        ensures
            r.inv_scale == sdiv64(FX_ONE, scale),
            r.tex1 == tex1,
            r.tex2 == tex2,
    {
        CheckerTexture { inv_scale: fdiv(FX_ONE, scale), tex1, tex2 }
    }
}

impl ColorTexture {
    pub fn solid(color: Vec3) -> (r: ColorTexture)
        ensures
            r == ColorTexture::Solid(SolidTexture { value: color }),
    {
        ColorTexture::Solid(SolidTexture::new(color))
    }

    pub fn value(&self, u: i64, v: i64, p: &Vec3) -> (r: Vec3)
        ensures
            r == scolor_value(*self, u, v, *p),
        decreases *self,
    {
        match self {
            ColorTexture::Solid(s) => s.value(),
            ColorTexture::Checker(c) => {
                let cx = ffloor_div(fmul(p.x, c.inv_scale), FX_ONE);
                let cy = ffloor_div(fmul(p.y, c.inv_scale), FX_ONE);
                let cz = ffloor_div(fmul(p.z, c.inv_scale), FX_ONE);
                let s = fadd(fadd(cx, cy), cz);
                let sa = crate::fx::fabs(s);
                let even = sa % 2 == 0;
                if even {
                    c.tex1.value(u, v, p)
                } else {
                    c.tex2.value(u, v, p)
                }
            },
            ColorTexture::Image(img) => img.value(u, v),
        }
    }
}

/// A scalar texture, used for roughness channels.
pub enum ScalarTexture {
    SolidS(SolidTexture<i64>),
}

pub open spec fn sscalar_value(t: ScalarTexture) -> i64 {
    match t {
        ScalarTexture::SolidS(s) => s.value,
    }
}

impl ScalarTexture {
    pub fn solid(value: i64) -> (r: ScalarTexture)
        ensures
            r == ScalarTexture::SolidS(SolidTexture { value }),
    {
        ScalarTexture::SolidS(SolidTexture::new(value))
    }

    pub fn value(&self) -> (r: i64)
        ensures
            r == sscalar_value(*self),
    {
        match self {
            ScalarTexture::SolidS(s) => s.value(),
        }
    }
}

} // verus!
