//! Three-component fixed-point vectors, used both for points/directions and
//! for RGB radiance values.

use vstd::prelude::*;

use crate::fx::{
    fabs, fadd, fclamp, fdiv, fmax, fmin, fmul, fneg, fsqrt, fsub, sabs64, sadd64, sclamp64,
    sdiv64, smax64, smin64, smul64, sneg64, ssqrt64, ssub64, FX_ONE, FX_TWO,
};

verus! {

/// Fixed-point luminance weights for the Rec. 709 primaries.
pub const LUM_R: i64 = 13933;

pub const LUM_G: i64 = 46875;

pub const LUM_B: i64 = 4731;

#[derive(Clone, Copy, Debug, PartialEq, Eq, Structural)]
pub struct Vec3 {
    pub x: i64,
    pub y: i64,
    pub z: i64,
}

pub open spec fn v3(x: i64, y: i64, z: i64) -> Vec3 {
    Vec3 { x, y, z }
}

pub open spec fn vadd(a: Vec3, b: Vec3) -> Vec3 {
    v3(sadd64(a.x, b.x), sadd64(a.y, b.y), sadd64(a.z, b.z))
}

pub open spec fn vsub(a: Vec3, b: Vec3) -> Vec3 {
    v3(ssub64(a.x, b.x), ssub64(a.y, b.y), ssub64(a.z, b.z))
}

pub open spec fn vneg(a: Vec3) -> Vec3 {
    v3(sneg64(a.x), sneg64(a.y), sneg64(a.z))
}

/// Componentwise product (used for color filtering).
pub open spec fn vmul(a: Vec3, b: Vec3) -> Vec3 {
    v3(smul64(a.x, b.x), smul64(a.y, b.y), smul64(a.z, b.z))
}

pub open spec fn vscale(a: Vec3, s: i64) -> Vec3 {
    v3(smul64(a.x, s), smul64(a.y, s), smul64(a.z, s))
}

pub open spec fn vdiv_s(a: Vec3, s: i64) -> Vec3 {
    v3(sdiv64(a.x, s), sdiv64(a.y, s), sdiv64(a.z, s))
}

pub open spec fn vmin(a: Vec3, b: Vec3) -> Vec3 {
    v3(smin64(a.x, b.x), smin64(a.y, b.y), smin64(a.z, b.z))
}

pub open spec fn vmax(a: Vec3, b: Vec3) -> Vec3 {
    v3(smax64(a.x, b.x), smax64(a.y, b.y), smax64(a.z, b.z))
}

pub open spec fn vabs(a: Vec3) -> Vec3 {
    v3(sabs64(a.x), sabs64(a.y), sabs64(a.z))
}

pub open spec fn vdot(a: Vec3, b: Vec3) -> i64 {
    sadd64(sadd64(smul64(a.x, b.x), smul64(a.y, b.y)), smul64(a.z, b.z))
}

pub open spec fn vcross(a: Vec3, b: Vec3) -> Vec3 {
    v3(
        ssub64(smul64(a.y, b.z), smul64(a.z, b.y)),
        ssub64(smul64(a.z, b.x), smul64(a.x, b.z)),
        ssub64(smul64(a.x, b.y), smul64(a.y, b.x)),
    )
}

pub open spec fn vlength_squared(a: Vec3) -> i64 {
    vdot(a, a)
}

pub open spec fn vlength(a: Vec3) -> i64 {
    ssqrt64(vlength_squared(a))
}

/// Normalization divides by the length; the zero vector saturates, standing
/// in for the NaNs an IEEE implementation would produce.
pub open spec fn vnormalize(a: Vec3) -> Vec3 {
    vdiv_s(a, vlength(a))
}

pub open spec fn vlerp(a: Vec3, b: Vec3, t: i64) -> Vec3 {
    vadd(a, vscale(vsub(b, a), t))
}

pub open spec fn slerp64(a: i64, b: i64, t: i64) -> i64 {
    sadd64(a, smul64(ssub64(b, a), t))
}

pub open spec fn vluminance(a: Vec3) -> i64 {
    sadd64(sadd64(smul64(a.x, LUM_R), smul64(a.y, LUM_G)), smul64(a.z, LUM_B))
}

/// Mirror reflection of `i` about the plane with normal `n`.
pub open spec fn vreflect(i: Vec3, n: Vec3) -> Vec3 {
    vsub(i, vscale(n, smul64(FX_TWO, vdot(i, n))))
}

pub open spec fn vaxis(a: Vec3, axis: usize) -> i64 {
    if axis == 0 {
        a.x
    } else if axis == 1 {
        a.y
    } else {
        a.z
    }
}

impl Vec3 {
    pub fn new(x: i64, y: i64, z: i64) -> (r: Vec3)
        ensures
            r == v3(x, y, z),
    {
        Vec3 { x, y, z }
    }

    pub fn splat(s: i64) -> (r: Vec3)
        ensures
            r == v3(s, s, s),
    {
        Vec3 { x: s, y: s, z: s }
    }

    pub fn zero() -> (r: Vec3)
        ensures
            r == v3(0, 0, 0),
    {
        Vec3 { x: 0, y: 0, z: 0 }
    }

    pub fn one() -> (r: Vec3)
        ensures
            r == v3(FX_ONE, FX_ONE, FX_ONE),
    {
        Vec3 { x: FX_ONE, y: FX_ONE, z: FX_ONE }
    }

    pub fn add(&self, o: &Vec3) -> (r: Vec3)
        ensures
            r == vadd(*self, *o),
    {
        Vec3 { x: fadd(self.x, o.x), y: fadd(self.y, o.y), z: fadd(self.z, o.z) }
    }

    pub fn sub(&self, o: &Vec3) -> (r: Vec3)
        ensures
            r == vsub(*self, *o),
    {
        Vec3 { x: fsub(self.x, o.x), y: fsub(self.y, o.y), z: fsub(self.z, o.z) }
    }

    pub fn neg(&self) -> (r: Vec3)
        ensures
            r == vneg(*self),
    {
        Vec3 { x: fneg(self.x), y: fneg(self.y), z: fneg(self.z) }
    }

    /// Componentwise product.
    pub fn mul(&self, o: &Vec3) -> (r: Vec3)
        ensures
            r == vmul(*self, *o),
    {
        Vec3 { x: fmul(self.x, o.x), y: fmul(self.y, o.y), z: fmul(self.z, o.z) }
    }

    pub fn scale(&self, s: i64) -> (r: Vec3)
        ensures
            r == vscale(*self, s),
    {
        Vec3 { x: fmul(self.x, s), y: fmul(self.y, s), z: fmul(self.z, s) }
    }

    pub fn div_s(&self, s: i64) -> (r: Vec3)
        ensures
            r == vdiv_s(*self, s),
    {
        Vec3 { x: fdiv(self.x, s), y: fdiv(self.y, s), z: fdiv(self.z, s) }
    }

    pub fn min(&self, o: &Vec3) -> (r: Vec3)
        ensures
            r == vmin(*self, *o),
    {
        Vec3 { x: fmin(self.x, o.x), y: fmin(self.y, o.y), z: fmin(self.z, o.z) }
    }

    pub fn max(&self, o: &Vec3) -> (r: Vec3)
        ensures
            r == vmax(*self, *o),
    {
        Vec3 { x: fmax(self.x, o.x), y: fmax(self.y, o.y), z: fmax(self.z, o.z) }
    }

    pub fn abs(&self) -> (r: Vec3)
        ensures
            r == vabs(*self),
    {
        Vec3 { x: fabs(self.x), y: fabs(self.y), z: fabs(self.z) }
    }

    pub fn dot(&self, o: &Vec3) -> (r: i64)
        ensures
            r == vdot(*self, *o),
    {
        fadd(fadd(fmul(self.x, o.x), fmul(self.y, o.y)), fmul(self.z, o.z))
    }

    pub fn cross(&self, o: &Vec3) -> (r: Vec3)
        ensures
            r == vcross(*self, *o),
    {
        Vec3 {
            x: fsub(fmul(self.y, o.z), fmul(self.z, o.y)),
            y: fsub(fmul(self.z, o.x), fmul(self.x, o.z)),
            z: fsub(fmul(self.x, o.y), fmul(self.y, o.x)),
        }
    }

    pub fn length_squared(&self) -> (r: i64)
        ensures
            r == vlength_squared(*self),
    {
        self.dot(self)
    }

    pub fn length(&self) -> (r: i64)
        ensures
            r == vlength(*self),
            r >= 0,
    {
        fsqrt(self.length_squared())
    }

    pub fn normalize(&self) -> (r: Vec3)
        ensures
            r == vnormalize(*self),
    {
        let len = self.length();
        self.div_s(len)
    }

    pub fn lerp(&self, o: &Vec3, t: i64) -> (r: Vec3)
        ensures
            r == vlerp(*self, *o, t),
    {
        self.add(&o.sub(self).scale(t))
    }

    pub fn luminance(&self) -> (r: i64)
        ensures
            r == vluminance(*self),
    {
        fadd(fadd(fmul(self.x, LUM_R), fmul(self.y, LUM_G)), fmul(self.z, LUM_B))
    }

    /// Mirror reflection of `self` about the plane with normal `n`.
    pub fn reflect(&self, n: &Vec3) -> (r: Vec3)
        ensures
            r == vreflect(*self, *n),
    {
        self.sub(&n.scale(fmul(FX_TWO, self.dot(n))))
    }

    /// The component along the given axis; any axis other than 0 or 1 reads z.
    pub fn axis(&self, axis: usize) -> (r: i64)
        ensures
            r == vaxis(*self, axis),
    {
        if axis == 0 {
            self.x
        } else if axis == 1 {
            self.y
        } else {
            self.z
        }
    }

    pub fn clamp_components(&self, lo: i64, hi: i64) -> (r: Vec3)
        ensures
            r == (Vec3 {
                x: sclamp64(self.x, lo, hi),
                y: sclamp64(self.y, lo, hi),
                z: sclamp64(self.z, lo, hi),
            }),
    {
        Vec3 {
            x: fclamp(self.x, lo, hi),
            y: fclamp(self.y, lo, hi),
            z: fclamp(self.z, lo, hi),
        }
    }
}

/// Refraction of the unit direction `i` through the surface with unit normal
/// `n` and relative index `eta`; total internal reflection yields the zero
/// vector, exactly as the caller's reflect-fallback expects.
pub open spec fn vrefract(i: Vec3, n: Vec3, eta: i64) -> Vec3 {
    let ndi = vdot(n, i);
    let k = ssub64(
        FX_ONE,
        smul64(smul64(eta, eta), ssub64(FX_ONE, smul64(ndi, ndi))),
    );
    if k < 0 {
        v3(0, 0, 0)
    } else {
        vsub(vscale(i, eta), vscale(n, sadd64(smul64(eta, ndi), ssqrt64(k))))
    }
}

pub fn refract(i: &Vec3, n: &Vec3, eta: i64) -> (r: Vec3)
    ensures
        r == vrefract(*i, *n, eta),
{
    let ndi = n.dot(i);
    let k = fsub(FX_ONE, fmul(fmul(eta, eta), fsub(FX_ONE, fmul(ndi, ndi))));
    if k < 0 {
        Vec3::zero()
    } else {
        i.scale(eta).sub(&n.scale(fadd(fmul(eta, ndi), fsqrt(k))))
    }
}

} // verus!
