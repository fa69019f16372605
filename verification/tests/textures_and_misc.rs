//! Textures, intervals, vectors and the generator.

use path_tracer::fx::{FX_MAX, FX_ONE};
use path_tracer::interval::Interval;
use path_tracer::rng::Rng;
use path_tracer::texture::{CheckerTexture, ColorTexture, ImageTexture, SolidTexture};
use path_tracer::vec3::Vec3;

fn fx(x: f64) -> i64 {
    (x * 65536.0).round() as i64
}

#[test]
fn solid_texture_returns_its_value() {
    let t = SolidTexture::new(Vec3::new(fx(0.2), fx(0.3), fx(0.1)));
    assert_eq!(t.value(), Vec3::new(fx(0.2), fx(0.3), fx(0.1)));
    let s = SolidTexture::new(fx(0.25));
    assert_eq!(s.value(), fx(0.25));
}

#[test]
fn checker_texture_alternates_cells() {
    let a = Vec3::new(FX_ONE, 0, 0);
    let b = Vec3::new(0, FX_ONE, 0);
    let checker = ColorTexture::Checker(CheckerTexture::new(
        FX_ONE,
        Box::new(ColorTexture::solid(a)),
        Box::new(ColorTexture::solid(b)),
    ));
    let at = |x: f64, y: f64, z: f64| {
        checker.value(0, 0, &Vec3::new(fx(x), fx(y), fx(z)))
    };
    assert_eq!(at(0.5, 0.5, 0.5), a); // cell (0,0,0): even
    assert_eq!(at(1.5, 0.5, 0.5), b); // cell (1,0,0): odd
    assert_eq!(at(1.5, 1.5, 0.5), a); // cell (1,1,0): even
    assert_eq!(at(-0.5, 0.5, 0.5), b); // cell (-1,0,0): odd
}

#[test]
fn image_texture_lookup_and_fallback() {
    let px = vec![
        Vec3::new(fx(1.0), 0, 0),
        Vec3::new(0, fx(1.0), 0),
        Vec3::new(0, 0, fx(1.0)),
        Vec3::new(fx(1.0), fx(1.0), 0),
    ];
    let img = ImageTexture::from_pixels(2, 2, px);
    // v is flipped: v=1 addresses the top row
    assert_eq!(img.value(0, FX_ONE), Vec3::new(fx(1.0), 0, 0));
    assert_eq!(img.value(FX_ONE, FX_ONE), Vec3::new(0, fx(1.0), 0));
    assert_eq!(img.value(0, 0), Vec3::new(0, 0, fx(1.0)));
    assert_eq!(img.value(FX_ONE, 0), Vec3::new(fx(1.0), fx(1.0), 0));
    // degenerate image data falls back to cyan
    let broken = ImageTexture::from_pixels(3, 3, vec![Vec3::new(0, 0, 0)]);
    assert_eq!(broken.value(0, 0), Vec3::new(0, FX_ONE, FX_ONE));
}

#[test]
fn interval_queries() {
    let i = Interval::new(fx(1.0), fx(3.0));
    assert!(i.contains(fx(1.0)));
    assert!(i.contains(fx(3.0)));
    assert!(!i.surrounds(fx(1.0)));
    assert!(i.surrounds(fx(2.0)));
    assert!(!i.contains(fx(3.5)));
    assert_eq!(i.size(), fx(2.0));
    let e = Interval::empty();
    assert!(!e.contains(0));
    let u = Interval::universe();
    assert!(u.contains(FX_MAX));
    assert!(u.contains(-FX_MAX));
    let x = i.expand(fx(1.0));
    assert_eq!(x.min, fx(0.5));
    assert_eq!(x.max, fx(3.5));
    let j = Interval::new(fx(2.0), fx(5.0));
    let b = Interval::bound(i, j);
    assert_eq!(b.min, fx(1.0));
    assert_eq!(b.max, fx(5.0));
}

#[test]
fn vector_algebra() {
    let a = Vec3::new(fx(1.0), fx(2.0), fx(3.0));
    let b = Vec3::new(fx(4.0), fx(5.0), fx(6.0));
    assert_eq!(a.add(&b), Vec3::new(fx(5.0), fx(7.0), fx(9.0)));
    assert_eq!(a.dot(&b), fx(32.0));
    assert_eq!(
        a.cross(&b),
        Vec3::new(fx(-3.0), fx(6.0), fx(-3.0))
    );
    assert_eq!(a.length_squared(), fx(14.0));
    let n = Vec3::new(fx(3.0), fx(4.0), 0).normalize();
    assert!((n.length() - FX_ONE).abs() <= 2);
    // reflection about z flips z
    let d = Vec3::new(fx(0.5), 0, fx(-0.5));
    let r = d.reflect(&Vec3::new(0, 0, FX_ONE));
    assert_eq!(r, Vec3::new(fx(0.5), 0, fx(0.5)));
}

#[test]
fn rng_ranges_and_determinism() {
    let mut a = Rng::new(42);
    let mut b = Rng::new(42);
    for _ in 0..1000 {
        let u = a.next_unit();
        assert!((0..FX_ONE).contains(&u));
        assert_eq!(u, b.next_unit());
        let s = a.next_symmetric();
        assert!((-FX_ONE..FX_ONE).contains(&s));
        b.next_symmetric();
        let i = a.next_below(17);
        assert!(i < 17);
        b.next_below(17);
    }
    // different seeds diverge
    let mut c = Rng::new(43);
    let mut same = 0;
    let mut a2 = Rng::new(42);
    for _ in 0..100 {
        if a2.next_unit() == c.next_unit() {
            same += 1;
        }
    }
    assert!(same < 50);
}
