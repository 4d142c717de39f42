use korp::flint::{lerp, lerp_angle, Flint, DEG2RAD_RAW, PI_RAW};
use korp::vec2::Vec2;

fn degrees(d: i16) -> Flint {
    Flint::from_i16(d).to_radians()
}

#[test]
fn sin_cos_matches_reference_table() {
    let table: [(i16, i32, i32, i32); 10] = [
        (-50, -57150, -50177, 42162),
        (0, 0, 2, 65535),
        (50, 57150, 50179, 42156),
        (100, 114300, 64555, -11303),
        (150, 171450, 32869, -56697),
        (200, 228600, -22265, -61636),
        (250, 285750, -61515, -22598),
        (300, 342900, -56872, 32569),
        (350, 400050, -11646, 64493),
        (400, 457200, 41884, 50404),
    ];
    for (d, radians, sin, cos) in table {
        let r = degrees(d);
        assert_eq!(r.raw, radians, "radians of {}", d);
        let (s, c) = r.sin_cos();
        assert_eq!((s.raw, c.raw), (sin, cos), "sin_cos of {} degrees", d);
    }
}

#[test]
fn sin_cos_is_repeatable() {
    for d in -720i16..=720 {
        assert_eq!(degrees(d).sin_cos(), degrees(d).sin_cos());
    }
}

#[test]
fn constructors_and_integer_parts() {
    assert_eq!(Flint::new(1, Flint::POINT_FIVE).raw, 98304);
    assert_eq!(Flint::new(-25, 0).raw, -25 * 65536);
    assert_eq!(Flint::from_i16(-3).raw, -196608);
    assert_eq!(Flint::from_raw(-1).to_i32(), -1);
    assert_eq!(Flint::from_raw(98304).to_i16(), 1);
    assert_eq!(Flint::from_raw(-98304).to_i32(), -2);
    assert_eq!(Flint::deg2rad().raw, DEG2RAD_RAW);
    assert_eq!(Flint::pi().raw, PI_RAW);
    assert_eq!(Flint::frac_pi_2().raw, 102940);
}

#[test]
fn arithmetic_rounds_toward_zero() {
    let a = Flint::from_raw(3);
    let b = Flint::from_raw(-32768);
    assert_eq!((a * b).raw, -1);
    assert_eq!((Flint::from_i16(3) * Flint::new(0, Flint::POINT_FIVE)).raw, 98304);
    assert_eq!((Flint::from_i16(1) / Flint::from_i16(3)).raw, 21845);
    assert_eq!((Flint::from_i16(-1) / Flint::from_i16(3)).raw, -21845);
    assert_eq!((Flint::from_i16(7) + Flint::from_i16(-9)).raw, -131072);
    assert_eq!((Flint::from_i16(7) - Flint::from_i16(9)).raw, -131072);
    assert_eq!((-Flint::from_i16(7)).raw, -458752);
}

#[test]
fn degenerate_inputs_saturate() {
    assert_eq!((Flint::from_i16(5) / Flint::zero()).raw, i32::MAX);
    assert_eq!((Flint::from_i16(-5) / Flint::zero()).raw, i32::MIN);
    assert_eq!((Flint::zero() / Flint::zero()).raw, 0);
    let big = Flint::from_raw(i32::MAX);
    assert_eq!((big + Flint::one()).raw, i32::MAX);
    assert_eq!((Flint::from_raw(i32::MIN) - Flint::one()).raw, i32::MIN);
    assert_eq!((big * big).raw, i32::MAX);
    assert_eq!((-Flint::from_raw(i32::MIN)).raw, i32::MAX);
}

#[test]
fn sqrt_is_floor_root_of_raw() {
    assert_eq!(Flint::from_i16(4).sqrt().raw, 131072);
    assert_eq!(Flint::from_i16(2).sqrt().raw, 92672);
    assert_eq!(Flint::from_i16(25).sqrt().raw, 327680);
    assert_eq!(Flint::from_raw(1).sqrt().raw, 256);
    assert_eq!(Flint::from_raw(i32::MAX).sqrt().raw, 46340 * 256);
    assert_eq!(Flint::zero().sqrt().raw, 0);
    assert_eq!(Flint::from_i16(-4).sqrt().raw, 0);
}

#[test]
fn lerp_is_linear() {
    let a = Flint::from_i16(10);
    let b = Flint::from_i16(20);
    assert_eq!(lerp(a, b, Flint::new(0, Flint::POINT_FIVE)).raw, 15 * 65536);
    assert_eq!(lerp(a, b, Flint::zero()), a);
    assert_eq!(lerp(a, b, Flint::one()), b);
}

#[test]
fn lerp_angle_takes_the_short_way_across_the_seam() {
    let half = Flint::new(0, Flint::POINT_FIVE);
    let r = lerp_angle(degrees(350), degrees(10), half);
    assert_eq!(r.raw, 411621);
    let turn = 2 * PI_RAW;
    let wrapped = r.raw.rem_euclid(turn);
    let off_zero = wrapped.min(turn - wrapped);
    assert!(off_zero < 300, "{} is not a whole turn", r.raw);
    assert!((wrapped - PI_RAW).abs() > 100000, "went the long way round");
}

#[test]
fn lerp_angle_without_a_seam_is_plain_lerp() {
    let half = Flint::new(0, Flint::POINT_FIVE);
    let r = lerp_angle(degrees(10), degrees(50), half);
    assert_eq!(r.raw, degrees(30).raw);
    let back = lerp_angle(degrees(10), degrees(350), half);
    assert_eq!(back.raw, degrees(10).raw - (degrees(10).raw - (degrees(350).raw - 2 * PI_RAW)) / 2);
}

#[test]
fn vector_operations() {
    let v = Vec2::new(Flint::from_i16(3), Flint::from_i16(4));
    assert_eq!(v.len_sqr().raw, 25 * 65536);
    assert_eq!(v.len().raw, 5 * 65536);
    let n = v.normalized();
    assert_eq!((n.x.raw, n.y.raw), (39321, 52428));
    let p = v.perp();
    assert_eq!((p.x.raw, p.y.raw), (-4 * 65536, 3 * 65536));
    assert_eq!(v.dot(&p).raw, 0);
    let z = Vec2::zero().normalized();
    assert_eq!((z.x.raw, z.y.raw), (0, 0));
    let s = v + p;
    assert_eq!((s.x.raw, s.y.raw), (-65536, 7 * 65536));
    let d = v - p;
    assert_eq!((d.x.raw, d.y.raw), (7 * 65536, 65536));
    let k = v.scaled(Flint::from_i16(2));
    assert_eq!((k.x.raw, k.y.raw), (6 * 65536, 8 * 65536));
}

#[test]
fn rotation_by_degrees_and_by_direction() {
    let x = Vec2::new(Flint::one(), Flint::zero());
    let r = x.rotated(Flint::from_i16(90));
    assert_eq!((r.x.raw, r.y.raw), (70, 65533));
    let up = Vec2::new(Flint::zero(), Flint::neg_one());
    let t = x.rotated_v(up);
    assert_eq!((t.x.raw, t.y.raw), (0, -65536));
}
