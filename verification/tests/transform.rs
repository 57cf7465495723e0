use gltf_engine::transform::{bits_are_zero, NodeTransform, Vector3};

#[test]
fn identity_transform_is_not_degenerate() {
    let t = NodeTransform::identity();
    assert_eq!(t.scale.x, 1.0f32.to_bits());
    assert_eq!(t.rotation.w, 1.0f32.to_bits());
    assert!(!t.is_degenerate());
}

#[test]
fn both_zeros_are_zero() {
    assert!(bits_are_zero(0.0f32.to_bits()));
    assert!(bits_are_zero((-0.0f32).to_bits()));
    assert!(!bits_are_zero(f32::MIN_POSITIVE.to_bits()));
}

#[test]
fn vanishing_product_is_degenerate() {
    let scaled = |x: f32, y: f32, z: f32| NodeTransform {
        scale: Vector3 { x: x.to_bits(), y: y.to_bits(), z: z.to_bits() },
        ..NodeTransform::identity()
    };
    assert!(scaled(1.0e-20, 1.0e-20, 1.0e-20).is_degenerate());
    assert!(!scaled(1.0e-10, 1.0e-10, 1.0e-10).is_degenerate());
    assert!(scaled(0.0, f32::INFINITY, 1.0).is_degenerate());
    assert!(scaled(f32::NAN, 1.0, -0.0).is_degenerate());
    assert!(!scaled(f32::NAN, 1.0, 1.0).is_degenerate());
    assert!(!scaled(f32::INFINITY, 1.0e-40, 1.0).is_degenerate());
    assert!(!scaled(-1.0, 1.0, 1.0).is_degenerate());
}

#[test]
fn degenerate_is_a_zero_axis_or_a_zero_product() {
    let mut state: u64 = 99;
    let mut next = move || {
        state = state.wrapping_mul(6364136223846793005).wrapping_add(1442695040888963407);
        let r = (state >> 32) as u32;
        match r & 3 {
            0 => r & 0x8000_0000,
            1 => (r & 0x807f_ffff) | (((r >> 8) % 40) << 23),
            _ => r,
        }
    };
    for _ in 0..100_000 {
        let (x, y, z) = (next(), next(), next());
        let (fx, fy, fz) = (f32::from_bits(x), f32::from_bits(y), f32::from_bits(z));
        let expected = fx == 0.0 || fy == 0.0 || fz == 0.0 || fx * fy * fz == 0.0;
        let t = NodeTransform { scale: Vector3 { x, y, z }, ..NodeTransform::identity() };
        assert_eq!(t.is_degenerate(), expected, "{:08x} {:08x} {:08x}", x, y, z);
    }
}
