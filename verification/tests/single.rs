use gltf_engine::single::{count_bits, decode, product_is_zero};

/// A small generator of bit patterns that favours the edges: zeros, the
/// smallest and largest numbers, infinities and not-a-numbers.
struct Patterns(u64);

impl Patterns {
    fn next_u32(&mut self) -> u32 {
        self.0 = self.0.wrapping_mul(6364136223846793005).wrapping_add(1442695040888963407);
        (self.0 >> 32) as u32
    }

    fn next(&mut self) -> u32 {
        let r = self.next_u32();
        let sign = r & 0x8000_0000;
        let fraction = match (r >> 8) & 3 {
            0 => 0,
            1 => 0x7f_ffff,
            2 => 1 << ((r >> 10) % 23),
            _ => self.next_u32() & 0x7f_ffff,
        };
        let exponent = match r & 7 {
            0 => 0,
            1 => 1,
            2 => 0xff,
            3 => 0xfe,
            4 => 127,
            5 => (self.next_u32() % 60) + 1,
            6 => 0xfe - (self.next_u32() % 60),
            _ => self.next_u32() & 0xff,
        };
        sign | (exponent << 23) | fraction
    }
}

fn hardware_product_is_zero(x: u32, y: u32, z: u32) -> bool {
    f32::from_bits(x) * f32::from_bits(y) * f32::from_bits(z) == 0.0
}

#[test]
fn product_agrees_with_the_machine_on_many_patterns() {
    let mut patterns = Patterns(0x2545_f491_4f6c_dd1d);
    let mut zeros = 0usize;
    for _ in 0..400_000 {
        let (x, y, z) = (patterns.next(), patterns.next(), patterns.next());
        let expected = hardware_product_is_zero(x, y, z);
        assert_eq!(product_is_zero(x, y, z), expected, "{:08x} {:08x} {:08x}", x, y, z);
        if expected {
            zeros += 1;
        }
    }
    assert!(zeros > 10_000);
    assert!(zeros < 390_000);
}

#[test]
fn product_agrees_with_the_machine_near_the_smallest_number() {
    let mut patterns = Patterns(7);
    for _ in 0..200_000 {
        let x = patterns.next_u32() & 0x7fff_ffff;
        let y = patterns.next_u32() & 0x7fff_ffff;
        let fx = f32::from_bits(x);
        let fy = f32::from_bits(y);
        if !fx.is_finite() || !fy.is_finite() || fx == 0.0 || fy == 0.0 {
            continue;
        }
        // A third factor that brings the product close to the edge of
        // what is rounded to zero.
        let edge = (2.0f64.powi(-150) / (fx as f64 * fy as f64)) as f32;
        let z = edge.to_bits();
        for nearby in [z.wrapping_sub(2), z.wrapping_sub(1), z, z.wrapping_add(1), z.wrapping_add(2)] {
            assert_eq!(
                product_is_zero(x, y, nearby),
                hardware_product_is_zero(x, y, nearby),
                "{:08x} {:08x} {:08x}",
                x,
                y,
                nearby
            );
        }
    }
}

#[test]
fn product_of_chosen_numbers() {
    let b = |x: f32| x.to_bits();
    assert!(product_is_zero(b(0.0), b(1.0), b(1.0)));
    assert!(product_is_zero(b(1.0), b(-0.0), b(1.0)));
    assert!(product_is_zero(b(1.0), b(1.0), b(0.0)));
    assert!(!product_is_zero(b(1.0), b(1.0), b(1.0)));
    assert!(!product_is_zero(b(-2.0), b(0.5), b(1.0e-30)));
    assert!(product_is_zero(b(1.0e-20), b(1.0e-20), b(1.0e-20)));
    assert!(product_is_zero(b(1.0e-30), b(1.0e-30), b(1.0e30)));
    assert!(!product_is_zero(b(1.0e-30), b(1.0e30), b(1.0e-30)));
    assert!(!product_is_zero(b(f32::INFINITY), b(0.0), b(1.0)));
    assert!(!product_is_zero(b(0.0), b(1.0), b(f32::INFINITY)));
    assert!(!product_is_zero(b(f32::NAN), b(0.0), b(0.0)));
    assert!(!product_is_zero(b(f32::MAX), b(f32::MAX), b(0.0)));
    assert!(!product_is_zero(b(f32::MAX), b(f32::MAX), b(1.0e-45)));
    let least = f32::from_bits(1);
    assert!(product_is_zero(b(least), b(0.5), b(1.0)));
    assert!(!product_is_zero(b(least), b(0.75), b(1.0)));
    assert!(!product_is_zero(b(least), b(1.0), b(1.0)));
    assert!(product_is_zero(b(least), b(least), b(f32::MAX)));
}

#[test]
fn patterns_are_taken_apart() {
    let one = decode(1.0f32.to_bits());
    assert_eq!((one.finite, one.significand, one.scale), (true, 1 << 23, -23));
    let least = decode(1);
    assert_eq!((least.finite, least.significand, least.scale), (true, 1, -149));
    let zero = decode((-0.0f32).to_bits());
    assert_eq!((zero.finite, zero.significand), (true, 0));
    assert!(!decode(f32::INFINITY.to_bits()).finite);
    assert!(!decode(f32::NAN.to_bits()).finite);
    let most = decode(f32::MAX.to_bits());
    assert_eq!((most.finite, most.significand, most.scale), (true, (1 << 24) - 1, 104));
}

#[test]
fn bits_are_counted() {
    assert_eq!(count_bits(0), 0);
    assert_eq!(count_bits(1), 1);
    assert_eq!(count_bits(255), 8);
    assert_eq!(count_bits(256), 9);
    assert_eq!(count_bits(u64::MAX), 64);
}

#[test]
fn rounding_goes_to_the_nearest_and_to_the_even_on_a_tie() {
    let one = 1.0f32.to_bits();
    let least = 1u32;
    let half = 0.5f32.to_bits();
    let quarter = 0.25f32.to_bits();
    let cases = [
        // Half of the least number is a tie between zero and the least
        // number, and goes to zero.
        (least, half, one, true),
        (least, half + 1, one, false),
        (least, quarter, one, true),
        // Three quarters of the least number are nearer to it than to zero.
        (3, quarter, one, false),
        // One and a half times the least number is a tie, and goes to
        // twice the least number.
        (3, half, one, false),
        (3, half, half, false),
        (3, half, quarter, true),
        // The first product is rounded before the second is taken: twice
        // the least number times a little over a quarter is not zero,
        // though the exact product of the three would be.
        (3, half, quarter + 1, false),
    ];
    for (x, y, z, expected) in cases {
        assert_eq!(product_is_zero(x, y, z), expected, "{:08x} {:08x} {:08x}", x, y, z);
        assert_eq!(hardware_product_is_zero(x, y, z), expected, "{:08x} {:08x} {:08x}", x, y, z);
    }
}
