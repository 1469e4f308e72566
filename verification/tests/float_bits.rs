use flight_sim::float_bits::{f32_bits_eq, f32_bits_lt, total_order_key};

fn k(x: f32) -> i64 {
    total_order_key(x.to_bits())
}

#[test]
fn total_order_key_matches_total_cmp() {
    let values = [
        f32::NEG_INFINITY,
        -1000.0,
        -1.5,
        -f32::MIN_POSITIVE,
        -0.0,
        0.0,
        f32::MIN_POSITIVE,
        1.0,
        1.5,
        f32::INFINITY,
        f32::NAN,
    ];
    for a in values {
        for b in values {
            assert_eq!(k(a).cmp(&k(b)), a.total_cmp(&b), "{a} vs {b}");
        }
    }
}

#[test]
fn total_order_key_exact_values() {
    assert_eq!(k(0.0), 0);
    assert_eq!(k(-0.0), -1);
    assert_eq!(k(1.0), 0x3f80_0000);
    assert_eq!(k(-1.0), -0x3f80_0000 - 1);
}

#[test]
fn bit_equality_and_order_follow_ieee() {
    let values = [-2.0f32, -0.0, 0.0, 0.5, 3.0, f32::INFINITY, f32::NAN, -f32::NAN];
    for a in values {
        for b in values {
            assert_eq!(f32_bits_eq(a.to_bits(), b.to_bits()), a == b, "{a} == {b}");
            assert_eq!(f32_bits_lt(a.to_bits(), b.to_bits()), a < b, "{a} < {b}");
        }
    }
}
