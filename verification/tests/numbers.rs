use dioxus_bar::binary64::{Binary64, Number};
use dioxus_bar::size::format_bytes;

fn of(x: f64) -> Binary64 {
    Binary64 { bits: x.to_bits() }
}

/// The amount in words as double precision arithmetic gives it.
fn float_format_bytes(bytes: u64) -> String {
    let units = ["B", "KB", "MB", "GB", "TB"];
    let mut size = bytes as f64;
    let mut unit = 0;
    while size >= 1024.0 && unit < units.len() - 1 {
        size /= 1024.0;
        unit += 1;
    }
    if unit == 0 {
        format!("{:.0}{}", size, units[unit])
    } else {
        format!("{:.1}{}", size, units[unit])
    }
}

/// A fixed course of well spread numbers.
fn spread(seed: u64, n: usize) -> Vec<u64> {
    let mut x = seed;
    let mut v = Vec::new();
    for _ in 0..n {
        x ^= x << 13;
        x ^= x >> 7;
        x ^= x << 17;
        v.push(x);
    }
    v
}

#[test]
fn bytes_exact_values() {
    assert_eq!(format_bytes(0), "0B");
    assert_eq!(format_bytes(1023), "1023B");
    assert_eq!(format_bytes(1024), "1.0KB");
    assert_eq!(format_bytes(1536), "1.5KB");
    assert_eq!(format_bytes(1048575), "1024.0KB");
    assert_eq!(format_bytes(1048576), "1.0MB");
    assert_eq!(format_bytes(8_589_934_592), "8.0GB");
    assert_eq!(format_bytes(1_099_511_627_776), "1.0TB");
    assert_eq!(format_bytes(u64::MAX), "16777216.0TB");
}

#[test]
fn bytes_ties_go_to_even() {
    assert_eq!(format_bytes(1024 + 256), "1.2KB");
    assert_eq!(format_bytes(1024 + 768), "1.8KB");
}

#[test]
fn bytes_beyond_double_precision() {
    // One byte above a tie is no longer told apart from the tie.
    let tie = (1u64 << 60) + (1u64 << 38);
    assert_eq!(format_bytes(tie), "1048576.2TB");
    assert_eq!(format_bytes(tie + 1), "1048576.2TB");
    assert_eq!(format_bytes(tie + 1000), float_format_bytes(tie + 1000));
}

#[test]
fn bytes_agree_with_floats() {
    for shift in 0..64 {
        for delta in 0..40u64 {
            let base = 1u64 << shift;
            for b in [base.wrapping_add(delta), base.wrapping_sub(delta), base.wrapping_mul(delta)] {
                assert_eq!(format_bytes(b), float_format_bytes(b));
            }
        }
    }
    for (i, x) in spread(0x9E37_79B9_7F4A_7C15, 4000).into_iter().enumerate() {
        let b = x >> (i % 64);
        assert_eq!(format_bytes(b), float_format_bytes(b));
    }
}

#[test]
fn larger_amounts_show_no_smaller_numbers() {
    let mut last = 0.0;
    for b in (1048576u64..4 * 1048576).step_by(9973) {
        let text = format_bytes(b);
        let shown: f64 = text.trim_end_matches("MB").parse().unwrap();
        assert!(shown >= last);
        assert!((shown - b as f64 / 1048576.0).abs() <= 0.05 + 1e-9);
        last = shown;
    }
}

#[test]
fn decoding() {
    assert_eq!(of(f64::NAN).decode(), Number::Nan);
    assert_eq!(of(f64::INFINITY).decode(), Number::Infinite { negative: false });
    assert_eq!(of(f64::NEG_INFINITY).decode(), Number::Infinite { negative: true });
    assert_eq!(of(-0.0).decode(), Number::Finite { negative: true, mantissa: 0, exponent: -1074 });
    assert_eq!(of(1.0).decode(), Number::Finite { negative: false, mantissa: 1 << 52, exponent: -52 });
    assert_eq!(of(5e-324).decode(), Number::Finite { negative: false, mantissa: 1, exponent: -1074 });
}

#[test]
fn fixed_exact_values() {
    assert_eq!(of(0.5).to_fixed(0), "0");
    assert_eq!(of(1.5).to_fixed(0), "2");
    assert_eq!(of(2.5).to_fixed(0), "2");
    assert_eq!(of(0.25).to_fixed(1), "0.2");
    assert_eq!(of(-0.4).to_fixed(0), "-0");
    assert_eq!(of(1.25).to_fixed(2), "1.25");
    assert_eq!(of(99.95).to_fixed(1), "100.0");
    assert_eq!(of(f64::NAN).to_fixed(1), "NaN");
    assert_eq!(of(f64::INFINITY).to_fixed(2), "inf");
    assert_eq!(of(f64::NEG_INFINITY).to_fixed(0), "-inf");
}

fn check_fixed(x: f64) {
    assert_eq!(of(x).to_fixed(0), format!("{:.0}", x));
    assert_eq!(of(x).to_fixed(1), format!("{:.1}", x));
    assert_eq!(of(x).to_fixed(2), format!("{:.2}", x));
}

#[test]
fn fixed_agrees_with_floats() {
    for i in 0..4000 {
        check_fixed(i as f64 / 8.0);
        check_fixed(i as f64 / 10.0);
        check_fixed(-(i as f64) / 200.0);
        check_fixed((i as f32 / 7.0) as f64);
    }
    for x in spread(0x1234_5678_9ABC_DEF1, 1500) {
        check_fixed(f64::from_bits(x));
    }
    for x in [f64::MAX, f64::MIN, f64::MIN_POSITIVE, 5e-324, 1e300, 0.0, -0.0] {
        check_fixed(x);
    }
}

#[test]
fn fixed_of_a_single_is_that_of_the_double() {
    for i in 0..2000 {
        let x = i as f32 * 0.0517;
        assert_eq!(of(x as f64).to_fixed(1), format!("{:.1}", x));
        assert_eq!(of(x as f64).to_fixed(0), format!("{:.0}", x));
    }
}

#[test]
fn order_agrees_with_floats() {
    let mut xs = vec![
        f64::NAN,
        f64::INFINITY,
        f64::NEG_INFINITY,
        0.0,
        -0.0,
        -3.5,
        5e-324,
        f64::MAX,
        30.0 + 2f64.powi(-20),
        30.0 + 2f64.powi(-20) + 2f64.powi(-40),
        60.0 + 2f64.powi(-19),
        60.0 + 2f64.powi(-18),
        80.0 + 2f64.powi(-16),
        80.0 + 2f64.powi(-15),
    ];
    for i in 0..1100 {
        xs.push(i as f64 / 10.0);
    }
    for b in spread(77, 3000) {
        xs.push(f64::from_bits(b));
    }
    for x in xs {
        for c in [0u32, 1, 20, 30, 50, 60, 80, u32::MAX] {
            assert_eq!(of(x).is_above(c), x > c as f64);
        }
        for c in [1u32, 20, 30, 60, 80] {
            assert_eq!(of(x).is_narrowed_at_most(c), (x as f32) <= c as f32);
        }
        assert_eq!(of(x).is_below_zero(), x < 0.0);
    }
}
