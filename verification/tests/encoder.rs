use nightstand::color::Rgb;
use nightstand::encoder::encode;
use nightstand::timing::{PinLevel, Pulse, Timings};

fn timings() -> Timings {
    Timings {
        t0h: Pulse { level: PinLevel::High, ticks: 28 },
        t0l: Pulse { level: PinLevel::Low, ticks: 64 },
        t1h: Pulse { level: PinLevel::High, ticks: 56 },
        t1l: Pulse { level: PinLevel::Low, ticks: 48 },
        rst: Pulse { level: PinLevel::Low, ticks: 4000 },
    }
}

fn reference(bits: &str, t: &Timings) -> Vec<Pulse> {
    let mut train = Vec::new();
    for bit in bits.chars().filter(|c| !c.is_whitespace()) {
        if bit == '1' {
            train.push(t.t1h);
            train.push(t.t1l);
        } else {
            train.push(t.t0h);
            train.push(t.t0l);
        }
    }
    train.push(t.rst);
    train
}

#[test]
fn one_pixel_matches_the_reference_train() {
    let t = timings();
    let train = encode(&t, &[Rgb::new(1, 2, 4)]);
    // green 2, red 1, blue 4, each byte from its top bit
    assert_eq!(train, reference("00000010 00000001 00000100", &t));
    assert_eq!(train.len(), 49);
}

#[test]
fn train_length_is_forty_eight_per_pixel_plus_reset() {
    let t = timings();
    for n in [0usize, 1, 2, 12, 25] {
        let pixels = vec![Rgb::new(7, 8, 9); n];
        assert_eq!(encode(&t, &pixels).len(), 2 * 24 * n + 1);
    }
}

#[test]
fn no_pixels_is_one_reset_pulse() {
    let t = timings();
    assert_eq!(encode(&t, &[]), vec![t.rst]);
}

#[test]
fn pixels_go_out_in_order() {
    let t = timings();
    let train = encode(&t, &[Rgb::new(255, 0, 0), Rgb::new(0, 0, 255)]);
    let expected = reference(
        "00000000 11111111 00000000  00000000 00000000 11111111",
        &t,
    );
    assert_eq!(train, expected);
}

#[test]
fn every_bit_is_a_high_then_a_low_pulse() {
    let t = timings();
    let train = encode(&t, &[Rgb::new(0x5A, 0xC3, 0x0F)]);
    for pair in train[..48].chunks(2) {
        assert_eq!(pair[0].level, PinLevel::High);
        assert_eq!(pair[1].level, PinLevel::Low);
        assert!(pair == [t.t1h, t.t1l] || pair == [t.t0h, t.t0l]);
    }
    assert_eq!(train[48], t.rst);
}
