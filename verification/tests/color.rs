use nightstand::color::{RangeError, Rgb};

fn hsv(h: u32, s: u32, v: u32) -> (u8, u8, u8) {
    let rgb = Rgb::from_hsv(h, s, v).expect("in range");
    (rgb.r, rgb.g, rgb.b)
}

#[test]
fn new_keeps_the_channels() {
    let rgb = Rgb::new(1, 2, 3);
    assert_eq!((rgb.r, rgb.g, rgb.b), (1, 2, 3));
    assert_eq!(rgb, Rgb { r: 1, g: 2, b: 3 });
}

#[test]
fn primary_hues_are_exact() {
    assert_eq!(hsv(0, 100, 100), (255, 0, 0));
    assert_eq!(hsv(60, 100, 100), (255, 255, 0));
    assert_eq!(hsv(120, 100, 100), (0, 255, 0));
    assert_eq!(hsv(180, 100, 100), (0, 255, 255));
    assert_eq!(hsv(240, 100, 100), (0, 0, 255));
    assert_eq!(hsv(300, 100, 100), (255, 0, 255));
}

#[test]
fn last_sector_absorbs_full_circle() {
    assert_eq!(hsv(360, 100, 100), (255, 0, 0));
    assert_eq!(hsv(360, 40, 70), hsv(0, 40, 70));
}

#[test]
fn levels_are_rounded_not_truncated() {
    // x = 0.5, so green is 127.5 and rounds up.
    assert_eq!(hsv(30, 100, 100), (255, 128, 0));
    // m = 0.5 on every channel.
    assert_eq!(hsv(0, 0, 50), (128, 128, 128));
    // c = 0.4, x = 0.2667, m = 0.4.
    assert_eq!(hsv(200, 50, 80), (102, 170, 204));
    // 0.01 * 255 = 2.55
    assert_eq!(hsv(0, 0, 1), (3, 3, 3));
}

#[test]
fn zero_saturation_is_grey_and_zero_value_is_black() {
    assert_eq!(hsv(123, 0, 100), (255, 255, 255));
    assert_eq!(hsv(217, 83, 0), (0, 0, 0));
}

#[test]
fn out_of_range_is_refused() {
    assert_eq!(Rgb::from_hsv(361, 0, 0), Err(RangeError));
    assert_eq!(Rgb::from_hsv(0, 101, 0), Err(RangeError));
    assert_eq!(Rgb::from_hsv(0, 0, 101), Err(RangeError));
    assert_eq!(Rgb::from_hsv(u32::MAX, u32::MAX, u32::MAX), Err(RangeError));
    assert!(Rgb::from_hsv(360, 100, 100).is_ok());
    assert!(Rgb::from_hsv(0, 0, 0).is_ok());
}

#[test]
fn neighbouring_hues_are_neighbouring_colours() {
    for s in (0..=100u32).step_by(5) {
        for v in (0..=100u32).step_by(5) {
            for h in 0..360u32 {
                let a = hsv(h, s, v);
                let b = hsv(h + 1, s, v);
                assert!(a.0.abs_diff(b.0) <= 5, "red at h={h} s={s} v={v}");
                assert!(a.1.abs_diff(b.1) <= 5, "green at h={h} s={s} v={v}");
                assert!(a.2.abs_diff(b.2) <= 5, "blue at h={h} s={s} v={v}");
            }
        }
    }
}

#[test]
fn sector_boundary_has_no_jump() {
    assert_eq!(hsv(59, 100, 100), (255, 251, 0));
    assert_eq!(hsv(60, 100, 100), (255, 255, 0));
    assert_eq!(hsv(61, 100, 100), (251, 255, 0));
    assert_eq!(hsv(119, 100, 100), (4, 255, 0));
    assert_eq!(hsv(120, 100, 100), (0, 255, 0));
    assert_eq!(hsv(121, 100, 100), (0, 255, 4));
}

#[test]
fn wire_word_is_green_red_blue() {
    assert_eq!(Rgb::new(1, 2, 4).to_packed(), 0x02_01_04);
    assert_eq!(Rgb::new(0xAA, 0xBB, 0xCC).to_packed(), 0xBB_AA_CC);
    assert_eq!(Rgb::new(255, 255, 255).to_packed(), 0x00FF_FFFF);
}

#[test]
fn wire_word_by_conversion() {
    let rgb = Rgb::new(1, 2, 4);
    assert_eq!(u32::from(rgb), 0x02_01_04);
    assert_eq!(u32::from(&rgb), 0x02_01_04);
    let word: u32 = rgb.into();
    assert_eq!(word, 131_332);
}
