use stick_s3::battery::{Battery, MAX_PCT_MV};
use stick_s3::dashboard::{ball_centered, mic_bar, BarColor, Counters, MicBar};
use stick_s3::framebuffer::{Fb, RawPixel};
use stick_s3::led::Led;
use stick_s3::nvs::{init_needs_erase, stored_size, stored_string};
use stick_s3::sleep::config_wakeup;
use stick_s3::{HEIGHT, WIDTH};

#[test]
fn battery_voltage_is_doubled() {
    assert_eq!(Battery::read_mv(Some(1950)), 3900);
    assert_eq!(Battery::read_mv(None), 0);
    assert_eq!(Battery::read_mv(Some(u16::MAX)), 131070);
}

#[test]
fn battery_percent() {
    assert_eq!(Battery::pct(0), 0);
    assert_eq!(Battery::pct(3290), 0);
    assert_eq!(Battery::pct(3300), 0);
    assert_eq!(Battery::pct(3308), 0);
    assert_eq!(Battery::pct(3309), 1);
    assert_eq!(Battery::pct(3725), 50);
    assert_eq!(Battery::pct(4150), 100);
    assert_eq!(Battery::pct(5000), 100);
    assert_eq!(Battery::pct(MAX_PCT_MV), 100);
    let mut last = 0;
    for mv in (3000..4300).step_by(7) {
        let p = Battery::pct(mv);
        assert!(p >= last && p <= 100);
        last = p;
    }
}

#[test]
fn led_levels() {
    assert!(Led::on());
    assert!(!Led::off());
    assert!(!Led::toggle(true));
    assert!(Led::toggle(false));
}

#[test]
fn framebuffer_draws_in_bounds() {
    let mut buf = vec![0u16; (WIDTH * HEIGHT) as usize];
    let mut fb = Fb { buf: &mut buf[..] };
    assert_eq!(fb.size(), (240, 135));
    fb.draw_iter(&[
        RawPixel { x: 3, y: 2, color: 0x1234 },
        RawPixel { x: -1, y: 0, color: 0xFFFF },
        RawPixel { x: 0, y: -5, color: 0xFFFF },
        RawPixel { x: 239, y: 134, color: 0xABCD },
        RawPixel { x: 0, y: 135, color: 0xFFFF },
        RawPixel { x: 3, y: 2, color: 0x4321 },
    ]);
    assert_eq!(buf[3 + 2 * 240], 0x4321);
    assert_eq!(buf[239 + 134 * 240], 0xABCD);
    assert_eq!(buf.iter().filter(|&&c| c != 0).count(), 2);
}

#[test]
fn framebuffer_discards_off_screen() {
    let mut buf = vec![0u16; (WIDTH * HEIGHT) as usize];
    let mut fb = Fb { buf: &mut buf[..] };
    fb.draw_iter(&[
        RawPixel { x: 240, y: 0, color: 0xFFFF },
        RawPixel { x: 0, y: 135, color: 0xFFFF },
        RawPixel { x: 245, y: 0, color: 9 },
    ]);
    assert!(buf.iter().all(|&c| c == 0));
    // a short buffer: in-area pixels past its end are discarded too
    let mut small = vec![0u16; 480];
    let mut fb = Fb { buf: &mut small[..] };
    fb.draw_iter(&[RawPixel { x: 0, y: 1, color: 5 }, RawPixel { x: 0, y: 2, color: 6 }]);
    assert_eq!(small[240], 5);
    assert!(!small.contains(&6));
}

#[test]
fn rgb565_packing() {
    assert_eq!(RawPixel::from_rgb(1, 2, 31, 63, 31), RawPixel { x: 1, y: 2, color: 0xFFFF });
    assert_eq!(RawPixel::from_rgb(0, 0, 1, 0, 0).color, 0x0800);
    assert_eq!(RawPixel::from_rgb(0, 0, 0, 1, 0).color, 0x0020);
    assert_eq!(RawPixel::from_rgb(0, 0, 0, 0, 1).color, 0x0001);
    // unused high bits of each channel are dropped
    assert_eq!(RawPixel::from_rgb(0, 0, 0x21, 0x41, 0x21).color, 0x0821);
}

#[test]
fn nvs_decisions() {
    assert!(init_needs_erase(0x110D));
    assert!(init_needs_erase(0x1110));
    assert!(!init_needs_erase(0));
    assert!(!init_needs_erase(0x1100));
    assert!(!init_needs_erase(0x1106));
    assert!(!init_needs_erase(0x1102));
    assert_eq!(stored_size(0, 5), Some(5));
    assert_eq!(stored_size(0, 0), None);
    assert_eq!(stored_size(0x1102, 5), None);
    assert_eq!(stored_string(b"pass\0".to_vec(), 5), Some("pass".to_string()));
    assert_eq!(stored_string(b"\0".to_vec(), 1), Some(String::new()));
    assert_eq!(stored_string(vec![0xFF, 0xFE, 0], 3), None);
    assert_eq!(stored_string("héllo\0".as_bytes().to_vec(), 7), Some("héllo".to_string()));
}

#[test]
fn wakeup_mask_is_button_b() {
    assert_eq!(config_wakeup(), 1u64 << 12);
}

#[test]
fn mic_bar_colors_and_width() {
    assert_eq!(mic_bar(0), None);
    assert_eq!(mic_bar(1), Some(MicBar { fill_w: 0, fill_h: 12, color: BarColor::Green }));
    assert_eq!(mic_bar(49).unwrap().color, BarColor::Green);
    assert_eq!(mic_bar(50).unwrap().color, BarColor::Yellow);
    assert_eq!(mic_bar(79).unwrap().color, BarColor::Yellow);
    assert_eq!(mic_bar(80).unwrap().color, BarColor::Red);
    assert_eq!(mic_bar(100).unwrap().fill_w, 126);
    assert_eq!(mic_bar(50).unwrap().fill_w, 62);
}

#[test]
fn ball_centre() {
    assert!(ball_centered(0, 0));
    assert!(ball_centered(7, 0));
    assert!(ball_centered(-4, 5));
    assert!(!ball_centered(5, 5));
    assert!(!ball_centered(-8, 0));
}

#[test]
fn counters() {
    let mut c = Counters::new(3, 9);
    assert_eq!(c.record_a(), 4);
    assert_eq!(c.record_b(), 10);
    assert_eq!(c.record_a(), 5);
    assert_eq!(c.total(), 15);
    assert_eq!(c.a_count(), 5);
    assert_eq!(c.b_count(), 10);
}

#[test]
fn stored_string_round_trip() {
    for v in ["", "pass", "héllo wörld", "日本"] {
        let mut buf = v.as_bytes().to_vec();
        buf.push(0);
        let len = buf.len();
        assert_eq!(stored_string(buf, len), Some(v.to_string()));
    }
}
