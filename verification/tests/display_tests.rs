use stick_s3::display::{Display, DisplayOp, CASET, RASET, RAMWR, MADCTL, DISPOFF, SLPIN, SWRESET, SLPOUT};
use stick_s3::sleep::DisplaySleep;

fn window_of(ops: &[DisplayOp]) -> (u16, u16, u16, u16) {
    let w = |i: usize| match &ops[i] {
        DisplayOp::Data(d) => ((d[0] as u16) << 8) | d[1] as u16,
        other => panic!("expected data, got {:?}", other),
    };
    assert_eq!(ops[0], DisplayOp::Command(CASET));
    assert_eq!(ops[3], DisplayOp::Command(RASET));
    (w(1), w(2), w(4), w(5))
}

#[test]
fn new_display_has_no_pending_ops() {
    let mut d = Display::new();
    assert!(d.take_ops().is_empty());
}

#[test]
fn rotation_one_landscape_window() {
    let mut d = Display::new();
    d.set_rotation(1);
    let ops = d.take_ops();
    assert_eq!(ops, vec![DisplayOp::Command(MADCTL), DisplayOp::Data(vec![0x64])]);
    d.flush(&[1, 2, 3]);
    let ops = d.take_ops();
    assert_eq!(ops.len(), 8);
    // colstart 40, rowstart 53 for rotation 1
    assert_eq!(window_of(&ops), (40, 40 + 239, 53, 53 + 134));
    assert_eq!(ops[6], DisplayOp::Command(RAMWR));
    assert_eq!(ops[7], DisplayOp::Pixels(vec![1, 2, 3]));
}

#[test]
fn rotation_origins_for_all_eight() {
    // (colstart, rowstart, madctl) for rotations 0..8 per M5GFX
    let expected: [(u16, u16, u8); 8] = [
        (52, 40, 0x00),
        (40, 53, 0x64),
        (53, 40, 0xD4),
        (40, 52, 0xB0),
        (52, 40, 0x90),
        (40, 52, 0x20),
        (53, 40, 0x44),
        (40, 53, 0xF4),
    ];
    for (r, &(col, row, mad)) in expected.iter().enumerate() {
        let mut d = Display::new();
        d.set_rotation(r as u8);
        let ops = d.take_ops();
        assert_eq!(ops[1], DisplayOp::Data(vec![mad]), "rotation {}", r);
        d.flush(&[]);
        let ops = d.take_ops();
        let (xs, _, ys, _) = window_of(&ops);
        assert_eq!((xs, ys), (col, row), "rotation {}", r);
    }
}

#[test]
fn rotation_only_low_three_bits_matter() {
    for r in 0u8..8 {
        let mut a = Display::new();
        let mut b = Display::new();
        a.set_rotation(r);
        b.set_rotation(r + 8);
        a.flush(&[7]);
        b.flush(&[7]);
        assert_eq!(a.take_ops(), b.take_ops());
    }
}

#[test]
fn init_sequence_shape() {
    let mut d = Display::new();
    d.init();
    let ops = d.take_ops();
    assert_eq!(ops[0], DisplayOp::ResetPin(true));
    assert_eq!(ops[1], DisplayOp::DelayUs(10));
    assert_eq!(ops[2], DisplayOp::ResetPin(false));
    assert_eq!(ops[4], DisplayOp::ResetPin(true));
    assert_eq!(ops[6], DisplayOp::Command(SWRESET));
    assert_eq!(ops[7], DisplayOp::DelayUs(150_000));
    assert_eq!(ops[8], DisplayOp::Command(SLPOUT));
    assert_eq!(ops[9], DisplayOp::DelayMs(130));
    assert_eq!(ops.len(), 6 + 5 + 20 + 6 + 2);
    assert_eq!(ops[ops.len() - 2], DisplayOp::Command(MADCTL));
    assert_eq!(ops[ops.len() - 1], DisplayOp::Data(vec![0x64]));
    // gamma table is present
    assert!(ops.contains(&DisplayOp::Data(vec![
        0xD0, 0x00, 0x02, 0x07, 0x0A, 0x28, 0x32, 0x44, 0x42, 0x06, 0x0E, 0x12, 0x14, 0x17
    ])));
    assert!(ops.contains(&DisplayOp::Command(0x21)));
    // after init the window origin is that of rotation 1
    d.flush(&[]);
    let ops = d.take_ops();
    let (xs, xe, ys, ye) = window_of(&ops);
    assert_eq!((xs, xe, ys, ye), (40, 279, 53, 187));
}

#[test]
fn every_flush_resets_window() {
    let mut d = Display::new();
    d.init();
    d.take_ops();
    for _ in 0..3 {
        d.flush(&[0xFFFF; 4]);
        let ops = d.take_ops();
        assert_eq!(ops[0], DisplayOp::Command(CASET));
        assert_eq!(ops[3], DisplayOp::Command(RASET));
        assert_eq!(ops[6], DisplayOp::Command(RAMWR));
    }
}

#[test]
fn sleep_sends_dispoff_then_slpin() {
    let mut d = Display::new();
    d.sleep();
    assert_eq!(d.take_ops(), vec![DisplayOp::Command(DISPOFF), DisplayOp::Command(SLPIN)]);
}
