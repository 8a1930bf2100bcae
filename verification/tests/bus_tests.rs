use stick_s3::audio::{Audio, NS4168_ADDR};
use stick_s3::es8311::{init_es8311, ES8311_ADDR};
use stick_s3::i2c_bus::{write_reg, BusReply, BusRequest, RegisterWrites, WriteStep};
use stick_s3::pmic::{audio_power_regs, init_pmic, PmicAction, PmicEvent, PMIC_ADDR};

#[test]
fn es8311_writes_table_in_order() {
    let (mut m, first) = init_es8311();
    let mut reqs = vec![first];
    loop {
        match m.step::<()>(BusReply::Written(Ok(()))) {
            WriteStep::Request(r) => reqs.push(r),
            WriteStep::Done(res) => {
                assert_eq!(res, Ok(()));
                break;
            }
        }
    }
    assert_eq!(reqs.len(), 12);
    assert_eq!(reqs[0], BusRequest::Write { addr: ES8311_ADDR, bytes: vec![0x00, 0x80] });
    assert_eq!(reqs[1], BusRequest::Write { addr: ES8311_ADDR, bytes: vec![0x01, 0xBA] });
    assert_eq!(reqs[11], BusRequest::Write { addr: ES8311_ADDR, bytes: vec![0x1C, 0x6A] });
    let resets = reqs.iter().filter(|r| matches!(r, BusRequest::Write { bytes, .. } if bytes[0] == 0x00)).count();
    assert_eq!(resets, 1);
}

#[test]
fn es8311_stops_at_first_error() {
    let (mut m, _first) = init_es8311();
    assert!(matches!(m.step::<()>(BusReply::Written(Ok(()))), WriteStep::Request(_)));
    assert_eq!(m.step(BusReply::Written(Err(7u32))), WriteStep::Done(Err("ES8311 I2C")));
}

#[test]
fn ns4168_volume_is_limited() {
    let audio = Audio::new();
    let (mut w, first) = audio.init_ns4168(0x40);
    assert_eq!(first, BusRequest::Write { addr: NS4168_ADDR, bytes: vec![0x00, 0x00] });
    assert_eq!(w.step::<()>(BusReply::Written(Ok(()))), WriteStep::Request(write_reg(NS4168_ADDR, 0x01, 0x1F)));
    let (mut w2, _) = audio.init_ns4168(0x05);
    assert_eq!(w2.step::<()>(BusReply::Written(Ok(()))), WriteStep::Request(write_reg(NS4168_ADDR, 0x01, 0x05)));
    // error ends with the bus error
    assert_eq!(w2.step(BusReply::Written(Err("e"))), WriteStep::Done(Err("e")));
}

#[test]
fn register_writes_ignoring_errors() {
    let (mut w, first) = RegisterWrites::start::<&str>(PMIC_ADDR, audio_power_regs(), false);
    assert_eq!(first, WriteStep::Request(write_reg(PMIC_ADDR, 0x16, 0x00)));
    assert_eq!(w.step(BusReply::Written(Err("x"))), WriteStep::Request(write_reg(PMIC_ADDR, 0x10, 0x0C)));
    assert_eq!(w.step(BusReply::Written(Err("x"))), WriteStep::Request(write_reg(PMIC_ADDR, 0x13, 0x00)));
    assert_eq!(w.step::<&str>(BusReply::Written(Ok(()))), WriteStep::Request(write_reg(PMIC_ADDR, 0x11, 0x0C)));
    assert_eq!(w.step(BusReply::Written(Err("x"))), WriteStep::Done(Ok(())));
}

#[test]
fn empty_table_done_at_once() {
    let (_w, first) = RegisterWrites::start::<()>(0x10, vec![], true);
    assert_eq!(first, WriteStep::Done(Ok(())));
}

fn pmic_run(bus0_opens: bool, bus0_answers: bool, bus1_opens: bool) -> (Vec<PmicAction>, PmicAction) {
    let (mut m, mut act) = init_pmic();
    let mut log = vec![];
    let mut bus = 0u8;
    loop {
        let ev = match &act {
            PmicAction::OpenBus(b) => {
                bus = *b;
                PmicEvent::Opened(if *b == 0 { bus0_opens } else { bus1_opens })
            }
            PmicAction::Bus(BusRequest::WriteRead { reg, .. }) => {
                if bus == 0 && !bus0_answers {
                    PmicEvent::Bus(BusReply::Read(Err(())))
                } else if *reg == 0x11 {
                    // GPIO_OUT currently has GPIO3 and bit 1 set
                    PmicEvent::Bus(BusReply::Read(Ok(vec![0x0A])))
                } else {
                    PmicEvent::Bus(BusReply::Read(Ok(vec![0xFF])))
                }
            }
            PmicAction::Bus(_) => PmicEvent::Bus(BusReply::Written(Err(()))),
            PmicAction::Done(_) => return (log, act),
        };
        log.push(act);
        act = m.step(ev);
    }
}

#[test]
fn pmic_on_first_bus() {
    let (log, done) = pmic_run(true, true, true);
    assert_eq!(done, PmicAction::Done(Some(0)));
    assert_eq!(log[0], PmicAction::OpenBus(0));
    assert_eq!(log[1], PmicAction::Bus(BusRequest::WriteRead { addr: PMIC_ADDR, reg: 0, len: 1 }));
    // nine entries, all attempted although each write failed; GPIO_OUT is
    // read first and written back with bit 2 set, other bits kept
    assert_eq!(log.len(), 2 + 9 + 1);
    assert_eq!(log[4], PmicAction::Bus(write_reg(PMIC_ADDR, 0x09, 0x00)));
    assert_eq!(log[7], PmicAction::Bus(write_reg(PMIC_ADDR, 0x13, 0x00)));
    assert_eq!(log[8], PmicAction::Bus(BusRequest::WriteRead { addr: PMIC_ADDR, reg: 0x11, len: 1 }));
    assert_eq!(log[9], PmicAction::Bus(write_reg(PMIC_ADDR, 0x11, 0x0E)));
    assert_eq!(log[11], PmicAction::Bus(write_reg(PMIC_ADDR, 0x45, 0x07)));
    assert!(!log.contains(&PmicAction::OpenBus(1)));
}

#[test]
fn pmic_gpio_out_failed_read_sets_backlight_only() {
    let (mut m, _) = init_pmic();
    m.step::<()>(PmicEvent::Opened(true));
    let mut act = m.step::<()>(PmicEvent::Bus(BusReply::Read(Ok(vec![0xFF]))));
    for _ in 0..6 {
        act = m.step::<()>(PmicEvent::Bus(BusReply::Written(Ok(()))));
    }
    assert_eq!(act, PmicAction::Bus(BusRequest::WriteRead { addr: PMIC_ADDR, reg: 0x11, len: 1 }));
    let act = m.step::<()>(PmicEvent::Bus(BusReply::Read(Err(()))));
    assert_eq!(act, PmicAction::Bus(write_reg(PMIC_ADDR, 0x11, 0x04)));
}

#[test]
fn pmic_falls_back_to_second_bus() {
    let (log, done) = pmic_run(true, false, true);
    assert_eq!(done, PmicAction::Done(Some(1)));
    assert_eq!(log[2], PmicAction::OpenBus(1));
    let (_log, done) = pmic_run(false, true, true);
    assert_eq!(done, PmicAction::Done(Some(1)));
    let (_log, done) = pmic_run(false, true, false);
    assert_eq!(done, PmicAction::Done(None));
}
