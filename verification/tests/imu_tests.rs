use stick_s3::i2c_bus::{BusReply, BusRequest};
use stick_s3::imu::{Error, Imu, ImuRaw, InitStep, ReadStep, CONFIG_LEN};

/// A simulated BMI270: answers per request; `poll_ok_after` status polls
/// fail before init ok is reported.
struct Chip {
    addr: u8,
    poll_ok_after: usize,
    polls: usize,
    fail_write_reg: Option<u8>,
}

impl Chip {
    fn reply(&mut self, req: &BusRequest) -> BusReply<&'static str> {
        match req {
            BusRequest::Write { addr, bytes } => {
                assert_eq!(*addr, self.addr);
                if Some(bytes[0]) == self.fail_write_reg {
                    BusReply::Written(Err("nak"))
                } else {
                    BusReply::Written(Ok(()))
                }
            }
            BusRequest::WriteRead { addr, reg, len } => {
                if *addr != self.addr {
                    return BusReply::Read(Err("no device"));
                }
                let mut v = vec![0u8; *len];
                match *reg {
                    0x00 => v[0] = 0x24,
                    0x21 => {
                        self.polls += 1;
                        v[0] = if self.polls > self.poll_ok_after { 0x01 } else { 0x00 };
                    }
                    0x03 => v[0] = 0x80,
                    0x0C => v[0] = 1,
                    _ => {}
                }
                BusReply::Read(Ok(v))
            }
            BusRequest::DelayMs(_) => BusReply::Waited,
        }
    }
}

fn config() -> Vec<u8> {
    (0..CONFIG_LEN).map(|i| (i % 251) as u8).collect()
}

fn run(chip: &mut Chip) -> (Vec<BusRequest>, Result<Imu, Error<&'static str>>) {
    let (mut m, first) = Imu::new(config());
    let mut reqs = vec![];
    let mut req = first;
    loop {
        let reply = chip.reply(&req);
        reqs.push(req);
        match m.step(reply) {
            InitStep::Request(r) => req = r,
            InitStep::Done(res) => {
                assert!(m.is_finished());
                return (reqs, res);
            }
        }
    }
}

#[test]
fn bring_up_at_second_address() {
    let mut chip = Chip { addr: 0x69, poll_ok_after: 2, polls: 0, fail_write_reg: None };
    let (reqs, res) = run(&mut chip);
    assert_eq!(res, Ok(Imu { addr: 0x69 }));
    assert_eq!(reqs[0], BusRequest::WriteRead { addr: 0x68, reg: 0x00, len: 1 });
    assert_eq!(reqs[1], BusRequest::WriteRead { addr: 0x69, reg: 0x00, len: 1 });
    assert_eq!(reqs[2], BusRequest::Write { addr: 0x69, bytes: vec![0x7E, 0xB6] });
    assert_eq!(reqs[3], BusRequest::DelayMs(100));
    // config upload: 256 pages of 3 writes after 6 set-up steps
    let cfg = config();
    for page in 0..256usize {
        let base = 2 + 6 + 3 * page;
        assert_eq!(reqs[base], BusRequest::Write { addr: 0x69, bytes: vec![0x5B, 0x00] });
        assert_eq!(reqs[base + 1], BusRequest::Write { addr: 0x69, bytes: vec![0x5C, page as u8] });
        let mut data = vec![0x5E];
        data.extend_from_slice(&cfg[page * 32..page * 32 + 32]);
        assert_eq!(reqs[base + 2], BusRequest::Write { addr: 0x69, bytes: data });
    }
    assert_eq!(reqs[2 + 6 + 768], BusRequest::Write { addr: 0x69, bytes: vec![0x59, 0x01] });
    // never writes FEATURES_PAGE
    for r in &reqs {
        if let BusRequest::Write { bytes, .. } = r {
            assert_ne!(bytes[0], 0x50);
        }
    }
    // sensors configured after init ok was seen
    let pos_ok = reqs.iter().position(|r| *r == BusRequest::WriteRead { addr: 0x69, reg: 0x21, len: 1 }).unwrap();
    let pos_acc = reqs.iter().position(|r| *r == BusRequest::Write { addr: 0x69, bytes: vec![0x40, 0xA8] }).unwrap();
    assert!(pos_ok < pos_acc);
    assert!(reqs.contains(&BusRequest::Write { addr: 0x69, bytes: vec![0x42, 0xA9] }));
    assert_eq!(chip.polls, 3);
    assert_eq!(*reqs.last().unwrap(), BusRequest::WriteRead { addr: 0x69, reg: 0x0C, len: 12 });
}

#[test]
fn not_found() {
    let mut chip = Chip { addr: 0x10, poll_ok_after: 0, polls: 0, fail_write_reg: None };
    let (reqs, res) = run(&mut chip);
    assert_eq!(reqs.len(), 2);
    assert_eq!(res, Err(Error::Custom("BMI270 not found")));
}

#[test]
fn init_never_ok_fails_after_100_polls() {
    let mut chip = Chip { addr: 0x68, poll_ok_after: 1000, polls: 0, fail_write_reg: None };
    let (_reqs, res) = run(&mut chip);
    assert_eq!(res, Err(Error::Custom("BMI270 init failed")));
    // 100 polls and one more diagnostic read
    assert_eq!(chip.polls, 101);
}

#[test]
fn write_error_aborts() {
    let mut chip = Chip { addr: 0x68, poll_ok_after: 0, polls: 0, fail_write_reg: Some(0x7C) };
    let (reqs, res) = run(&mut chip);
    assert_eq!(res, Err(Error::I2c("nak")));
    assert_eq!(*reqs.last().unwrap(), BusRequest::Write { addr: 0x68, bytes: vec![0x7C, 0x00] });
}

fn read_sample(status: u8, data: Result<Vec<u8>, &'static str>, temp: Result<Vec<u8>, &'static str>) -> Result<ImuRaw, Error<&'static str>> {
    let imu = Imu { addr: 0x68 };
    let (mut r, first) = imu.read_all();
    assert_eq!(first, BusRequest::WriteRead { addr: 0x68, reg: 0x03, len: 1 });
    match r.step(BusReply::Read(Ok(vec![status]))) {
        ReadStep::Done(res) => return res,
        ReadStep::Request(req) => assert_eq!(req, BusRequest::WriteRead { addr: 0x68, reg: 0x0C, len: 12 }),
    }
    match r.step(BusReply::Read(data)) {
        ReadStep::Done(res) => return res,
        ReadStep::Request(req) => assert_eq!(req, BusRequest::WriteRead { addr: 0x68, reg: 0x22, len: 2 }),
    }
    match r.step(BusReply::Read(temp)) {
        ReadStep::Done(res) => res,
        ReadStep::Request(_) => panic!("unexpected request"),
    }
}

#[test]
fn sample_decoding() {
    let data = vec![0x00, 0x08, 0xFF, 0xFF, 0x00, 0x80, 0x01, 0x00, 0x34, 0x12, 0xFF, 0x7F];
    let res = read_sample(0xC0, Ok(data), Ok(vec![0x00, 0x02])).unwrap();
    assert_eq!(res.acc_x, 2048);
    assert_eq!(res.acc_y, -1);
    assert_eq!(res.acc_z, -32768);
    assert_eq!(res.gyr_x, 1);
    assert_eq!(res.gyr_y, 0x1234);
    assert_eq!(res.gyr_z, 32767);
    assert_eq!(res.temp, Some(512));
}

#[test]
fn sample_errors() {
    assert_eq!(read_sample(0x00, Ok(vec![1; 12]), Ok(vec![0, 0])), Err(Error::Custom("no data ready")));
    assert_eq!(read_sample(0x40, Ok(vec![0; 12]), Ok(vec![0, 0])), Err(Error::Custom("all zero")));
    assert_eq!(read_sample(0x80, Err("bus"), Ok(vec![0, 0])), Err(Error::I2c("bus")));
    let imu = Imu { addr: 0x68 };
    let (mut r, _) = imu.read_all();
    assert_eq!(r.step::<&str>(BusReply::Read(Err("x"))), ReadStep::Done(Err(Error::I2c("x"))));
}

#[test]
fn temperature_invalid_and_failed_read() {
    let data = vec![1u8; 12];
    let res = read_sample(0x80, Ok(data.clone()), Ok(vec![0x00, 0x80])).unwrap();
    assert_eq!(res.temp, None);
    // a failed temperature read counts as 0 (23 degC)
    let res = read_sample(0x80, Ok(data), Err("t")).unwrap();
    assert_eq!(res.temp, Some(0));
}
