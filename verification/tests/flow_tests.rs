use std::collections::BTreeMap;
use stick_s3::provision::{apply, NvsReply, NvsRequest, ProvisionEntry};
use stick_s3::sleep::{enter, SleepAction, SleepEvent};
use stick_s3::wifi::{LinkAction, LinkText, Wifi, WifiLink, WifiReply, WifiRequest};

fn entry(ns: &str, key: &str, value: &str) -> ProvisionEntry {
    ProvisionEntry { namespace: ns.to_string(), key: key.to_string(), value: value.to_string() }
}

/// A fake store: namespaces that fail to open, existing keys, failing writes.
struct Store {
    data: BTreeMap<(String, String), String>,
    bad_ns: Vec<String>,
    fail_writes: bool,
    open: Option<String>,
    log: Vec<NvsRequest>,
}

impl Store {
    fn answer(&mut self, req: &NvsRequest) -> NvsReply {
        match req {
            NvsRequest::Open(ns) => {
                let ok = !self.bad_ns.contains(ns);
                self.open = if ok { Some(ns.clone()) } else { None };
                NvsReply::Opened(ok)
            }
            NvsRequest::KeyExists(k) => {
                let ns = self.open.clone().unwrap();
                NvsReply::Found(self.data.contains_key(&(ns, k.clone())))
            }
            NvsRequest::SetStr(k, v) => {
                if self.fail_writes {
                    NvsReply::Stored(false)
                } else {
                    let ns = self.open.clone().unwrap();
                    self.data.insert((ns, k.clone()), v.clone());
                    NvsReply::Stored(true)
                }
            }
            NvsRequest::Done(_) => panic!("no reply to Done"),
        }
    }
}

fn provision(store: &mut Store, entries: Vec<ProvisionEntry>) -> u32 {
    let (mut p, mut req) = apply(entries);
    loop {
        if let NvsRequest::Done(n) = req {
            return n;
        }
        let reply = store.answer(&req);
        store.log.push(req);
        req = p.step(reply);
    }
}

fn store() -> Store {
    Store { data: BTreeMap::new(), bad_ns: vec![], fail_writes: false, open: None, log: vec![] }
}

#[test]
fn provision_empty_writes_nothing() {
    let mut s = store();
    assert_eq!(provision(&mut s, vec![]), 0);
    assert!(s.log.is_empty());
}

#[test]
fn provision_writes_only_missing_keys() {
    let mut s = store();
    s.data.insert(("wifi".into(), "home".into()), "old".into());
    let n = provision(
        &mut s,
        vec![entry("wifi", "home", "new"), entry("wifi", "office", "secret"), entry("app", "mode", "1")],
    );
    assert_eq!(n, 2);
    assert_eq!(s.data[&("wifi".to_string(), "home".to_string())], "old");
    assert_eq!(s.data[&("wifi".to_string(), "office".to_string())], "secret");
    assert_eq!(s.data[&("app".to_string(), "mode".to_string())], "1");
    assert_eq!(s.log[0], NvsRequest::Open("wifi".into()));
    assert_eq!(s.log[1], NvsRequest::KeyExists("home".into()));
    assert_eq!(s.log[2], NvsRequest::Open("wifi".into()));
}

#[test]
fn provision_skips_unopenable_and_counts_only_successes() {
    let mut s = store();
    s.bad_ns.push("bad".into());
    assert_eq!(provision(&mut s, vec![entry("bad", "k", "v"), entry("ok", "k", "v")]), 1);
    let mut s = store();
    s.fail_writes = true;
    assert_eq!(provision(&mut s, vec![entry("ok", "k", "v")]), 0);
}

#[test]
fn provision_duplicate_entry_written_once() {
    let mut s = store();
    assert_eq!(provision(&mut s, vec![entry("n", "k", "a"), entry("n", "k", "b")]), 1);
    assert_eq!(s.data[&("n".to_string(), "k".to_string())], "a");
}

fn wifi_run(
    w: &mut Wifi,
    aps: Option<Vec<&str>>,
    creds: &[(&str, &str)],
    nvs_ok: bool,
) -> (Vec<WifiRequest>, Option<String>) {
    let mut req = w.auto_connect();
    let mut log = vec![];
    loop {
        let reply = match &req {
            WifiRequest::Disconnect => WifiReply::Performed,
            WifiRequest::Scan => WifiReply::Scanned(aps.clone().map(|v| v.iter().map(|s| s.to_string()).collect())),
            WifiRequest::OpenNvs => WifiReply::Opened(nvs_ok),
            WifiRequest::GetPassword(ssid) => WifiReply::Password(
                creds.iter().find(|(s, _)| s == ssid).map(|(_, p)| p.to_string()),
            ),
            WifiRequest::Connect { .. } => WifiReply::Performed,
            WifiRequest::Done(r) => return (log, r.clone()),
        };
        log.push(req);
        req = w.step(reply);
    }
}

#[test]
fn wifi_connects_to_first_known_network() {
    let mut w = Wifi::new();
    let (log, res) = wifi_run(&mut w, Some(vec!["", "cafe", "home", "office"]), &[("office", "o"), ("home", "h")], true);
    assert_eq!(res, Some("home".to_string()));
    assert_eq!(log[0], WifiRequest::Disconnect);
    assert_eq!(log[1], WifiRequest::Scan);
    // the hidden network is never looked up
    assert!(!log.contains(&WifiRequest::GetPassword(String::new())));
    assert_eq!(log[3], WifiRequest::GetPassword("cafe".into()));
    assert!(log.contains(&WifiRequest::Connect { ssid: "home".into(), password: "h".into() }));
    assert!(!log.contains(&WifiRequest::GetPassword("office".into())));
}

#[test]
fn wifi_no_match_or_scan_failure() {
    let mut w = Wifi::new();
    assert_eq!(wifi_run(&mut w, Some(vec!["a", "b"]), &[], true).1, None);
    assert_eq!(wifi_run(&mut w, None, &[("a", "x")], true).1, None);
    assert_eq!(wifi_run(&mut w, Some(vec![]), &[("a", "x")], true).1, None);
    // store cannot be opened: every network skipped
    let (log, res) = wifi_run(&mut w, Some(vec!["a", "b"]), &[("a", "x")], false);
    assert_eq!(res, None);
    assert_eq!(log.iter().filter(|r| **r == WifiRequest::OpenNvs).count(), 2);
}

#[test]
fn sleep_waits_for_release() {
    let (mut s, first) = enter();
    assert_eq!(first, SleepAction::Cleanup);
    assert_eq!(s.step(SleepEvent::Performed), SleepAction::BacklightOff);
    assert_eq!(s.step(SleepEvent::Performed), SleepAction::DisplaySleep);
    assert_eq!(s.step(SleepEvent::Performed), SleepAction::ReadButtonB);
    assert_eq!(s.step(SleepEvent::ButtonB(true)), SleepAction::WaitMs(10));
    assert_eq!(s.step(SleepEvent::Performed), SleepAction::ReadButtonB);
    assert_eq!(s.step(SleepEvent::ButtonB(true)), SleepAction::WaitMs(10));
    assert_eq!(s.step(SleepEvent::Performed), SleepAction::ReadButtonB);
    assert_eq!(s.step(SleepEvent::ButtonB(false)), SleepAction::WaitMs(30));
    assert_eq!(s.step(SleepEvent::Performed), SleepAction::DeepSleep);
    assert_eq!(s.step(SleepEvent::Performed), SleepAction::Failed);
}

#[test]
fn provision_second_run_writes_nothing() {
    let mut s = store();
    s.data.insert(("wifi".into(), "home".into()), "kept".into());
    let entries = || vec![entry("wifi", "home", "new"), entry("wifi", "office", "secret")];
    assert_eq!(provision(&mut s, entries()), 1);
    let after_first = s.data.clone();
    s.log.clear();
    assert_eq!(provision(&mut s, entries()), 0);
    assert_eq!(s.data, after_first);
    assert!(s.log.iter().all(|r| !matches!(r, NvsRequest::SetStr(..))));
    assert_eq!(s.data[&("wifi".to_string(), "home".to_string())], "kept");
}

#[test]
fn provision_key_of_another_type_is_kept() {
    // The store reports a key present whatever the type of its entry, so an
    // integer entry under the key is not overwritten.
    let (mut p, req) = apply(vec![entry("app", "count", "7")]);
    assert_eq!(req, NvsRequest::Open("app".into()));
    assert_eq!(p.step(NvsReply::Opened(true)), NvsRequest::KeyExists("count".into()));
    assert_eq!(p.step(NvsReply::Found(true)), NvsRequest::Done(0));
}

#[test]
fn sleep_never_starts_while_button_held() {
    let (mut s, _) = enter();
    let mut act = s.step(SleepEvent::Performed);
    for _ in 0..200 {
        let ev = if act == SleepAction::ReadButtonB { SleepEvent::ButtonB(true) } else { SleepEvent::Performed };
        act = s.step(ev);
        assert_ne!(act, SleepAction::DeepSleep);
        assert_ne!(act, SleepAction::Failed);
        assert_ne!(act, SleepAction::WaitMs(30));
    }
}

#[test]
fn sleep_deep_sleep_right_after_release_and_settle() {
    let (mut s, _) = enter();
    let mut acts = vec![];
    let mut act = SleepAction::Cleanup;
    let mut reads = 0;
    while act != SleepAction::DeepSleep {
        let ev = if act == SleepAction::ReadButtonB {
            reads += 1;
            SleepEvent::ButtonB(reads < 4)
        } else {
            SleepEvent::Performed
        };
        act = s.step(ev);
        acts.push(act);
    }
    let n = acts.len();
    assert_eq!(acts[n - 2], SleepAction::WaitMs(30));
    assert_eq!(acts[n - 3], SleepAction::ReadButtonB);
    assert_eq!(reads, 4);
}

#[test]
fn wifi_button_toggles_link() {
    let mut l = WifiLink::new();
    assert_eq!(l.text(false), LinkText::Ready);
    assert_eq!(l.press(), LinkAction::AutoConnect);
    l.joined(None);
    assert_eq!(l.text(true), LinkText::NoNetwork);
    assert_eq!(l.press(), LinkAction::AutoConnect);
    l.joined(Some("home".to_string()));
    assert_eq!(l.text(false), LinkText::Connecting("home".to_string()));
    assert_eq!(l.text(true), LinkText::Online("home".to_string()));
    assert_eq!(l.press(), LinkAction::Disconnect);
    assert_eq!(l.text(true), LinkText::Ready);
    assert_eq!(l.press(), LinkAction::AutoConnect);
}
