//! Wi-Fi station: scan, match against stored credentials, connect.
//!
//! Credentials live in the NVS namespace "wifi", one entry per network,
//! keyed by SSID (NVS keys hold at most 15 bytes, so longer SSIDs need an
//! alias entry). Auto-connect first drops any previous connection, scans,
//! then walks the access points in scan order, skipping hidden ones (empty
//! SSID), and connects to the first one whose SSID has a stored password.
//! The connection is only started (no waiting for the association); the IP
//! address shows up later.
//!
//! The radio and the NVS store are driven by the hardware layer, which
//! performs each [`WifiRequest`] and answers with a [`WifiReply`].

use vstd::prelude::*;

verus! {

/// A request to the radio or to the credential store.
#[derive(Debug, PartialEq, Eq)]
pub enum WifiRequest {
    /// Disconnect the station.
    Disconnect,
    /// Scan for access points.
    Scan,
    /// Open the NVS namespace "wifi".
    OpenNvs,
    /// Read the password stored under this SSID.
    GetPassword(String),
    /// Configure these credentials and start connecting, without waiting.
    Connect { ssid: String, password: String },
    /// Auto-connect is over: the SSID being connected to, if any.
    Done(Option<String>),
}

/// A [`WifiRequest`] as a mathematical value.
pub enum WifiOp {
    Disconnect,
    Scan,
    OpenNvs,
    GetPassword(Seq<char>),
    Connect { ssid: Seq<char>, password: Seq<char> },
    Done(Option<Seq<char>>),
}

impl View for WifiRequest {
    type V = WifiOp;

    open spec fn view(&self) -> WifiOp {
        match self {
            WifiRequest::Disconnect => WifiOp::Disconnect,
            WifiRequest::Scan => WifiOp::Scan,
            WifiRequest::OpenNvs => WifiOp::OpenNvs,
            WifiRequest::GetPassword(s) => WifiOp::GetPassword(s@),
            WifiRequest::Connect { ssid, password } => WifiOp::Connect {
                ssid: ssid@,
                password: password@,
            },
            WifiRequest::Done(Some(s)) => WifiOp::Done(Some(s@)),
            WifiRequest::Done(None) => WifiOp::Done(None),
        }
    }
}

/// The answer to the pending request.
#[derive(Debug, PartialEq, Eq)]
pub enum WifiReply {
    /// A disconnect or connect request was carried out.
    Performed,
    /// Scan result: the SSIDs in scan order, `None` when the scan failed.
    Scanned(Option<Vec<String>>),
    /// Whether the namespace could be opened.
    Opened(bool),
    /// The stored password, if any.
    Password(Option<String>),
}

/// A [`WifiReply`] as a mathematical value.
pub enum WifiAns {
    Performed,
    Scanned(Option<Seq<Seq<char>>>),
    Opened(bool),
    Password(Option<Seq<char>>),
}

/// The SSIDs of a scan as mathematical strings.
pub open spec fn ssid_views(aps: Seq<String>) -> Seq<Seq<char>> {
    aps.map_values(|s: String| s@)
}

impl View for WifiReply {
    type V = WifiAns;

    open spec fn view(&self) -> WifiAns {
        match self {
            WifiReply::Performed => WifiAns::Performed,
            WifiReply::Scanned(Some(v)) => WifiAns::Scanned(Some(ssid_views(v@))),
            WifiReply::Scanned(None) => WifiAns::Scanned(None),
            WifiReply::Opened(b) => WifiAns::Opened(*b),
            WifiReply::Password(Some(p)) => WifiAns::Password(Some(p@)),
            WifiReply::Password(None) => WifiAns::Password(None),
        }
    }
}

/// Which request awaits its reply.
#[derive(Clone, Copy, PartialEq, Eq, Structural)]
pub enum WifiPhase {
    /// No auto-connect in progress.
    Idle,
    Disconnecting,
    Scanning,
    /// Opening the credential store for access point `i`.
    Opening(usize),
    /// Looking up the password of access point `i`.
    Looking(usize),
    /// Connecting to access point `i`.
    Connecting(usize),
}

/// The first access point at or after `i` with a non-empty SSID, or the
/// number of access points when there is none.
pub open spec fn first_candidate(aps: Seq<Seq<char>>, i: int) -> int
    decreases aps.len() - i,
{
    if i >= aps.len() {
        aps.len() as int
    } else if aps[i].len() > 0 {
        i
    } else {
        first_candidate(aps, i + 1)
    }
}

/// Go on with the first candidate at or after `i`, or finish without a
/// network.
pub open spec fn try_from(aps: Seq<Seq<char>>, i: int) -> (WifiPhase, WifiOp) {
    let j = first_candidate(aps, i);
    if j < aps.len() {
        (WifiPhase::Opening(j as usize), WifiOp::OpenNvs)
    } else {
        (WifiPhase::Idle, WifiOp::Done(None))
    }
}

/// One auto-connect step: phase and scan list before, reply; phase, scan
/// list, whether credentials were configured, and the next request.
pub open spec fn wifi_next(phase: WifiPhase, aps: Seq<Seq<char>>, configured: bool, reply: WifiAns) -> (
    WifiPhase,
    Seq<Seq<char>>,
    bool,
    WifiOp,
) {
    match phase {
        WifiPhase::Idle => (WifiPhase::Idle, aps, configured, WifiOp::Done(None)),
        WifiPhase::Disconnecting => (WifiPhase::Scanning, aps, configured, WifiOp::Scan),
        WifiPhase::Scanning => match reply {
            WifiAns::Scanned(Some(list)) => {
                let (p, op) = try_from(list, 0);
                (p, list, configured, op)
            },
            _ => (WifiPhase::Idle, aps, configured, WifiOp::Done(None)),
        },
        WifiPhase::Opening(i) => {
            if reply == WifiAns::Opened(true) {
                (WifiPhase::Looking(i), aps, configured, WifiOp::GetPassword(aps[i as int]))
            } else {
                let (p, op) = try_from(aps, i + 1);
                (p, aps, configured, op)
            }
        },
        WifiPhase::Looking(i) => match reply {
            WifiAns::Password(Some(pass)) => (
                WifiPhase::Connecting(i),
                aps,
                true,
                WifiOp::Connect { ssid: aps[i as int], password: pass },
            ),
            _ => {
                let (p, op) = try_from(aps, i + 1);
                (p, aps, configured, op)
            },
        },
        WifiPhase::Connecting(i) => (
            WifiPhase::Idle,
            aps,
            configured,
            WifiOp::Done(Some(aps[i as int])),
        ),
    }
}

/// The access point index of a phase is valid for the scan list.
pub open spec fn wifi_phase_ok(phase: WifiPhase, aps: Seq<Seq<char>>) -> bool {
    match phase {
        WifiPhase::Opening(i) => i < aps.len(),
        WifiPhase::Looking(i) => i < aps.len(),
        WifiPhase::Connecting(i) => i < aps.len(),
        _ => true,
    }
}

/// Station state: whether credentials are configured, and the progress of
/// an auto-connect.
pub struct Wifi {
    configured: bool,
    phase: WifiPhase,
    aps: Vec<String>,
}

impl Wifi {
    pub closed spec fn configured(&self) -> bool {
        self.configured
    }

    pub closed spec fn phase(&self) -> WifiPhase {
        self.phase
    }

    pub closed spec fn aps(&self) -> Seq<Seq<char>> {
        ssid_views(self.aps@)
    }

    pub closed spec fn wf(&self) -> bool {
        wifi_phase_ok(self.phase, self.aps())
    }

    /// A started station with nothing configured.
    pub fn new() -> (w: Self)
        ensures
            w.wf(),
            !w.configured(),
            w.phase() == WifiPhase::Idle,
    {
        Wifi { configured: false, phase: WifiPhase::Idle, aps: Vec::new() }
    }

    /// Forgets the configured credentials; the radio is disconnected by the
    /// caller.
    pub fn disconnect(&mut self)
        ensures
            !final(self).configured(),
            final(self).phase() == old(self).phase(),
            final(self).aps() == old(self).aps(),
    {
        self.configured = false;
    }

    /// Starts an auto-connect: the first request disconnects the station.
    pub fn auto_connect(&mut self) -> (req: WifiRequest)
        ensures
            final(self).wf(),
            !final(self).configured(),
            final(self).phase() == WifiPhase::Disconnecting,
            req@ == WifiOp::Disconnect,
    {
        self.disconnect();
        self.phase = WifiPhase::Disconnecting;
        WifiRequest::Disconnect
    }

    fn candidate_from(aps: &Vec<String>, i: usize) -> (j: usize)
        requires
            i <= aps@.len(),
        ensures
            j == first_candidate(ssid_views(aps@), i as int),
            j <= aps@.len(),
    {
        let mut j = i;
        while j < aps.len() && aps[j].as_str().is_empty()
            invariant
                i <= j <= aps@.len(),
                first_candidate(ssid_views(aps@), i as int) == first_candidate(
                    ssid_views(aps@),
                    j as int,
                ),
            decreases aps@.len() - j,
        {
            j = j + 1;
        }
        j
    }

    fn try_from(&mut self, i: usize) -> (req: WifiRequest)
        requires
            i <= old(self).aps@.len(),
        ensures
            final(self).aps() == old(self).aps(),
            final(self).configured() == old(self).configured(),
            (final(self).phase(), req@) == try_from(old(self).aps(), i as int),
            final(self).wf(),
    {
        let j = Self::candidate_from(&self.aps, i);
        if j < self.aps.len() {
            self.phase = WifiPhase::Opening(j);
            WifiRequest::OpenNvs
        } else {
            self.phase = WifiPhase::Idle;
            WifiRequest::Done(None)
        }
    }

    /// Takes the reply to the pending request and returns the next request.
    pub fn step(&mut self, reply: WifiReply) -> (req: WifiRequest)
        requires
            old(self).wf(),
        ensures
            final(self).wf(),
            (final(self).phase(), final(self).aps(), final(self).configured(), req@) == wifi_next(
                old(self).phase(),
                old(self).aps(),
                old(self).configured(),
                reply@,
            ),
    {
        assert(self.aps().len() == self.aps@.len());
        match self.phase {
            WifiPhase::Idle => WifiRequest::Done(None),
            WifiPhase::Disconnecting => {
                self.phase = WifiPhase::Scanning;
                WifiRequest::Scan
            },
            WifiPhase::Scanning => match reply {
                WifiReply::Scanned(Some(list)) => {
                    self.aps = list;
                    self.try_from(0)
                },
                _ => {
                    self.phase = WifiPhase::Idle;
                    WifiRequest::Done(None)
                },
            },
            WifiPhase::Opening(i) => {
                let len = self.aps.len();
                assert(i < len);
                let opened = match reply {
                    WifiReply::Opened(true) => true,
                    _ => false,
                };
                if opened {
                    self.phase = WifiPhase::Looking(i);
                    WifiRequest::GetPassword(self.aps[i].clone())
                } else {
                    {
                        let next = i + 1;
                        self.try_from(next)
                    }
                }
            },
            WifiPhase::Looking(i) => {
                let len = self.aps.len();
                assert(i < len);
                match reply {
                WifiReply::Password(Some(pass)) => {
                    self.phase = WifiPhase::Connecting(i);
                    self.configured = true;
                    WifiRequest::Connect { ssid: self.aps[i].clone(), password: pass }
                },
                _ => {
                        let next = i + 1;
                        self.try_from(next)
                    },
            }
            },
            WifiPhase::Connecting(i) => {
                let ssid = self.aps[i].clone();
                self.phase = WifiPhase::Idle;
                WifiRequest::Done(Some(ssid))
            },
        }
    }
}

/// A connection is only started to the access point being looked at, after
/// the store returned a password for its SSID, with that password; that
/// SSID is not empty; and the SSID reported at the end is the one being
/// connected to.
pub proof fn lemma_connect_only_with_stored_password(
    phase: WifiPhase,
    aps: Seq<Seq<char>>,
    configured: bool,
    reply: WifiAns,
)
    requires
        wifi_phase_ok(phase, aps),
        phase matches WifiPhase::Opening(i) ==> aps[i as int].len() > 0,
        phase matches WifiPhase::Looking(i) ==> aps[i as int].len() > 0,
        phase matches WifiPhase::Connecting(i) ==> aps[i as int].len() > 0,
    ensures
        ({
            let (next, list, conf, op) = wifi_next(phase, aps, configured, reply);
            &&& op matches WifiOp::Connect { ssid, password } ==> (phase matches WifiPhase::Looking(
                i,
            ) && reply == WifiAns::Password(Some(password)) && ssid == aps[i as int] && ssid.len()
                > 0 && conf)
            &&& op matches WifiOp::Done(Some(s)) ==> (phase matches WifiPhase::Connecting(i) && s
                == aps[i as int])
        }),
{
}

/// The walk goes forward in scan order: from access point `i` the next one
/// opened comes after it, so the first access point with a stored password
/// is the one connected to.
pub proof fn lemma_scan_order(phase: WifiPhase, aps: Seq<Seq<char>>, configured: bool, reply: WifiAns)
    requires
        wifi_phase_ok(phase, aps),
        aps.len() <= usize::MAX,
    ensures
        ({
            let next = wifi_next(phase, aps, configured, reply).0;
            &&& phase matches WifiPhase::Opening(i) ==> (next matches WifiPhase::Opening(j) ==> j > i)
            &&& phase matches WifiPhase::Looking(i) ==> (next matches WifiPhase::Opening(j) ==> j > i)
        }),
{
    match phase {
        WifiPhase::Opening(i) => {
            lemma_skip_only_hidden(aps, i + 1);
        },
        WifiPhase::Looking(i) => {
            lemma_skip_only_hidden(aps, i + 1);
        },
        _ => {},
    }
}

/// Hidden access points (empty SSID) are never looked up: every access
/// point the walk stops at has a non-empty SSID, and none between the start
/// and it has been skipped except hidden ones.
pub proof fn lemma_skip_only_hidden(aps: Seq<Seq<char>>, i: int)
    requires
        0 <= i <= aps.len(),
    ensures
        i <= first_candidate(aps, i) <= aps.len(),
        first_candidate(aps, i) < aps.len() ==> aps[first_candidate(aps, i)].len() > 0,
        forall|k: int| i <= k < first_candidate(aps, i) ==> aps[k].len() == 0,
    decreases aps.len() - i,
{
    if i < aps.len() && aps[i].len() == 0 {
        lemma_skip_only_hidden(aps, i + 1);
    }
}

/// What the status line shows of the station, as kept between button
/// presses.
#[derive(Debug, PartialEq, Eq)]
pub enum LinkStatus {
    /// No connection wanted.
    Idle,
    /// Connecting, or connected, to this network.
    Joined(String),
    /// The last auto-connect found no known network.
    NoNetwork,
}

/// A [`LinkStatus`] as a mathematical value.
pub enum LinkView {
    Idle,
    Joined(Seq<char>),
    NoNetwork,
}

impl View for LinkStatus {
    type V = LinkView;

    open spec fn view(&self) -> LinkView {
        match self {
            LinkStatus::Idle => LinkView::Idle,
            LinkStatus::Joined(s) => LinkView::Joined(s@),
            LinkStatus::NoNetwork => LinkView::NoNetwork,
        }
    }
}

/// What a press of the Wi-Fi button asks of the radio.
#[derive(Debug, Clone, Copy, PartialEq, Eq, Structural)]
pub enum LinkAction {
    /// Run an auto-connect ([`Wifi::auto_connect`]) and report its result.
    AutoConnect,
    /// Disconnect the station.
    Disconnect,
}

/// The status line text, to be written out by the display layer.
#[derive(Debug, PartialEq, Eq)]
pub enum LinkText {
    /// "wifi ready"
    Ready,
    /// "connecting" and the network.
    Connecting(String),
    /// The IP address and the network.
    Online(String),
    /// "no known network"
    NoNetwork,
}

/// A [`LinkText`] as a mathematical value.
pub enum LinkTextView {
    Ready,
    Connecting(Seq<char>),
    Online(Seq<char>),
    NoNetwork,
}

impl View for LinkText {
    type V = LinkTextView;

    open spec fn view(&self) -> LinkTextView {
        match self {
            LinkText::Ready => LinkTextView::Ready,
            LinkText::Connecting(s) => LinkTextView::Connecting(s@),
            LinkText::Online(s) => LinkTextView::Online(s@),
            LinkText::NoNetwork => LinkTextView::NoNetwork,
        }
    }
}

/// The action of a button press in each status: a joined network is left,
/// otherwise an auto-connect starts.
pub open spec fn link_action(status: LinkView) -> LinkAction {
    match status {
        LinkView::Joined(_) => LinkAction::Disconnect,
        _ => LinkAction::AutoConnect,
    }
}

/// The status line for a status, given whether the station holds an IP
/// address (an unspecified address counts as none).
pub open spec fn link_text(status: LinkView, has_ip: bool) -> LinkTextView {
    match status {
        LinkView::Idle => LinkTextView::Ready,
        LinkView::Joined(s) => if has_ip {
            LinkTextView::Online(s)
        } else {
            LinkTextView::Connecting(s)
        },
        LinkView::NoNetwork => LinkTextView::NoNetwork,
    }
}

/// The station as the Wi-Fi button drives it.
pub struct WifiLink {
    status: LinkStatus,
}

impl WifiLink {
    pub closed spec fn status(&self) -> LinkView {
        self.status@
    }

    /// Nothing joined yet.
    pub fn new() -> (l: Self)
        ensures
            l.status() == LinkView::Idle,
    {
        WifiLink { status: LinkStatus::Idle }
    }

    /// A press of the Wi-Fi button: leaving a joined network returns to
    /// idle at once; otherwise the status waits for [`WifiLink::joined`].
    pub fn press(&mut self) -> (act: LinkAction)
        ensures
            act == link_action(old(self).status()),
            act == LinkAction::Disconnect ==> final(self).status() == LinkView::Idle,
            act == LinkAction::AutoConnect ==> final(self).status() == old(self).status(),
    {
        match self.status {
            LinkStatus::Joined(_) => {
                self.status = LinkStatus::Idle;
                LinkAction::Disconnect
            },
            _ => LinkAction::AutoConnect,
        }
    }

    /// The result of an auto-connect: the network being joined, if any.
    pub fn joined(&mut self, ssid: Option<String>)
        ensures
            final(self).status() == (match ssid {
                Some(s) => LinkView::Joined(s@),
                None => LinkView::NoNetwork,
            }),
    {
        self.status = match ssid {
            Some(s) => LinkStatus::Joined(s),
            None => LinkStatus::NoNetwork,
        };
    }

    /// The status line, given whether the station holds an IP address.
    pub fn text(&self, has_ip: bool) -> (t: LinkText)
        ensures
            t@ == link_text(self.status(), has_ip),
    {
        match &self.status {
            LinkStatus::Idle => LinkText::Ready,
            LinkStatus::Joined(s) => if has_ip {
                LinkText::Online(s.clone())
            } else {
                LinkText::Connecting(s.clone())
            },
            LinkStatus::NoNetwork => LinkText::NoNetwork,
        }
    }
}

} // verus!
