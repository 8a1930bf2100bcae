//! First-boot provisioning of the non-volatile store.
//!
//! The firmware carries a list of (namespace, key, value) entries, embedded
//! at build time. On boot each entry is written to the NVS store, but only
//! when its key is not there yet, so that values changed later on the
//! device are kept; an entry of any type under the key (integer, blob or
//! string) counts as present. An entry whose namespace cannot be opened, or
//! whose write fails, is skipped.
//!
//! The NVS store is driven by the hardware layer: [`apply`] and
//! [`Provision::step`] return the next [`NvsRequest`] and take the
//! [`NvsReply`] to it.

use vstd::prelude::*;

verus! {

/// One provisioning entry.
#[derive(Debug, PartialEq, Eq)]
pub struct ProvisionEntry {
    pub namespace: String,
    pub key: String,
    pub value: String,
}

/// An entry as mathematical strings.
pub struct EntryView {
    pub namespace: Seq<char>,
    pub key: Seq<char>,
    pub value: Seq<char>,
}

impl View for ProvisionEntry {
    type V = EntryView;

    open spec fn view(&self) -> EntryView {
        EntryView { namespace: self.namespace@, key: self.key@, value: self.value@ }
    }
}

/// A request to the NVS layer.
#[derive(Debug, PartialEq, Eq)]
pub enum NvsRequest {
    /// Open `namespace` read-write (closing the handle opened before).
    Open(String),
    /// Tell whether any entry, of any type, is stored under `key` in the
    /// open namespace.
    KeyExists(String),
    /// Store `value` under `key` in the open namespace and commit.
    SetStr(String, String),
    /// Provisioning is over; the number of entries written.
    Done(u32),
}

/// An [`NvsRequest`] as a mathematical value.
pub enum NvsOp {
    Open(Seq<char>),
    KeyExists(Seq<char>),
    SetStr(Seq<char>, Seq<char>),
    Done(u32),
}

impl View for NvsRequest {
    type V = NvsOp;

    open spec fn view(&self) -> NvsOp {
        match self {
            NvsRequest::Open(n) => NvsOp::Open(n@),
            NvsRequest::KeyExists(k) => NvsOp::KeyExists(k@),
            NvsRequest::SetStr(k, v) => NvsOp::SetStr(k@, v@),
            NvsRequest::Done(c) => NvsOp::Done(*c),
        }
    }
}

/// The answer of the NVS layer to the pending request.
#[derive(Debug, Clone, Copy, PartialEq, Eq, Structural)]
pub enum NvsReply {
    /// Whether the namespace could be opened.
    Opened(bool),
    /// Whether an entry of any type is stored under the key.
    Found(bool),
    /// Whether the write and commit succeeded.
    Stored(bool),
}

/// Which request of which entry awaits its reply.
#[derive(Clone, Copy, PartialEq, Eq, Structural)]
pub enum ProvisionPhase {
    Open(usize),
    Lookup(usize),
    Write(usize),
    Finished,
}

/// The first request for entry `i`, or the end after the last entry.
pub open spec fn entry_start(entries: Seq<EntryView>, i: int, count: int) -> (ProvisionPhase, NvsOp) {
    if i < entries.len() {
        (ProvisionPhase::Open(i as usize), NvsOp::Open(entries[i].namespace))
    } else {
        (ProvisionPhase::Finished, NvsOp::Done(count as u32))
    }
}

/// One provisioning step: phase and count before, reply to the pending
/// request; phase and count after, next request.
pub open spec fn provision_next(
    entries: Seq<EntryView>,
    phase: ProvisionPhase,
    count: int,
    reply: NvsReply,
) -> (ProvisionPhase, int, NvsOp) {
    match phase {
        ProvisionPhase::Open(i) => {
            if reply == NvsReply::Opened(true) {
                (ProvisionPhase::Lookup(i), count, NvsOp::KeyExists(entries[i as int].key))
            } else {
                let (p, op) = entry_start(entries, i + 1, count);
                (p, count, op)
            }
        },
        ProvisionPhase::Lookup(i) => {
            if reply == NvsReply::Found(false) {
                (
                    ProvisionPhase::Write(i),
                    count,
                    NvsOp::SetStr(entries[i as int].key, entries[i as int].value),
                )
            } else {
                let (p, op) = entry_start(entries, i + 1, count);
                (p, count, op)
            }
        },
        ProvisionPhase::Write(i) => {
            let c = if reply == NvsReply::Stored(true) {
                count + 1
            } else {
                count
            };
            let (p, op) = entry_start(entries, i + 1, c);
            (p, c, op)
        },
        ProvisionPhase::Finished => (ProvisionPhase::Finished, count, NvsOp::Done(count as u32)),
    }
}

/// Index of the entry being handled (the number of entries once done).
pub open spec fn phase_entry(phase: ProvisionPhase, len: int) -> int {
    match phase {
        ProvisionPhase::Open(i) => i as int,
        ProvisionPhase::Lookup(i) => i as int,
        ProvisionPhase::Write(i) => i as int,
        ProvisionPhase::Finished => len,
    }
}

/// Progress of provisioning.
pub struct Provision {
    entries: Vec<ProvisionEntry>,
    phase: ProvisionPhase,
    count: u32,
}

impl Provision {
    pub closed spec fn entries(&self) -> Seq<EntryView> {
        self.entries@.map_values(|e: ProvisionEntry| e@)
    }

    pub closed spec fn phase(&self) -> ProvisionPhase {
        self.phase
    }

    /// Entries written so far.
    pub closed spec fn count(&self) -> int {
        self.count as int
    }

    pub closed spec fn wf(&self) -> bool {
        &&& self.entries@.len() <= u32::MAX
        &&& self.count <= phase_entry(self.phase, self.entries@.len() as int)
        &&& phase_entry(self.phase, self.entries@.len() as int) <= self.entries@.len()
        &&& (self.phase !is Finished ==> phase_entry(self.phase, self.entries@.len() as int)
            < self.entries@.len())
    }

    fn request_for(&self, i: usize) -> (r: (ProvisionPhase, NvsRequest))
        requires
            self.entries@.len() <= u32::MAX,
            self.count <= i <= self.entries@.len(),
        ensures
            (r.0, r.1@) == entry_start(self.entries(), i as int, self.count as int),
    {
        if i < self.entries.len() {
            (ProvisionPhase::Open(i), NvsRequest::Open(self.entries[i].namespace.clone()))
        } else {
            (ProvisionPhase::Finished, NvsRequest::Done(self.count))
        }
    }

    /// Takes the reply to the pending request and returns the next request.
    pub fn step(&mut self, reply: NvsReply) -> (req: NvsRequest)
        requires
            old(self).wf(),
        ensures
            final(self).wf(),
            final(self).entries() == old(self).entries(),
            (final(self).phase(), final(self).count(), req@) == provision_next(
                old(self).entries(),
                old(self).phase(),
                old(self).count(),
                reply,
            ),
    {
        match self.phase {
            ProvisionPhase::Open(i) => {
                if reply == NvsReply::Opened(true) {
                    self.phase = ProvisionPhase::Lookup(i);
                    NvsRequest::KeyExists(self.entries[i].key.clone())
                } else {
                    let (p, r) = self.request_for(i + 1);
                    self.phase = p;
                    r
                }
            },
            ProvisionPhase::Lookup(i) => {
                if reply == NvsReply::Found(false) {
                    self.phase = ProvisionPhase::Write(i);
                    NvsRequest::SetStr(
                        self.entries[i].key.clone(),
                        self.entries[i].value.clone(),
                    )
                } else {
                    let (p, r) = self.request_for(i + 1);
                    self.phase = p;
                    r
                }
            },
            ProvisionPhase::Write(i) => {
                if reply == NvsReply::Stored(true) {
                    self.count = self.count + 1;
                }
                let (p, r) = self.request_for(i + 1);
                self.phase = p;
                r
            },
            ProvisionPhase::Finished => NvsRequest::Done(self.count),
        }
    }
}

/// Starts provisioning with the embedded entries: the first request opens
/// the namespace of the first entry; with no entries provisioning is over at
/// once, with nothing written.
pub fn apply(data: Vec<ProvisionEntry>) -> (res: (Provision, NvsRequest))
    requires
        data@.len() <= u32::MAX,
    ensures
        res.0.wf(),
        res.0.entries() == data@.map_values(|e: ProvisionEntry| e@),
        res.0.count() == 0,
        (res.0.phase(), res.1@) == entry_start(res.0.entries(), 0, 0),
{
    let p = Provision { entries: data, phase: ProvisionPhase::Finished, count: 0 };
    let (phase, req) = p.request_for(0);
    (Provision { phase, ..p }, req)
}

/// A value is written only for the entry being handled, only after the
/// store reported its key absent, and the count grows by one exactly when a
/// write succeeded.
pub proof fn lemma_write_only_when_absent(
    entries: Seq<EntryView>,
    phase: ProvisionPhase,
    count: int,
    reply: NvsReply,
)
    requires
        phase_entry(phase, entries.len() as int) < entries.len() || phase is Finished,
    ensures
        ({
            let (next, c, op) = provision_next(entries, phase, count, reply);
            &&& op is SetStr ==> (phase matches ProvisionPhase::Lookup(i) && reply == NvsReply::Found(
                false,
            ) && op == NvsOp::SetStr(entries[i as int].key, entries[i as int].value))
            &&& c == count + (if phase is Write && reply == NvsReply::Stored(true) {
                1int
            } else {
                0int
            })
        }),
{
}

/// The place of an entry in the store: its namespace and key.
pub open spec fn entry_key(e: EntryView) -> (Seq<char>, Seq<char>) {
    (e.namespace, e.key)
}

/// What provisioning does to a store on which every operation succeeds,
/// from entry `i` on: each entry is written when its place holds nothing.
/// The store maps each occupied place to its value (for entries of other
/// types, any value).
pub open spec fn provision_from(
    entries: Seq<EntryView>,
    i: int,
    store: Map<(Seq<char>, Seq<char>), Seq<char>>,
    count: int,
) -> (Map<(Seq<char>, Seq<char>), Seq<char>>, int)
    decreases entries.len() - i,
{
    if i >= entries.len() {
        (store, count)
    } else if store.contains_key(entry_key(entries[i])) {
        provision_from(entries, i + 1, store, count)
    } else {
        provision_from(
            entries,
            i + 1,
            store.insert(entry_key(entries[i]), entries[i].value),
            count + 1,
        )
    }
}

/// Runs the step relation for at most `fuel` steps against a store on
/// which every operation succeeds (opens succeed, lookups answer whether
/// the place is occupied, writes store the value): the final store and
/// count, and whether provisioning finished.
pub open spec fn drive(
    entries: Seq<EntryView>,
    phase: ProvisionPhase,
    count: int,
    store: Map<(Seq<char>, Seq<char>), Seq<char>>,
    fuel: nat,
) -> (Map<(Seq<char>, Seq<char>), Seq<char>>, int, bool)
    decreases fuel,
{
    if phase is Finished {
        (store, count, true)
    } else if fuel == 0 {
        (store, count, false)
    } else {
        match phase {
            ProvisionPhase::Open(i) => {
                let (p, c, _) = provision_next(entries, phase, count, NvsReply::Opened(true));
                drive(entries, p, c, store, (fuel - 1) as nat)
            },
            ProvisionPhase::Lookup(i) => {
                let found = store.contains_key(entry_key(entries[i as int]));
                let (p, c, _) = provision_next(entries, phase, count, NvsReply::Found(found));
                drive(entries, p, c, store, (fuel - 1) as nat)
            },
            ProvisionPhase::Write(i) => {
                let (p, c, _) = provision_next(entries, phase, count, NvsReply::Stored(true));
                drive(
                    entries,
                    p,
                    c,
                    store.insert(entry_key(entries[i as int]), entries[i as int].value),
                    (fuel - 1) as nat,
                )
            },
            ProvisionPhase::Finished => (store, count, true),
        }
    }
}

/// A whole provisioning run, from `apply`, against a store on which every
/// operation succeeds (three steps per entry are enough).
pub open spec fn run_outcome(
    entries: Seq<EntryView>,
    store: Map<(Seq<char>, Seq<char>), Seq<char>>,
) -> (Map<(Seq<char>, Seq<char>), Seq<char>>, int, bool) {
    drive(entries, entry_start(entries, 0, 0).0, 0, store, (3 * entries.len() + 1) as nat)
}

proof fn lemma_drive(
    entries: Seq<EntryView>,
    i: int,
    store: Map<(Seq<char>, Seq<char>), Seq<char>>,
    count: int,
    fuel: nat,
)
    requires
        0 <= i <= entries.len(),
        entries.len() <= u32::MAX,
        fuel >= 3 * (entries.len() - i) + 1,
    ensures
        drive(entries, entry_start(entries, i, count).0, count, store, fuel) == (
            provision_from(entries, i, store, count).0,
            provision_from(entries, i, store, count).1,
            true,
        ),
    decreases entries.len() - i,
{
    if i < entries.len() {
        let k = entry_key(entries[i]);
        let p0 = ProvisionPhase::Open(i as usize);
        assert(entry_start(entries, i, count).0 == p0);
        let p1 = ProvisionPhase::Lookup(i as usize);
        assert(provision_next(entries, p0, count, NvsReply::Opened(true)).0 == p1);
        assert(drive(entries, p0, count, store, fuel) == drive(
            entries,
            p1,
            count,
            store,
            (fuel - 1) as nat,
        ));
        if store.contains_key(k) {
            assert(provision_next(entries, p1, count, NvsReply::Found(true)).0 == entry_start(
                entries,
                i + 1,
                count,
            ).0);
            assert(drive(entries, p1, count, store, (fuel - 1) as nat) == drive(
                entries,
                entry_start(entries, i + 1, count).0,
                count,
                store,
                (fuel - 2) as nat,
            ));
            lemma_drive(entries, i + 1, store, count, (fuel - 2) as nat);
        } else {
            let p2 = ProvisionPhase::Write(i as usize);
            assert(provision_next(entries, p1, count, NvsReply::Found(false)).0 == p2);
            assert(drive(entries, p1, count, store, (fuel - 1) as nat) == drive(
                entries,
                p2,
                count,
                store,
                (fuel - 2) as nat,
            ));
            let s2 = store.insert(k, entries[i].value);
            assert(provision_next(entries, p2, count, NvsReply::Stored(true)).0 == entry_start(
                entries,
                i + 1,
                count + 1,
            ).0);
            assert(drive(entries, p2, count, store, (fuel - 2) as nat) == drive(
                entries,
                entry_start(entries, i + 1, count + 1).0,
                count + 1,
                s2,
                (fuel - 3) as nat,
            ));
            lemma_drive(entries, i + 1, s2, count + 1, (fuel - 3) as nat);
        }
    }
}

/// Provisioning keeps what the store held and leaves every entry's place
/// occupied.
proof fn lemma_provision_from_fills(
    entries: Seq<EntryView>,
    i: int,
    store: Map<(Seq<char>, Seq<char>), Seq<char>>,
    count: int,
)
    requires
        0 <= i,
    ensures
        forall|k| #[trigger]
            store.contains_key(k) ==> provision_from(entries, i, store, count).0.contains_key(k)
                && provision_from(entries, i, store, count).0[k] == store[k],
        forall|j: int|
            i <= j < entries.len() ==> provision_from(entries, i, store, count).0.contains_key(
                #[trigger] entry_key(entries[j]),
            ),
    decreases entries.len() - i,
{
    if i < entries.len() {
        let k = entry_key(entries[i]);
        if store.contains_key(k) {
            lemma_provision_from_fills(entries, i + 1, store, count);
        } else {
            let s2 = store.insert(k, entries[i].value);
            lemma_provision_from_fills(entries, i + 1, s2, count + 1);
            assert forall|k2| #[trigger] store.contains_key(k2) implies s2.contains_key(k2)
                && s2[k2] == store[k2] by {
                assert(k2 != k);
            }
            assert(s2.contains_key(k));
        }
    }
}

/// When every entry's place is occupied, provisioning changes nothing.
proof fn lemma_provision_from_idle(
    entries: Seq<EntryView>,
    i: int,
    store: Map<(Seq<char>, Seq<char>), Seq<char>>,
    count: int,
)
    requires
        0 <= i,
        forall|j: int| i <= j < entries.len() ==> store.contains_key(#[trigger] entry_key(entries[j])),
    ensures
        provision_from(entries, i, store, count) == (store, count),
    decreases entries.len() - i,
{
    if i < entries.len() {
        lemma_provision_from_idle(entries, i + 1, store, count);
    }
}

/// A whole run against a store on which every operation succeeds finishes,
/// writes exactly the entries whose place was empty (the count says how
/// many), keeps every value that was already stored, whatever its type, and
/// a second run over the resulting store writes nothing and changes
/// nothing.
pub proof fn lemma_provisioning_idempotent(
    entries: Seq<EntryView>,
    store: Map<(Seq<char>, Seq<char>), Seq<char>>,
)
    requires
        entries.len() <= u32::MAX,
    ensures
        ({
            let (s1, c1, done1) = run_outcome(entries, store);
            &&& done1
            &&& (s1, c1) == provision_from(entries, 0, store, 0)
            &&& forall|k| #[trigger] store.contains_key(k) ==> s1.contains_key(k) && s1[k] == store[k]
            &&& run_outcome(entries, s1) == (s1, 0int, true)
        }),
{
    lemma_drive(entries, 0, store, 0, (3 * entries.len() + 1) as nat);
    let s1 = provision_from(entries, 0, store, 0).0;
    lemma_provision_from_fills(entries, 0, store, 0);
    lemma_drive(entries, 0, s1, 0, (3 * entries.len() + 1) as nat);
    lemma_provision_from_idle(entries, 0, s1, 0);
}

} // verus!
