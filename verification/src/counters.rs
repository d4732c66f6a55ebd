//! Control kinds and the byte and message counters of one topic in one direction.
use crate::sums::{lemma_seq_sum_prefix, lemma_seq_sum_take, seq_sum};
use vstd::prelude::*;

verus! {

/// The class of a gossipsub control message, for the control-vs-data split.
#[derive(Debug, Clone, Copy, PartialEq, Eq, Hash, Structural)]
pub enum ControlKind {
    /// IHAVE: advertises message ids we hold on a topic.
    IHave,
    /// IWANT: requests message ids advertised to us.
    IWant,
    /// GRAFT: asks to be added to a peer's mesh for a topic.
    Graft,
    /// PRUNE: asks to be removed from a peer's mesh for a topic.
    Prune,
    /// IDONTWANT: asks a peer not to forward message ids we already have.
    IDontWant,
    /// Topic subscribe and unsubscribe announcements.
    Subscription,
    /// The gossipsub extension handshake. Never carries a topic.
    Extensions,
}

impl ControlKind {
    /// Number of distinct control kinds; the width of the per-kind arrays.
    pub const COUNT: usize = 7;

    /// All kinds, in index order.
    pub const ALL: [ControlKind; Self::COUNT] = [
        ControlKind::IHave,
        ControlKind::IWant,
        ControlKind::Graft,
        ControlKind::Prune,
        ControlKind::IDontWant,
        ControlKind::Subscription,
        ControlKind::Extensions,
    ];

    /// The place of this kind among all kinds.
    pub open spec fn position(self) -> int {
        match self {
            ControlKind::IHave => 0,
            ControlKind::IWant => 1,
            ControlKind::Graft => 2,
            ControlKind::Prune => 3,
            ControlKind::IDontWant => 4,
            ControlKind::Subscription => 5,
            ControlKind::Extensions => 6,
        }
    }

    /// Indexing numbers the kinds from zero without gaps: the kind at each index has
    /// that index, and every kind is found at its own.
    pub proof fn lemma_all_in_order()
        ensures
            Self::ALL@.len() == Self::COUNT,
            forall|i: int| 0 <= i < Self::COUNT ==> (#[trigger] Self::ALL@[i]).position() == i,
            forall|kind: ControlKind|
                0 <= #[trigger] kind.position() < Self::COUNT && Self::ALL@[kind.position()]
                    == kind,
    {
        let all = Self::ALL;
        assert(all@[0] == ControlKind::IHave);
        assert(all@[1] == ControlKind::IWant);
        assert(all@[2] == ControlKind::Graft);
        assert(all@[3] == ControlKind::Prune);
        assert(all@[4] == ControlKind::IDontWant);
        assert(all@[5] == ControlKind::Subscription);
        assert(all@[6] == ControlKind::Extensions);
    }

    /// Dense index of this kind, used to address the per-kind arrays.
    pub fn index(self) -> (i: usize)
        ensures
            i == self.position(),
            i < Self::COUNT,
            Self::ALL@[i as int] == self,
    {
        proof {
            Self::lemma_all_in_order();
        }
        match self {
            ControlKind::IHave => 0,
            ControlKind::IWant => 1,
            ControlKind::Graft => 2,
            ControlKind::Prune => 3,
            ControlKind::IDontWant => 4,
            ControlKind::Subscription => 5,
            ControlKind::Extensions => 6,
        }
    }

    /// The lowercase name of this kind.
    pub open spec fn label(self) -> Seq<char> {
        match self {
            ControlKind::IHave => "ihave"@,
            ControlKind::IWant => "iwant"@,
            ControlKind::Graft => "graft"@,
            ControlKind::Prune => "prune"@,
            ControlKind::IDontWant => "idontwant"@,
            ControlKind::Subscription => "subscription"@,
            ControlKind::Extensions => "extensions"@,
        }
    }

    /// Lowercase name, for log and metric labels.
    pub fn as_str(self) -> (label: &'static str)
        ensures
            label@ == self.label(),
    {
        match self {
            ControlKind::IHave => "ihave",
            ControlKind::IWant => "iwant",
            ControlKind::Graft => "graft",
            ControlKind::Prune => "prune",
            ControlKind::IDontWant => "idontwant",
            ControlKind::Subscription => "subscription",
            ControlKind::Extensions => "extensions",
        }
    }
}

/// One of the counters of a [`TrafficCounters`].
pub enum Counter {
    DataBytes,
    DataMsgs,
    MetaBytes,
    MetaMsgs,
    ControlBytes(ControlKind),
    ControlMsgs(ControlKind),
}

/// Byte and message counters for one topic in one direction.
///
/// "Data" is application payload: the body of a published message, or the cell
/// body of a partial message. "Meta" is partial-message metadata (the
/// available/requested bitmaps and headers): carried on a data topic but not
/// itself application payload, so it is kept separate and counted as overhead.
#[derive(Debug, Clone, Copy)]
pub struct TrafficCounters {
    /// Published-message payload bytes plus partial-message body bytes.
    pub data_bytes: u64,
    /// Number of RPCs contributing to `data_bytes`.
    pub data_msgs: u64,
    /// Partial-message metadata bytes (bitmaps, headers).
    pub meta_bytes: u64,
    /// Number of RPCs contributing to `meta_bytes`.
    pub meta_msgs: u64,
    /// Control bytes, indexed by [`ControlKind::index`].
    pub control_bytes: [u64; ControlKind::COUNT],
    /// Control message counts, indexed by [`ControlKind::index`].
    pub control_msgs: [u64; ControlKind::COUNT],
}

/// The contents of a [`TrafficCounters`].
#[verifier::ext_equal]
pub struct CountersView {
    pub data_bytes: u64,
    pub data_msgs: u64,
    pub meta_bytes: u64,
    pub meta_msgs: u64,
    pub control_bytes: Seq<u64>,
    pub control_msgs: Seq<u64>,
}

impl View for TrafficCounters {
    type V = CountersView;

    open spec fn view(&self) -> CountersView {
        CountersView {
            data_bytes: self.data_bytes,
            data_msgs: self.data_msgs,
            meta_bytes: self.meta_bytes,
            meta_msgs: self.meta_msgs,
            control_bytes: self.control_bytes@,
            control_msgs: self.control_msgs@,
        }
    }
}

/// The largest count that a counter can hold, if the given count is larger.
pub open spec fn capped(count: nat) -> u64 {
    if count > u64::MAX {
        u64::MAX
    } else {
        count as u64
    }
}

/// A counter after a count has been added to it.
pub open spec fn raised(counter: u64, count: nat) -> u64 {
    capped(counter as nat + count)
}

/// A counter after a count has been taken from it.
pub open spec fn lowered(counter: u64, count: nat) -> u64 {
    if counter < count {
        0
    } else {
        (counter - count) as u64
    }
}

/// What a counter contributes to a sum of counters.
pub open spec fn amount() -> spec_fn(u64) -> nat {
    |counter: u64| counter as nat
}

impl CountersView {
    /// There is one counter for each control kind.
    pub open spec fn valid(self) -> bool {
        &&& self.control_bytes.len() == ControlKind::COUNT
        &&& self.control_msgs.len() == ControlKind::COUNT
    }

    /// All counters at zero.
    pub open spec fn zero() -> CountersView {
        CountersView {
            data_bytes: 0,
            data_msgs: 0,
            meta_bytes: 0,
            meta_msgs: 0,
            control_bytes: Seq::new(ControlKind::COUNT as nat, |i: int| 0u64),
            control_msgs: Seq::new(ControlKind::COUNT as nat, |i: int| 0u64),
        }
    }

    /// The value of one counter.
    pub open spec fn get(self, counter: Counter) -> u64 {
        match counter {
            Counter::DataBytes => self.data_bytes,
            Counter::DataMsgs => self.data_msgs,
            Counter::MetaBytes => self.meta_bytes,
            Counter::MetaMsgs => self.meta_msgs,
            Counter::ControlBytes(kind) => self.control_bytes[kind.position()],
            Counter::ControlMsgs(kind) => self.control_msgs[kind.position()],
        }
    }

    /// The counters after a message of so many bytes of payload.
    pub open spec fn add_data(self, bytes: nat) -> CountersView {
        CountersView {
            data_bytes: raised(self.data_bytes, bytes),
            data_msgs: raised(self.data_msgs, 1),
            ..self
        }
    }

    /// The counters once a message of so many bytes of payload is taken back.
    pub open spec fn sub_data(self, bytes: nat) -> CountersView {
        CountersView {
            data_bytes: lowered(self.data_bytes, bytes),
            data_msgs: lowered(self.data_msgs, 1),
            ..self
        }
    }

    /// The counters after so many bytes of partial-message metadata.
    pub open spec fn add_meta(self, bytes: nat) -> CountersView {
        CountersView {
            meta_bytes: raised(self.meta_bytes, bytes),
            meta_msgs: raised(self.meta_msgs, 1),
            ..self
        }
    }

    /// The counters after a control message of so many bytes.
    pub open spec fn add_control(self, kind: ControlKind, bytes: nat) -> CountersView {
        let i = kind.position();
        CountersView {
            control_bytes: self.control_bytes.update(i, raised(self.control_bytes[i], bytes)),
            control_msgs: self.control_msgs.update(i, raised(self.control_msgs[i], 1)),
            ..self
        }
    }

    /// The counters after so many control messages of so many bytes together.
    pub open spec fn add_controls(self, kind: ControlKind, bytes: nat, msgs: nat) -> CountersView {
        let i = kind.position();
        CountersView {
            control_bytes: self.control_bytes.update(i, raised(self.control_bytes[i], bytes)),
            control_msgs: self.control_msgs.update(i, raised(self.control_msgs[i], msgs)),
            ..self
        }
    }

    /// Control bytes across all kinds.
    pub open spec fn control_bytes_sum(self) -> nat {
        seq_sum(self.control_bytes, amount())
    }

    /// Control messages across all kinds.
    pub open spec fn control_msgs_sum(self) -> nat {
        seq_sum(self.control_msgs, amount())
    }

    /// Payload, partial metadata and control bytes together.
    pub open spec fn bytes_sum(self) -> nat {
        self.data_bytes as nat + self.meta_bytes as nat + self.control_bytes_sum()
    }
}

impl Default for TrafficCounters {
    fn default() -> (counters: Self)
        ensures
            counters@ == CountersView::zero(),
    {
        let counters = TrafficCounters {
            data_bytes: 0,
            data_msgs: 0,
            meta_bytes: 0,
            meta_msgs: 0,
            control_bytes: [0; ControlKind::COUNT],
            control_msgs: [0; ControlKind::COUNT],
        };
        assert(counters@ =~= CountersView::zero());
        counters
    }
}

/// The sum of an array of counters.
fn counters_total(counters: &[u64; ControlKind::COUNT]) -> (total: u64)
    requires
        seq_sum(counters@, amount()) <= u64::MAX,
    ensures
        total == seq_sum(counters@, amount()),
{
    let mut total: u64 = 0;
    let mut i: usize = 0;
    while i < ControlKind::COUNT
        invariant
            i <= ControlKind::COUNT,
            counters@.len() == ControlKind::COUNT,
            seq_sum(counters@, amount()) <= u64::MAX,
            total == seq_sum(counters@.take(i as int), amount()),
        decreases ControlKind::COUNT - i,
    {
        proof {
            lemma_seq_sum_take(counters@, i as int, amount());
            lemma_seq_sum_prefix(counters@, i + 1, amount());
        }
        total = total + counters[i];
        i = i + 1;
    }
    assert(counters@.take(i as int) =~= counters@);
    total
}

impl TrafficCounters {
    /// Adds `bytes` of application payload.
    pub fn add_data(&mut self, bytes: usize)
        ensures
            final(self)@ == old(self)@.add_data(bytes as nat),
    {
        self.data_bytes = self.data_bytes.saturating_add(bytes as u64);
        self.data_msgs = self.data_msgs.saturating_add(1);
    }

    /// Removes `bytes` of application payload, for an enqueued message that was
    /// dropped before it could be sent.
    pub fn sub_data(&mut self, bytes: usize)
        ensures
            final(self)@ == old(self)@.sub_data(bytes as nat),
    {
        self.data_bytes = self.data_bytes.saturating_sub(bytes as u64);
        self.data_msgs = self.data_msgs.saturating_sub(1);
    }

    /// Adds `bytes` of partial-message metadata.
    pub fn add_meta(&mut self, bytes: usize)
        ensures
            final(self)@ == old(self)@.add_meta(bytes as nat),
    {
        self.meta_bytes = self.meta_bytes.saturating_add(bytes as u64);
        self.meta_msgs = self.meta_msgs.saturating_add(1);
    }

    /// Adds `bytes` of control traffic of the given kind.
    pub fn add_control(&mut self, kind: ControlKind, bytes: usize)
        ensures
            final(self)@ == old(self)@.add_control(kind, bytes as nat),
    {
        let i: usize = kind.index();
        self.control_bytes[i] = self.control_bytes[i].saturating_add(bytes as u64);
        self.control_msgs[i] = self.control_msgs[i].saturating_add(1);
    }

    /// Total control bytes across all kinds.
    pub fn control_bytes_total(&self) -> (total: u64)
        requires
            self@.control_bytes_sum() <= u64::MAX,
        ensures
            total == self@.control_bytes_sum(),
    {
        counters_total(&self.control_bytes)
    }

    /// Total control messages across all kinds.
    pub fn control_msgs_total(&self) -> (total: u64)
        requires
            self@.control_msgs_sum() <= u64::MAX,
        ensures
            total == self@.control_msgs_sum(),
    {
        counters_total(&self.control_msgs)
    }

    /// Every byte accounted in this direction: payload, partial metadata and
    /// control.
    pub fn total_bytes(&self) -> (total: u64)
        requires
            self@.control_bytes_sum() <= u64::MAX,
        ensures
            total == capped(self@.bytes_sum()),
            self@.bytes_sum() <= u64::MAX ==> total == self.data_bytes + self.meta_bytes
                + self@.control_bytes_sum(),
    {
        self.data_bytes.saturating_add(self.meta_bytes).saturating_add(self.control_bytes_total())
    }
}

/// Send and receive counters for a single topic.
#[derive(Debug, Clone, Copy)]
pub struct DirectionalTraffic {
    /// Bytes enqueued for sending to peers.
    pub tx: TrafficCounters,
    /// Bytes received from peers.
    pub rx: TrafficCounters,
}

/// The direction of traffic.
pub enum Side {
    Tx,
    Rx,
}

/// The contents of a [`DirectionalTraffic`].
#[verifier::ext_equal]
pub struct TrafficView {
    pub tx: CountersView,
    pub rx: CountersView,
}

impl View for DirectionalTraffic {
    type V = TrafficView;

    open spec fn view(&self) -> TrafficView {
        TrafficView { tx: self.tx@, rx: self.rx@ }
    }
}

impl TrafficView {
    /// There is one counter for each control kind in either direction.
    pub open spec fn valid(self) -> bool {
        self.tx.valid() && self.rx.valid()
    }

    /// No traffic.
    pub open spec fn zero() -> TrafficView {
        TrafficView { tx: CountersView::zero(), rx: CountersView::zero() }
    }

    /// The counters of one direction.
    pub open spec fn side(self, side: Side) -> CountersView {
        match side {
            Side::Tx => self.tx,
            Side::Rx => self.rx,
        }
    }
}

impl Default for DirectionalTraffic {
    fn default() -> (traffic: Self)
        ensures
            traffic@ == TrafficView::zero(),
    {
        DirectionalTraffic { tx: TrafficCounters::default(), rx: TrafficCounters::default() }
    }
}

/// Whether two arrays hold the same counters.
fn counters_equal(
    left: &[u64; ControlKind::COUNT],
    right: &[u64; ControlKind::COUNT],
) -> (equal: bool)
    ensures
        equal == (left@ == right@),
{
    let mut i: usize = 0;
    while i < ControlKind::COUNT
        invariant
            i <= ControlKind::COUNT,
            left@.len() == ControlKind::COUNT,
            right@.len() == ControlKind::COUNT,
            forall|j: int| 0 <= j < i ==> left@[j] == right@[j],
        decreases ControlKind::COUNT - i,
    {
        if left[i] != right[i] {
            return false;
        }
        i = i + 1;
    }
    assert(left@ =~= right@);
    true
}

impl PartialEq for TrafficCounters {
    fn eq(&self, other: &Self) -> (equal: bool) {
        self.data_bytes == other.data_bytes && self.data_msgs == other.data_msgs
            && self.meta_bytes == other.meta_bytes && self.meta_msgs == other.meta_msgs
            && counters_equal(&self.control_bytes, &other.control_bytes) && counters_equal(
            &self.control_msgs,
            &other.control_msgs,
        )
    }
}

impl vstd::std_specs::cmp::PartialEqSpecImpl for TrafficCounters {
    open spec fn obeys_eq_spec() -> bool {
        true
    }

    open spec fn eq_spec(&self, other: &Self) -> bool {
        self@ == other@
    }
}

impl Eq for TrafficCounters {

}

impl PartialEq for DirectionalTraffic {
    fn eq(&self, other: &Self) -> (equal: bool) {
        self.tx == other.tx && self.rx == other.rx
    }
}

impl vstd::std_specs::cmp::PartialEqSpecImpl for DirectionalTraffic {
    open spec fn obeys_eq_spec() -> bool {
        true
    }

    open spec fn eq_spec(&self, other: &Self) -> bool {
        self@ == other@
    }
}

impl Eq for DirectionalTraffic {

}

} // verus!
