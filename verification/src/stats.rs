//! Cumulative traffic of a node, per topic.
use crate::counters::{
    capped, raised, ControlKind, Counter, CountersView, DirectionalTraffic, Side, TrafficCounters,
    TrafficView,
};
use crate::map::{lemma_map_sum_keys, KeyedMap};
use crate::sums::{lemma_seq_sum_take, map_sum, seq_sum};
use crate::types::TopicHash;
use vstd::prelude::*;
use vstd::std_specs::cmp::PartialEqSpec;

verus! {

/// Cumulative gossipsub traffic, per topic.
///
/// Counters only ever grow (bar the dropped-publish correction), so an embedding
/// application samples this periodically and diffs consecutive snapshots to get
/// a rate.
#[derive(Debug)]
pub struct GossipTrafficStats {
    /// Traffic attributed to a specific topic.
    pub per_topic: KeyedMap<TopicHash, DirectionalTraffic>,
    /// Traffic that carries no topic on the wire and could not be attributed:
    /// the extension handshake, and inbound IWANT/IDONTWANT whose message ids
    /// are not in the local message cache.
    pub untopiced: DirectionalTraffic,
}

/// The contents of a [`GossipTrafficStats`].
#[verifier::ext_equal]
pub struct StatsView {
    pub per_topic: Map<Seq<char>, TrafficView>,
    pub untopiced: TrafficView,
}

/// The contents of a per-topic map.
pub open spec fn traffic_map(map: Map<Seq<char>, DirectionalTraffic>) -> Map<
    Seq<char>,
    TrafficView,
> {
    map.map_values(|traffic: DirectionalTraffic| traffic@)
}

impl View for GossipTrafficStats {
    type V = StatsView;

    open spec fn view(&self) -> StatsView {
        StatsView { per_topic: traffic_map(self.per_topic@), untopiced: self.untopiced@ }
    }
}

/// What one topic contributes to the sum of one counter in one direction.
pub open spec fn share(side: Side, counter: Counter) -> spec_fn(TrafficView) -> nat {
    |traffic: TrafficView| traffic.side(side).get(counter) as nat
}

impl StatsView {
    /// Finitely many topics, each with one counter for each control kind.
    pub open spec fn valid(self) -> bool {
        &&& self.per_topic.dom().finite()
        &&& forall|topic: Seq<char>| #[trigger]
            self.per_topic.contains_key(topic) ==> self.per_topic[topic].valid()
        &&& self.untopiced.valid()
    }

    /// No traffic.
    pub open spec fn empty() -> StatsView {
        StatsView { per_topic: Map::empty(), untopiced: TrafficView::zero() }
    }

    /// The traffic of a topic, which is none for a topic never seen.
    pub open spec fn topic(self, topic: Seq<char>) -> TrafficView {
        if self.per_topic.contains_key(topic) {
            self.per_topic[topic]
        } else {
            TrafficView::zero()
        }
    }

    /// The traffic of a topic, or of none.
    pub open spec fn bucket(self, topic: Option<Seq<char>>) -> TrafficView {
        match topic {
            Some(t) => self.topic(t),
            None => self.untopiced,
        }
    }

    /// These statistics with the traffic of a topic, or of none, replaced.
    pub open spec fn with_bucket(self, topic: Option<Seq<char>>, traffic: TrafficView) -> StatsView {
        match topic {
            Some(t) => StatsView { per_topic: self.per_topic.insert(t, traffic), ..self },
            None => StatsView { untopiced: traffic, ..self },
        }
    }

    /// These statistics with the send counters of a topic, or of none, replaced.
    pub open spec fn with_tx(self, topic: Option<Seq<char>>, tx: CountersView) -> StatsView {
        self.with_bucket(topic, TrafficView { tx, ..self.bucket(topic) })
    }

    /// These statistics with the receive counters of a topic, or of none, replaced.
    pub open spec fn with_rx(self, topic: Option<Seq<char>>, rx: CountersView) -> StatsView {
        self.with_bucket(topic, TrafficView { rx, ..self.bucket(topic) })
    }

    /// The sum of one counter over every topic plus the untopiced bucket.
    pub open spec fn sum(self, side: Side, counter: Counter) -> nat {
        map_sum(self.per_topic, share(side, counter)) + self.untopiced.side(side).get(
            counter,
        ) as nat
    }

    /// The counters of one direction, each summed over every topic plus the
    /// untopiced bucket and held at the largest count that fits.
    pub open spec fn total(self, side: Side) -> CountersView {
        CountersView {
            data_bytes: capped(self.sum(side, Counter::DataBytes)),
            data_msgs: capped(self.sum(side, Counter::DataMsgs)),
            meta_bytes: capped(self.sum(side, Counter::MetaBytes)),
            meta_msgs: capped(self.sum(side, Counter::MetaMsgs)),
            control_bytes: Seq::new(
                ControlKind::COUNT as nat,
                |i: int| capped(self.sum(side, Counter::ControlBytes(ControlKind::ALL@[i]))),
            ),
            control_msgs: Seq::new(
                ControlKind::COUNT as nat,
                |i: int| capped(self.sum(side, Counter::ControlMsgs(ControlKind::ALL@[i]))),
            ),
        }
    }
}

/// What a topic, by its key, contributes to the sum of one counter.
spec fn key_share(
    map: Map<Seq<char>, TrafficView>,
    side: Side,
    counter: Counter,
) -> spec_fn(Seq<char>) -> nat {
    |topic: Seq<char>| map[topic].side(side).get(counter) as nat
}

/// Adds each of the counters of `counters` to that of `acc`.
fn accumulate(acc: &mut TrafficCounters, counters: &TrafficCounters)
    ensures
        forall|counter: Counter| #[trigger]
            final(acc)@.get(counter) == raised(
                old(acc)@.get(counter),
                counters@.get(counter) as nat,
            ),
{
    acc.data_bytes = acc.data_bytes.saturating_add(counters.data_bytes);
    acc.data_msgs = acc.data_msgs.saturating_add(counters.data_msgs);
    acc.meta_bytes = acc.meta_bytes.saturating_add(counters.meta_bytes);
    acc.meta_msgs = acc.meta_msgs.saturating_add(counters.meta_msgs);
    let ghost before = old(acc)@;
    let mut i: usize = 0;
    while i < ControlKind::COUNT
        invariant
            i <= ControlKind::COUNT,
            before == old(acc)@,
            acc.data_bytes == raised(before.data_bytes, counters.data_bytes as nat),
            acc.data_msgs == raised(before.data_msgs, counters.data_msgs as nat),
            acc.meta_bytes == raised(before.meta_bytes, counters.meta_bytes as nat),
            acc.meta_msgs == raised(before.meta_msgs, counters.meta_msgs as nat),
            forall|j: int|
                0 <= j < ControlKind::COUNT ==> #[trigger] acc.control_bytes@[j] == (if j < i {
                    raised(before.control_bytes[j], counters.control_bytes@[j] as nat)
                } else {
                    before.control_bytes[j]
                }),
            forall|j: int|
                0 <= j < ControlKind::COUNT ==> #[trigger] acc.control_msgs@[j] == (if j < i {
                    raised(before.control_msgs[j], counters.control_msgs@[j] as nat)
                } else {
                    before.control_msgs[j]
                }),
        decreases ControlKind::COUNT - i,
    {
        acc.control_bytes[i] = acc.control_bytes[i].saturating_add(counters.control_bytes[i]);
        acc.control_msgs[i] = acc.control_msgs[i].saturating_add(counters.control_msgs[i]);
        i = i + 1;
    }
}

/// The send counters of an entry.
fn pick_tx(traffic: &DirectionalTraffic) -> (counters: &TrafficCounters)
    ensures
        counters@ == traffic@.tx,
{
    &traffic.tx
}

/// The receive counters of an entry.
fn pick_rx(traffic: &DirectionalTraffic) -> (counters: &TrafficCounters)
    ensures
        counters@ == traffic@.rx,
{
    &traffic.rx
}

impl GossipTrafficStats {
    /// No topic has two entries.
    pub open spec fn wf(&self) -> bool {
        self.per_topic.wf()
    }

    /// Well-formed statistics have valid contents.
    pub proof fn lemma_valid(&self)
        requires
            self.wf(),
        ensures
            self@.valid(),
    {
        self.per_topic.lemma_keys();
        assert(self@.per_topic.dom() =~= self.per_topic@.dom());
    }

    /// Statistics without any traffic.
    pub fn new() -> (stats: Self)
        ensures
            stats.wf(),
            stats@ == StatsView::empty(),
    {
        let stats = GossipTrafficStats {
            per_topic: KeyedMap::new(),
            untopiced: DirectionalTraffic::default(),
        };
        assert(stats@.per_topic =~= Map::empty());
        stats
    }

    /// Mutable send counters for a topic, creating the entry if needed.
    pub fn tx_mut(&mut self, topic: &TopicHash) -> (counters: &mut TrafficCounters)
        requires
            old(self).wf(),
        ensures
            counters@ == old(self)@.topic(topic@).tx,
            final(self).wf(),
            final(self)@ == old(self)@.with_tx(Some(topic@), final(counters)@),
    {
        &mut self.entry(topic).tx
    }

    /// Mutable receive counters for a topic, creating the entry if needed.
    pub fn rx_mut(&mut self, topic: &TopicHash) -> (counters: &mut TrafficCounters)
        requires
            old(self).wf(),
        ensures
            counters@ == old(self)@.topic(topic@).rx,
            final(self).wf(),
            final(self)@ == old(self)@.with_rx(Some(topic@), final(counters)@),
    {
        &mut self.entry(topic).rx
    }

    /// The traffic of a topic, creating the entry if needed.
    fn entry(&mut self, topic: &TopicHash) -> (traffic: &mut DirectionalTraffic)
        requires
            old(self).wf(),
        ensures
            traffic@ == old(self)@.topic(topic@),
            final(self).wf(),
            final(self)@ == old(self)@.with_bucket(Some(topic@), final(traffic)@),
    {
        // The topic is only cloned the first time it is seen.
        if !self.per_topic.contains_key(topic) {
            let _ = self.per_topic.insert(topic.clone(), DirectionalTraffic::default());
        }
        proof {
            let before = old(self).per_topic@;
            let now = self.per_topic@;
            assert forall|traffic: DirectionalTraffic| #[trigger]
                traffic_map(now.insert(topic@, traffic)) == traffic_map(before).insert(
                topic@,
                traffic@,
            ) by {
                assert(traffic_map(now.insert(topic@, traffic)) =~= traffic_map(before).insert(
                    topic@,
                    traffic@,
                ));
            }
        }
        self.per_topic.get_mut(topic).expect("entry inserted just above")
    }

    /// Summed send counters across every topic plus the untopiced bucket.
    pub fn total_tx(&self) -> (total: TrafficCounters)
        requires
            self.wf(),
        ensures
            total@ == self@.total(Side::Tx),
    {
        self.fold(pick_tx, Ghost(Side::Tx))
    }

    /// Summed receive counters across every topic plus the untopiced bucket.
    pub fn total_rx(&self) -> (total: TrafficCounters)
        requires
            self.wf(),
        ensures
            total@ == self@.total(Side::Rx),
    {
        self.fold(pick_rx, Ghost(Side::Rx))
    }

    /// Sums the counters that `pick` takes from each entry.
    fn fold(
        &self,
        pick: impl Fn(&DirectionalTraffic) -> &TrafficCounters,
        Ghost(side): Ghost<Side>,
    ) -> (total: TrafficCounters)
        requires
            self.wf(),
            forall|traffic: &DirectionalTraffic| #[trigger] call_requires(pick, (traffic,)),
            forall|traffic: &DirectionalTraffic, counters: &TrafficCounters|
                call_ensures(pick, (traffic,), counters) ==> counters@ == traffic@.side(side),
        ensures
            total@ == self@.total(side),
    {
        let mut acc: TrafficCounters = TrafficCounters::default();
        let ghost map = self@.per_topic;
        let ghost keys = self.per_topic.keys();
        proof {
            self.lemma_valid();
            self.per_topic.lemma_keys();
        }
        let len: usize = self.per_topic.len();
        let mut i: usize = 0;
        while i < len
            invariant
                self.wf(),
                i <= len,
                len == keys.len(),
                map == self@.per_topic,
                keys == self.per_topic.keys(),
                forall|topic: Seq<char>| #[trigger]
                    self.per_topic@.contains_key(topic) <==> keys.contains(topic),
                forall|traffic: &DirectionalTraffic| #[trigger] call_requires(pick, (traffic,)),
                forall|traffic: &DirectionalTraffic, counters: &TrafficCounters|
                    call_ensures(pick, (traffic,), counters) ==> counters@ == traffic@.side(side),
                forall|counter: Counter| #[trigger]
                    acc@.get(counter) == capped(
                        seq_sum(keys.take(i as int), key_share(map, side, counter)),
                    ),
            decreases len - i,
        {
            let counters: &TrafficCounters = pick(self.per_topic.value_at(i));
            let ghost before = acc@;
            accumulate(&mut acc, counters);
            proof {
                assert(keys.contains(keys[i as int]));
                assert(self.per_topic@.contains_key(keys[i as int]));
                assert forall|counter: Counter| #[trigger]
                    acc@.get(counter) == capped(
                        seq_sum(keys.take(i + 1), key_share(map, side, counter)),
                    ) by {
                    lemma_seq_sum_take(keys, i as int, key_share(map, side, counter));
                    assert(before.get(counter) == capped(
                        seq_sum(keys.take(i as int), key_share(map, side, counter)),
                    ));
                }
            }
            i = i + 1;
        }
        let ghost before = acc@;
        accumulate(&mut acc, pick(&self.untopiced));
        proof {
            assert(keys.take(i as int) =~= keys);
            assert forall|counter: Counter| #[trigger] acc@.get(counter) == capped(
                self@.sum(side, counter),
            ) by {
                assert forall|topic: Seq<char>| #[trigger] map.contains_key(topic) implies keys.contains(
                    topic,
                ) by {
                    assert(self.per_topic@.contains_key(topic));
                }
                assert forall|topic: Seq<char>| keys.contains(topic) implies #[trigger] map.contains_key(
                    topic,
                ) by {
                    assert(self.per_topic@.contains_key(topic));
                }
                lemma_map_sum_keys(map, keys, share(side, counter), key_share(map, side, counter));
                assert(before.get(counter) == capped(
                    seq_sum(keys, key_share(map, side, counter)),
                ));
            }
            let total = self@.total(side);
            ControlKind::lemma_all_in_order();
            assert(acc@.get(Counter::DataBytes) == total.data_bytes);
            assert(acc@.get(Counter::DataMsgs) == total.data_msgs);
            assert(acc@.get(Counter::MetaBytes) == total.meta_bytes);
            assert(acc@.get(Counter::MetaMsgs) == total.meta_msgs);
            assert forall|j: int| 0 <= j < ControlKind::COUNT implies acc@.control_bytes[j]
                == total.control_bytes[j] && acc@.control_msgs[j] == total.control_msgs[j] by {
                let kind = ControlKind::ALL@[j];
                assert(kind.position() == j);
                assert(acc@.get(Counter::ControlBytes(kind)) == total.control_bytes[j]);
                assert(acc@.get(Counter::ControlMsgs(kind)) == total.control_msgs[j]);
            }
            assert(acc@ =~= total);
        }
        acc
    }
}

impl Default for GossipTrafficStats {
    fn default() -> (stats: Self)
        ensures
            stats.wf(),
            stats@ == StatsView::empty(),
    {
        GossipTrafficStats::new()
    }
}

impl Clone for GossipTrafficStats {
    fn clone(&self) -> (copy: Self)
        ensures
            self.wf() ==> copy.wf() && copy@ == self@,
    {
        let copy = GossipTrafficStats {
            per_topic: self.per_topic.clone(),
            untopiced: self.untopiced,
        };
        assert(self.wf() ==> copy@.per_topic =~= self@.per_topic);
        copy
    }
}

impl PartialEq for GossipTrafficStats {
    fn eq(&self, other: &Self) -> (equal: bool) {
        self.per_topic == other.per_topic && self.untopiced == other.untopiced
    }
}

impl vstd::std_specs::cmp::PartialEqSpecImpl for GossipTrafficStats {
    open spec fn obeys_eq_spec() -> bool {
        true
    }

    open spec fn eq_spec(&self, other: &Self) -> bool {
        PartialEqSpec::eq_spec(&self.per_topic, &other.per_topic) && PartialEqSpec::eq_spec(
            &self.untopiced,
            &other.untopiced,
        )
    }
}

impl Eq for GossipTrafficStats {

}

impl GossipTrafficStats {
    /// Two statistics are equal if they account for the same traffic, whatever the
    /// order in which topics were first seen.
    pub proof fn law_equal_means_same_traffic(&self, other: &Self)
        requires
            self.wf(),
            other.wf(),
        ensures
            PartialEqSpec::eq_spec(self, other) <==> self@ == other@,
    {
        self.per_topic.lemma_equal(&other.per_topic);
        if PartialEqSpec::eq_spec(self, other) {
            assert(self@.per_topic =~= other@.per_topic);
        }
        if self@ == other@ {
            assert(self.per_topic@.dom() =~= self@.per_topic.dom());
            assert(other.per_topic@.dom() =~= other@.per_topic.dom());
            assert forall|topic: Seq<char>| #[trigger]
                self.per_topic@.contains_key(topic) implies PartialEqSpec::eq_spec(
                &self.per_topic@[topic],
                &other.per_topic@[topic],
            ) by {
                assert(self@.per_topic[topic] == other@.per_topic[topic]);
            }
        }
    }
}

} // verus!
