//! What each operation does, counter by counter: which counters it raises, by how much,
//! and that it leaves the others as they were.
use crate::convert::{control_len, message_len};
use crate::counters::{
    capped, lowered, raised, ControlKind, Counter, CountersView, Side, TrafficView,
};
use crate::inbound::{
    control_booked, control_received, ids_booked, resolved, subscription_received, topics_seen,
};
use crate::laws::{
    law_batch_topics_are_distinct, law_known_topics_get_a_part, law_parts_come_from_known_topics,
    law_send_only_grows,
};
use crate::outbound::{
    attributed_len, batch_parts, batch_topics, classified, classified_batch, lemma_attributed,
    subscription_part, topic_len, AttributionView, ContributionView, PartView,
};
use crate::sizes::{
    framed, framed_id, framed_peer, framed_topic, law_received_control_sizes, law_received_id_size,
    law_received_subscription_size, law_sent_control_sizes,
};
use crate::stats::{share, StatsView};
use crate::sums::{lemma_map_sum_insert, seq_sum};
use crate::types::{
    option_view, seq_view, ControlAction, ControlActionView, MessageId, PartialMessageView,
    RawMessageView, RpcOutView, SubscriptionView, TopicHash,
};
use crate::wire::varint_len;
use vstd::prelude::*;

verus! {

// ---------------------------------------------------------------------------
// Counters.
// ---------------------------------------------------------------------------

/// A counter goes up and down by the count, and stays within what it can hold.
pub proof fn law_counters_saturate(counter: u64, count: nat)
    ensures
        counter + count <= u64::MAX ==> raised(counter, count) == counter + count,
        counter + count > u64::MAX ==> raised(counter, count) == u64::MAX,
        counter >= count ==> lowered(counter, count) == counter - count,
        counter < count ==> lowered(counter, count) == 0,
        count <= u64::MAX ==> capped(count) == count,
        count > u64::MAX ==> capped(count) == u64::MAX,
{
}

/// The number of each kind.
pub proof fn law_kinds_are_numbered()
    ensures
        ControlKind::COUNT == 7,
        ControlKind::IHave.position() == 0,
        ControlKind::IWant.position() == 1,
        ControlKind::Graft.position() == 2,
        ControlKind::Prune.position() == 3,
        ControlKind::IDontWant.position() == 4,
        ControlKind::Subscription.position() == 5,
        ControlKind::Extensions.position() == 6,
{
}

/// The name of each kind.
pub proof fn law_kinds_are_named()
    ensures
        ControlKind::IHave.label() == "ihave"@,
        ControlKind::IWant.label() == "iwant"@,
        ControlKind::Graft.label() == "graft"@,
        ControlKind::Prune.label() == "prune"@,
        ControlKind::IDontWant.label() == "idontwant"@,
        ControlKind::Subscription.label() == "subscription"@,
        ControlKind::Extensions.label() == "extensions"@,
{
}

/// Which counter is which.
pub proof fn law_counters_are_fields(counters: CountersView, kind: ControlKind)
    ensures
        counters.get(Counter::DataBytes) == counters.data_bytes,
        counters.get(Counter::DataMsgs) == counters.data_msgs,
        counters.get(Counter::MetaBytes) == counters.meta_bytes,
        counters.get(Counter::MetaMsgs) == counters.meta_msgs,
        counters.get(Counter::ControlBytes(kind)) == counters.control_bytes[kind.position()],
        counters.get(Counter::ControlMsgs(kind)) == counters.control_msgs[kind.position()],
{
}

/// Payload raises the payload counters, by one message and its bytes, and no others.
pub proof fn law_data_raises_data(counters: CountersView, bytes: nat)
    ensures
        ({
            let after = counters.add_data(bytes);
            &&& after.data_bytes == raised(counters.data_bytes, bytes)
            &&& after.data_msgs == raised(counters.data_msgs, 1)
            &&& after.meta_bytes == counters.meta_bytes
            &&& after.meta_msgs == counters.meta_msgs
            &&& after.control_bytes == counters.control_bytes
            &&& after.control_msgs == counters.control_msgs
        }),
{
}

/// Payload that is taken back lowers the payload counters, by one message and its bytes,
/// and no others.
pub proof fn law_taking_back_lowers_data(counters: CountersView, bytes: nat)
    ensures
        ({
            let after = counters.sub_data(bytes);
            &&& after.data_bytes == lowered(counters.data_bytes, bytes)
            &&& after.data_msgs == lowered(counters.data_msgs, 1)
            &&& after.meta_bytes == counters.meta_bytes
            &&& after.meta_msgs == counters.meta_msgs
            &&& after.control_bytes == counters.control_bytes
            &&& after.control_msgs == counters.control_msgs
        }),
{
}

/// Metadata raises the metadata counters, by one message and its bytes, and no others.
pub proof fn law_meta_raises_meta(counters: CountersView, bytes: nat)
    ensures
        ({
            let after = counters.add_meta(bytes);
            &&& after.meta_bytes == raised(counters.meta_bytes, bytes)
            &&& after.meta_msgs == raised(counters.meta_msgs, 1)
            &&& after.data_bytes == counters.data_bytes
            &&& after.data_msgs == counters.data_msgs
            &&& after.control_bytes == counters.control_bytes
            &&& after.control_msgs == counters.control_msgs
        }),
{
}

/// Control raises the counters of its own kind, by one message and its bytes, and no
/// others.
pub proof fn law_control_raises_its_kind(counters: CountersView, kind: ControlKind, bytes: nat)
    requires
        counters.valid(),
    ensures
        ({
            let after = counters.add_control(kind, bytes);
            &&& after.control_bytes.len() == 7
            &&& after.control_msgs.len() == 7
            &&& after.control_bytes[kind.position()] == raised(
                counters.control_bytes[kind.position()],
                bytes,
            )
            &&& after.control_msgs[kind.position()] == raised(
                counters.control_msgs[kind.position()],
                1,
            )
            &&& forall|other: ControlKind|
                other != kind ==> #[trigger] after.control_bytes[other.position()]
                    == counters.control_bytes[other.position()]
                    && after.control_msgs[other.position()]
                    == counters.control_msgs[other.position()]
            &&& after.data_bytes == counters.data_bytes
            &&& after.data_msgs == counters.data_msgs
            &&& after.meta_bytes == counters.meta_bytes
            &&& after.meta_msgs == counters.meta_msgs
        }),
{
}

/// Without traffic every counter is zero.
pub proof fn law_nothing_is_zero(i: int)
    requires
        0 <= i < 7,
    ensures
        ({
            let zero = CountersView::zero();
            &&& zero.data_bytes == 0
            &&& zero.data_msgs == 0
            &&& zero.meta_bytes == 0
            &&& zero.meta_msgs == 0
            &&& zero.control_bytes.len() == 7 && zero.control_bytes[i] == 0
            &&& zero.control_msgs.len() == 7 && zero.control_msgs[i] == 0
            &&& TrafficView::zero().tx == zero
            &&& TrafficView::zero().rx == zero
            &&& StatsView::empty().untopiced == TrafficView::zero()
            &&& StatsView::empty().per_topic == Map::<Seq<char>, TrafficView>::empty()
        }),
{
}

/// A sum has nothing for no elements, and for one more element that element's share.
pub proof fn law_sums_add_up<A>(s: Seq<A>, a: A, f: spec_fn(A) -> nat)
    ensures
        seq_sum(Seq::<A>::empty(), f) == 0,
        seq_sum(s.push(a), f) == seq_sum(s, f) + f(a),
{
    assert(s.push(a).drop_last() =~= s);
}

/// The control totals are the seven kinds together, and the bytes of a direction are
/// payload, metadata and control together.
pub proof fn law_totals_are_of_every_kind(counters: CountersView)
    requires
        counters.valid(),
    ensures
        ({
            let b = counters.control_bytes;
            let m = counters.control_msgs;
            &&& counters.control_bytes_sum() == b[0] + b[1] + b[2] + b[3] + b[4] + b[5] + b[6]
            &&& counters.control_msgs_sum() == m[0] + m[1] + m[2] + m[3] + m[4] + m[5] + m[6]
            &&& counters.bytes_sum() == counters.data_bytes + counters.meta_bytes + b[0] + b[1]
                + b[2] + b[3] + b[4] + b[5] + b[6]
        }),
{
    lemma_sum_of_seven(counters.control_bytes);
    lemma_sum_of_seven(counters.control_msgs);
}

proof fn lemma_sum_of_seven(s: Seq<u64>)
    requires
        s.len() == 7,
    ensures
        seq_sum(s, crate::counters::amount()) == s[0] + s[1] + s[2] + s[3] + s[4] + s[5] + s[6],
{
    reveal_with_fuel(seq_sum, 8);
}

// ---------------------------------------------------------------------------
// Totals.
// ---------------------------------------------------------------------------

/// The directions of an entry.
pub proof fn law_sides(traffic: TrafficView)
    ensures
        traffic.side(Side::Tx) == traffic.tx,
        traffic.side(Side::Rx) == traffic.rx,
{
}

/// Without topics, what is summed is the untopiced bucket alone.
pub proof fn law_sum_without_topics(untopiced: TrafficView, side: Side, counter: Counter)
    ensures
        (StatsView { per_topic: Map::empty(), untopiced }).sum(side, counter) == untopiced.side(
            side,
        ).get(counter),
{
}

/// One more topic adds its own counter to the sum, and nothing else.
pub proof fn law_sum_counts_each_topic(
    stats: StatsView,
    topic: Seq<char>,
    traffic: TrafficView,
    side: Side,
    counter: Counter,
)
    requires
        stats.valid(),
        !stats.per_topic.contains_key(topic),
    ensures
        (StatsView { per_topic: stats.per_topic.insert(topic, traffic), ..stats }).sum(
            side,
            counter,
        ) == stats.sum(side, counter) + traffic.side(side).get(counter),
{
    lemma_map_sum_insert(stats.per_topic, topic, traffic, share(side, counter));
}

/// Each field of a total is the sum of that field, as far as a counter can hold it.
pub proof fn law_totals_are_sums(stats: StatsView, side: Side, kind: ControlKind)
    ensures
        ({
            let total = stats.total(side);
            &&& total.data_bytes == capped(stats.sum(side, Counter::DataBytes))
            &&& total.data_msgs == capped(stats.sum(side, Counter::DataMsgs))
            &&& total.meta_bytes == capped(stats.sum(side, Counter::MetaBytes))
            &&& total.meta_msgs == capped(stats.sum(side, Counter::MetaMsgs))
            &&& total.control_bytes.len() == 7
            &&& total.control_bytes[kind.position()] == capped(
                stats.sum(side, Counter::ControlBytes(kind)),
            )
            &&& total.control_msgs.len() == 7
            &&& total.control_msgs[kind.position()] == capped(
                stats.sum(side, Counter::ControlMsgs(kind)),
            )
        }),
{
    ControlKind::lemma_all_in_order();
    assert(0 <= kind.position() < ControlKind::COUNT);
}

// ---------------------------------------------------------------------------
// Buckets.
// ---------------------------------------------------------------------------

/// A topic's traffic is its entry, and nothing if it has none.
pub proof fn law_topics_have_entries(stats: StatsView, topic: Seq<char>)
    ensures
        stats.per_topic.contains_key(topic) ==> stats.topic(topic) == stats.per_topic[topic],
        !stats.per_topic.contains_key(topic) ==> stats.topic(topic) == TrafficView::zero(),
        stats.bucket(Some(topic)) == stats.topic(topic),
        stats.bucket(None) == stats.untopiced,
{
}

/// Replacing the counters of one direction leaves the other direction of that bucket,
/// and all other buckets, as they were.
pub proof fn law_replacing_counters(stats: StatsView, topic: Seq<char>, counters: CountersView)
    ensures
        stats.with_tx(Some(topic), counters) == (StatsView {
            per_topic: stats.per_topic.insert(
                topic,
                TrafficView { tx: counters, rx: stats.topic(topic).rx },
            ),
            untopiced: stats.untopiced,
        }),
        stats.with_rx(Some(topic), counters) == (StatsView {
            per_topic: stats.per_topic.insert(
                topic,
                TrafficView { tx: stats.topic(topic).tx, rx: counters },
            ),
            untopiced: stats.untopiced,
        }),
        stats.with_tx(None, counters) == (StatsView {
            per_topic: stats.per_topic,
            untopiced: TrafficView { tx: counters, rx: stats.untopiced.rx },
        }),
        stats.with_rx(None, counters) == (StatsView {
            per_topic: stats.per_topic,
            untopiced: TrafficView { tx: stats.untopiced.tx, rx: counters },
        }),
{
}

// ---------------------------------------------------------------------------
// Committing what is sent, and taking it back.
// ---------------------------------------------------------------------------

/// Committing nothing changes nothing.
pub proof fn law_nothing_is_sent(stats: StatsView)
    ensures
        stats.send(ContributionView::Nothing) == stats,
{
}

/// A published message that is committed raises the sent payload of its topic by one
/// message and its bytes. Nothing else changes but the topic being known.
pub proof fn law_data_is_sent(stats: StatsView, topic: Seq<char>, bytes: nat)
    ensures
        ({
            let after = stats.send(ContributionView::Data { topic, bytes });
            let old_tx = stats.topic(topic).tx;
            let new_tx = after.topic(topic).tx;
            &&& new_tx.data_bytes == raised(old_tx.data_bytes, bytes)
            &&& new_tx.data_msgs == raised(old_tx.data_msgs, 1)
            &&& new_tx.meta_bytes == old_tx.meta_bytes
            &&& new_tx.meta_msgs == old_tx.meta_msgs
            &&& new_tx.control_bytes == old_tx.control_bytes
            &&& new_tx.control_msgs == old_tx.control_msgs
            &&& after.topic(topic).rx == stats.topic(topic).rx
            &&& after.per_topic == stats.per_topic.insert(topic, after.topic(topic))
            &&& after.untopiced == stats.untopiced
        }),
{
}

/// A partial message that is committed raises the sent payload of its topic by its body
/// and the sent metadata by its metadata, each on its own and whether or not the other
/// is there. Each counts as a message exactly if it is not empty. Nothing else changes
/// but the topic being known.
pub proof fn law_partial_is_sent(stats: StatsView, topic: Seq<char>, body: nat, meta: nat)
    ensures
        ({
            let after = stats.send(ContributionView::Partial { topic, body, meta });
            let old_tx = stats.topic(topic).tx;
            let new_tx = after.topic(topic).tx;
            &&& new_tx.data_bytes == raised(old_tx.data_bytes, body)
            &&& new_tx.data_msgs == raised(
                old_tx.data_msgs,
                if body > 0 {
                    1
                } else {
                    0
                },
            )
            &&& new_tx.meta_bytes == raised(old_tx.meta_bytes, meta)
            &&& new_tx.meta_msgs == raised(
                old_tx.meta_msgs,
                if meta > 0 {
                    1
                } else {
                    0
                },
            )
            &&& new_tx.control_bytes == old_tx.control_bytes
            &&& new_tx.control_msgs == old_tx.control_msgs
            &&& after.topic(topic).rx == stats.topic(topic).rx
            &&& after.per_topic == stats.per_topic.insert(topic, after.topic(topic))
            &&& after.untopiced == stats.untopiced
        }),
{
}

/// A control message that is committed raises the sent counters of its kind in its own
/// bucket by one message and its bytes. Nothing else changes but the topic being known.
pub proof fn law_control_is_sent(stats: StatsView, part: PartView)
    requires
        stats.valid(),
    ensures
        stats.send(ContributionView::Control(part)) == stats.send_control(part),
        ({
            let after = stats.send_control(part);
            let old_tx = stats.bucket(part.topic).tx;
            let new_tx = after.bucket(part.topic).tx;
            let i = part.kind.position();
            &&& new_tx.control_bytes[i] == raised(old_tx.control_bytes[i], part.bytes)
            &&& new_tx.control_msgs[i] == raised(old_tx.control_msgs[i], 1)
            &&& forall|other: ControlKind|
                other != part.kind ==> #[trigger] new_tx.control_bytes[other.position()]
                    == old_tx.control_bytes[other.position()]
                    && new_tx.control_msgs[other.position()]
                    == old_tx.control_msgs[other.position()]
            &&& new_tx.data_bytes == old_tx.data_bytes
            &&& new_tx.data_msgs == old_tx.data_msgs
            &&& new_tx.meta_bytes == old_tx.meta_bytes
            &&& new_tx.meta_msgs == old_tx.meta_msgs
            &&& after.bucket(part.topic).rx == stats.bucket(part.topic).rx
            &&& match part.topic {
                Some(topic) => after.per_topic == stats.per_topic.insert(topic, after.topic(topic))
                    && after.untopiced == stats.untopiced,
                None => after.per_topic == stats.per_topic,
            }
        }),
{
    assert(stats.bucket(part.topic).tx.valid());
    law_control_raises_its_kind(stats.bucket(part.topic).tx, part.kind, part.bytes);
}

/// A frame in parts is its parts, one after the other.
pub proof fn law_parts_are_sent_in_turn(stats: StatsView, parts: Seq<PartView>, part: PartView)
    ensures
        stats.send(ContributionView::Many(Seq::empty())) == stats,
        stats.send(ContributionView::Many(parts.push(part))) == stats.send(
            ContributionView::Many(parts),
        ).send(ContributionView::Control(part)),
{
    assert(parts.push(part).drop_last() =~= parts);
}

/// A published message that is dropped lowers the sent payload of its topic by one
/// message and its encoded size. Nothing else changes but the topic being known, and
/// nothing at all for any other RPC.
pub proof fn law_publish_is_taken_back(
    stats: StatsView,
    message_id: Seq<u8>,
    message: RawMessageView,
    other: RpcOutView,
)
    ensures
        ({
            let topic = message.topic;
            let after = stats.unsend(RpcOutView::Publish { message_id, message });
            let old_tx = stats.topic(topic).tx;
            let new_tx = after.topic(topic).tx;
            &&& new_tx.data_bytes == lowered(old_tx.data_bytes, message_len(message))
            &&& new_tx.data_msgs == lowered(old_tx.data_msgs, 1)
            &&& new_tx.meta_bytes == old_tx.meta_bytes
            &&& new_tx.meta_msgs == old_tx.meta_msgs
            &&& new_tx.control_bytes == old_tx.control_bytes
            &&& new_tx.control_msgs == old_tx.control_msgs
            &&& after.topic(topic).rx == stats.topic(topic).rx
            &&& after.per_topic == stats.per_topic.insert(topic, after.topic(topic))
            &&& after.untopiced == stats.untopiced
        }),
        !(other is Publish) ==> stats.unsend(other) == stats,
{
}

// ---------------------------------------------------------------------------
// Classifying what is sent.
// ---------------------------------------------------------------------------

/// A publish is data on its own topic of its encoded size, whatever the attribution.
pub proof fn law_publish_is_classified(
    message_id: Seq<u8>,
    message: RawMessageView,
    attribution: AttributionView,
)
    ensures
        classified(RpcOutView::Publish { message_id, message }, attribution)
            == (ContributionView::Data { topic: message.topic, bytes: message_len(message) }),
{
}

/// Sending a partial message, whatever the attribution, raises the payload of its topic
/// by exactly the size of its body and the metadata by exactly the size of its metadata,
/// each on its own. Each counts as a message exactly if it is there and not empty.
/// Nothing else changes but the topic being known.
pub proof fn law_partial_is_classified(
    stats: StatsView,
    partial: PartialMessageView,
    attribution: AttributionView,
)
    ensures
        ({
            let topic = partial.topic_hash;
            let after = stats.send(classified(RpcOutView::PartialMessage(partial), attribution));
            let old_tx = stats.topic(topic).tx;
            let new_tx = after.topic(topic).tx;
            &&& new_tx.data_bytes == match partial.body {
                Some(body) => raised(old_tx.data_bytes, body.len()),
                None => old_tx.data_bytes,
            }
            &&& new_tx.data_msgs == match partial.body {
                Some(body) => if body.len() > 0 {
                    raised(old_tx.data_msgs, 1)
                } else {
                    old_tx.data_msgs
                },
                None => old_tx.data_msgs,
            }
            &&& new_tx.meta_bytes == match partial.metadata {
                Some(metadata) => raised(old_tx.meta_bytes, metadata.len()),
                None => old_tx.meta_bytes,
            }
            &&& new_tx.meta_msgs == match partial.metadata {
                Some(metadata) => if metadata.len() > 0 {
                    raised(old_tx.meta_msgs, 1)
                } else {
                    old_tx.meta_msgs
                },
                None => old_tx.meta_msgs,
            }
            &&& new_tx.control_bytes == old_tx.control_bytes
            &&& new_tx.control_msgs == old_tx.control_msgs
            &&& after.topic(topic).rx == stats.topic(topic).rx
            &&& after.per_topic == stats.per_topic.insert(topic, after.topic(topic))
            &&& after.untopiced == stats.untopiced
        }),
{
}

/// The kind, the topic and the size of every control RPC that is charged as a whole,
/// whatever the attribution.
pub proof fn law_control_is_classified(rpc: RpcOutView, attribution: AttributionView)
    ensures
        match rpc {
            RpcOutView::Subscribe { topic, .. } => classified(rpc, attribution)
                == ContributionView::Control(
                PartView {
                    topic: Some(topic),
                    kind: ControlKind::Subscription,
                    bytes: framed(framed_topic(topic) + 6),
                },
            ),
            RpcOutView::Unsubscribe(topic) => classified(rpc, attribution)
                == ContributionView::Control(
                PartView {
                    topic: Some(topic),
                    kind: ControlKind::Subscription,
                    bytes: framed(framed_topic(topic) + 2),
                },
            ),
            RpcOutView::Graft(topic) => classified(rpc, attribution) == ContributionView::Control(
                PartView {
                    topic: Some(topic),
                    kind: ControlKind::Graft,
                    bytes: framed(framed(framed_topic(topic))),
                },
            ),
            RpcOutView::Prune(prune) => classified(rpc, attribution) == ContributionView::Control(
                PartView {
                    topic: Some(prune.topic_hash),
                    kind: ControlKind::Prune,
                    bytes: framed(
                        framed(
                            framed_topic(prune.topic_hash) + seq_sum(prune.peers, framed_peer()) + (
                            match prune.backoff {
                                Some(backoff) => 1 + varint_len(backoff as nat),
                                None => 0,
                            }),
                        ),
                    ),
                },
            ),
            RpcOutView::IHave(ihave) => classified(rpc, attribution) == ContributionView::Control(
                PartView {
                    topic: Some(ihave.topic_hash),
                    kind: ControlKind::IHave,
                    bytes: framed(
                        framed(
                            framed_topic(ihave.topic_hash) + seq_sum(
                                ihave.message_ids,
                                framed_id(),
                            ),
                        ),
                    ),
                },
            ),
            RpcOutView::Extensions(extensions) => classified(rpc, attribution)
                == ContributionView::Control(
                PartView {
                    topic: None,
                    kind: ControlKind::Extensions,
                    bytes: if extensions.partial_messages is Some {
                        6
                    } else {
                        4
                    },
                },
            ),
            RpcOutView::TestExtension => classified(rpc, attribution) == ContributionView::Control(
                PartView { topic: None, kind: ControlKind::Extensions, bytes: 5 },
            ),
            _ => true,
        },
{
    let topic = match rpc {
        RpcOutView::Subscribe { topic, .. } => topic,
        RpcOutView::Unsubscribe(topic) => topic,
        RpcOutView::Graft(topic) => topic,
        _ => Seq::empty(),
    };
    let (requests, supports) = match rpc {
        RpcOutView::Subscribe { requests_partial, supports_partial, .. } => (
            requests_partial,
            supports_partial,
        ),
        _ => (false, false),
    };
    let prune = match rpc {
        RpcOutView::Prune(prune) => prune,
        _ => arbitrary(),
    };
    let ihave = match rpc {
        RpcOutView::IHave(ihave) => ihave,
        _ => arbitrary(),
    };
    let extensions = match rpc {
        RpcOutView::Extensions(extensions) => extensions,
        _ => arbitrary(),
    };
    law_sent_control_sizes(topic, requests, supports, prune, ihave, Seq::empty(), extensions);
}

/// Several subscriptions are charged one by one, in their order: each its own field on
/// its own topic, whatever the attribution.
pub proof fn law_subscriptions_are_classified(
    topics: Seq<(Seq<char>, bool, bool)>,
    attribution: AttributionView,
)
    ensures
        classified(RpcOutView::SubscribeMany(topics), attribution) matches ContributionView::Many(
            parts,
        ) && parts.len() == topics.len() && (forall|i: int|
            0 <= i < topics.len() ==> #[trigger] parts[i] == (PartView {
                topic: Some(topics[i].0),
                kind: ControlKind::Subscription,
                bytes: framed(framed_topic(topics[i].0) + 6),
            })),
{
    let parts = topics.map_values(|entry: (Seq<char>, bool, bool)| subscription_part(entry));
    assert forall|i: int| 0 <= i < topics.len() implies #[trigger] parts[i] == (PartView {
        topic: Some(topics[i].0),
        kind: ControlKind::Subscription,
        bytes: framed(framed_topic(topics[i].0) + 6),
    }) by {
        assert(parts[i] == subscription_part(topics[i]));
    }
}

/// A batch of ids for which the call site knows one topic, or none, is charged as a
/// whole; with a topic for each message it is charged in parts.
pub proof fn law_batches_are_classified(
    kind: ControlKind,
    total: nat,
    ids: Seq<Seq<u8>>,
    topic: Seq<char>,
    map: Map<Seq<u8>, Seq<char>>,
)
    ensures
        classified_batch(kind, total, ids, AttributionView::Topic(topic))
            == ContributionView::Control(PartView { topic: Some(topic), kind, bytes: total }),
        classified_batch(kind, total, ids, AttributionView::Untopiced) == ContributionView::Control(
            PartView { topic: None, kind, bytes: total },
        ),
        classified_batch(kind, total, ids, AttributionView::PerMessage(map))
            == ContributionView::Many(batch_parts(kind, total, ids, map)),
{
}

/// IWANT and IDONTWANT are batches of their ids, of their own kind and the size of their
/// frame.
pub proof fn law_ids_are_classified(ids: Seq<Seq<u8>>, attribution: AttributionView)
    ensures
        classified(RpcOutView::IWant(ids), attribution) == classified_batch(
            ControlKind::IWant,
            framed(framed(seq_sum(ids, framed_id()))),
            ids,
            attribution,
        ),
        classified(RpcOutView::IDontWant(ids), attribution) == classified_batch(
            ControlKind::IDontWant,
            framed(framed(seq_sum(ids, framed_id()))),
            ids,
            attribution,
        ),
{
    law_sent_control_sizes(
        Seq::empty(),
        false,
        false,
        arbitrary(),
        arbitrary(),
        ids,
        arbitrary(),
    );
}

/// One more id adds its own field to the bytes of its topic, and to those of no other.
pub proof fn law_each_id_counts_for_its_topic(
    ids: Seq<Seq<u8>>,
    id: Seq<u8>,
    map: Map<Seq<u8>, Seq<char>>,
    topic: Seq<char>,
)
    ensures
        topic_len(Seq::empty(), map, topic) == 0,
        topic_len(ids.push(id), map, topic) == topic_len(ids, map, topic) + (if map.contains_key(id)
            && map[id] == topic {
            framed(id.len())
        } else {
            0
        }),
        attributed_len(Seq::empty(), map) == 0,
        attributed_len(ids.push(id), map) == attributed_len(ids, map) + (if map.contains_key(id) {
            framed(id.len())
        } else {
            0
        }),
{
    assert(ids.push(id).drop_last() =~= ids);
}

/// The parts of a batch with a topic for each message. All are of the batch's kind.
/// Those with topics come first, each with the bytes of its ids. One part for the
/// untopiced bucket follows if some bytes of the frame belong to no known id, or if there
/// is no other part; it has the bytes that the others leave.
pub proof fn law_parts_of_a_batch(
    kind: ControlKind,
    total: nat,
    ids: Seq<Seq<u8>>,
    map: Map<Seq<u8>, Seq<char>>,
)
    ensures
        ({
            let parts = batch_parts(kind, total, ids, map);
            let known = attributed_len(ids, map);
            &&& parts.len() > 0
            &&& forall|i: int| 0 <= i < parts.len() ==> (#[trigger] parts[i]).kind == kind
            &&& forall|i: int|
                0 <= i < parts.len() - 1 ==> (#[trigger] parts[i]).topic is Some
            &&& forall|i: int|
                0 <= i < parts.len() ==> ((#[trigger] parts[i]).topic matches Some(topic)
                    ==> parts[i].bytes == topic_len(ids, map, topic))
            &&& (parts.last().topic is None) == (total > known || forall|i: int|
                0 <= i < ids.len() ==> !map.contains_key(#[trigger] ids[i]))
            &&& parts.last().topic is None ==> parts.last().bytes == (if total > known {
                total - known
            } else {
                0
            })
        }),
{
    let parts = batch_parts(kind, total, ids, map);
    let topics = batch_topics(ids, map);
    assert forall|i: int| 0 <= i < topics.len() implies (#[trigger] parts[i]).topic == Some(
        topics[i],
    ) && parts[i].kind == kind by {}
    law_batch_topics_are_distinct(kind, total, ids, map);
    if forall|i: int| 0 <= i < ids.len() ==> !map.contains_key(#[trigger] ids[i]) {
        if topics.len() > 0 {
            law_parts_come_from_known_topics(kind, total, ids, map, 0);
            let i = choose|i: int|
                0 <= i < ids.len() && map.contains_key(#[trigger] ids[i]) && Some(map[ids[i]])
                    == parts[0].topic;
            assert(!map.contains_key(ids[i]));
        }
    } else {
        let i = choose|i: int| 0 <= i < ids.len() && map.contains_key(#[trigger] ids[i]);
        law_known_topics_get_a_part(kind, total, ids, map, i);
        let j = choose|j: int|
            0 <= j < parts.len() && (#[trigger] parts[j]).topic == Some(map[ids[i]]);
        assert(topics.len() > 0);
    }
}

/// The topics of a batch come in the order in which they first occur among its ids: a
/// new id adds its topic at the end if the topic is known and new.
pub proof fn law_topics_come_in_order(
    ids: Seq<Seq<u8>>,
    id: Seq<u8>,
    map: Map<Seq<u8>, Seq<char>>,
    kind: ControlKind,
    total: nat,
    i: int,
)
    ensures
        batch_topics(Seq::empty(), map) == Seq::<Seq<char>>::empty(),
        batch_topics(ids.push(id), map) == (if map.contains_key(id) && !batch_topics(
            ids,
            map,
        ).contains(map[id]) {
            batch_topics(ids, map).push(map[id])
        } else {
            batch_topics(ids, map)
        }),
        0 <= i < batch_topics(ids, map).len() ==> batch_parts(kind, total, ids, map).len()
            >= batch_topics(ids, map).len() && batch_parts(kind, total, ids, map)[i].topic == Some(
            batch_topics(ids, map)[i],
        ),
{
    assert(ids.push(id).drop_last() =~= ids);
}

/// A frame with a batch of ids always leaves its framing to the untopiced bucket: with a
/// topic for each message, the last part is untopiced and holds the framing and the ids
/// of no known topic.
pub proof fn law_framing_is_untopiced(ids: Seq<Seq<u8>>, map: Map<Seq<u8>, Seq<char>>)
    ensures
        ({
            let frame = framed(framed(seq_sum(ids, framed_id())));
            let known = attributed_len(ids, map);
            &&& known < frame
            &&& (classified(RpcOutView::IWant(ids), AttributionView::PerMessage(map)) matches
                ContributionView::Many(parts) && parts.len() > 0 && parts.last() == (PartView {
                topic: None,
                kind: ControlKind::IWant,
                bytes: (frame - known) as nat,
            }))
            &&& (classified(RpcOutView::IDontWant(ids), AttributionView::PerMessage(map)) matches
                ContributionView::Many(parts) && parts.len() > 0 && parts.last() == (PartView {
                topic: None,
                kind: ControlKind::IDontWant,
                bytes: (frame - known) as nat,
            }))
        }),
{
    let frame = framed(framed(seq_sum(ids, framed_id())));
    law_ids_are_classified(ids, AttributionView::PerMessage(map));
    lemma_attributed(ids, map);
    crate::sums::lemma_seq_sum_pointwise(ids, crate::wire::bytes_share(1), ids, framed_id());
    law_parts_of_a_batch(ControlKind::IWant, frame, ids, map);
    law_parts_of_a_batch(ControlKind::IDontWant, frame, ids, map);
}

/// Parts of one kind change no counter but the sent control counters of that kind.
proof fn lemma_parts_of_one_kind(stats: StatsView, parts: Seq<PartView>, kind: ControlKind)
    requires
        stats.valid(),
        forall|i: int| 0 <= i < parts.len() ==> (#[trigger] parts[i]).kind == kind,
    ensures
        forall|bucket: Option<Seq<char>>, side: Side, counter: Counter|
            counter != Counter::ControlBytes(kind) && counter != Counter::ControlMsgs(kind)
                ==> #[trigger] stats.send_parts(parts).bucket(bucket).side(side).get(counter)
                == stats.bucket(bucket).side(side).get(counter),
        forall|bucket: Option<Seq<char>>|
            #[trigger] stats.send_parts(parts).bucket(bucket).rx == stats.bucket(bucket).rx,
    decreases parts.len(),
{
    if parts.len() > 0 {
        let seen = parts.drop_last();
        let middle = stats.send_parts(seen);
        let part = parts[parts.len() - 1];
        assert forall|i: int| 0 <= i < seen.len() implies (#[trigger] seen[i]).kind == kind by {
            assert(parts[i].kind == kind);
        }
        assert(part.kind == kind);
        lemma_parts_of_one_kind(stats, seen, kind);
        law_send_only_grows(stats, ContributionView::Many(seen));
        lemma_part_changes_its_kind(middle, part);
        let after = stats.send_parts(parts);
        assert(after == middle.send_control(part));
        assert forall|bucket: Option<Seq<char>>, side: Side, counter: Counter|
            counter != Counter::ControlBytes(kind) && counter != Counter::ControlMsgs(
                kind,
            ) implies #[trigger] after.bucket(bucket).side(side).get(counter) == stats.bucket(
            bucket,
        ).side(side).get(counter) by {
            assert(middle.bucket(bucket).side(side).get(counter) == stats.bucket(bucket).side(
                side,
            ).get(counter));
        }
        assert forall|bucket: Option<Seq<char>>| #[trigger]
            after.bucket(bucket).rx == stats.bucket(bucket).rx by {
            assert(middle.bucket(bucket).rx == stats.bucket(bucket).rx);
        }
    }
}

/// One part changes no counter but the sent control counters of its kind.
proof fn lemma_part_changes_its_kind(stats: StatsView, part: PartView)
    requires
        stats.valid(),
    ensures
        forall|bucket: Option<Seq<char>>, side: Side, counter: Counter|
            counter != Counter::ControlBytes(part.kind) && counter != Counter::ControlMsgs(
                part.kind,
            ) ==> #[trigger] stats.send_control(part).bucket(bucket).side(side).get(counter)
                == stats.bucket(bucket).side(side).get(counter),
        forall|bucket: Option<Seq<char>>|
            #[trigger] stats.send_control(part).bucket(bucket).rx == stats.bucket(bucket).rx,
{
    assert(stats.bucket(part.topic).tx.valid());
    law_control_raises_its_kind(stats.bucket(part.topic).tx, part.kind, part.bytes);
}

/// Every part that an RPC of the control class is charged as is of the kind of that RPC,
/// whatever it holds and whatever the attribution. Sending it changes only the sent
/// control counters of that kind, in any bucket.
pub proof fn law_every_part_is_of_the_rpcs_kind(
    stats: StatsView,
    rpc: RpcOutView,
    attribution: AttributionView,
)
    requires
        stats.valid(),
        !(rpc is Publish),
        !(rpc is PartialMessage),
    ensures
        ({
            let kind = match rpc {
                RpcOutView::IHave(_) => ControlKind::IHave,
                RpcOutView::IWant(_) => ControlKind::IWant,
                RpcOutView::Graft(_) => ControlKind::Graft,
                RpcOutView::Prune(_) => ControlKind::Prune,
                RpcOutView::IDontWant(_) => ControlKind::IDontWant,
                RpcOutView::Extensions(_) | RpcOutView::TestExtension => ControlKind::Extensions,
                _ => ControlKind::Subscription,
            };
            let after = stats.send(classified(rpc, attribution));
            &&& match classified(rpc, attribution) {
                ContributionView::Control(part) => part.kind == kind,
                ContributionView::Many(parts) => forall|i: int|
                    0 <= i < parts.len() ==> (#[trigger] parts[i]).kind == kind,
                _ => false,
            }
            &&& forall|bucket: Option<Seq<char>>, side: Side, counter: Counter|
                counter != Counter::ControlBytes(kind) && counter != Counter::ControlMsgs(kind)
                    ==> #[trigger] after.bucket(bucket).side(side).get(counter) == stats.bucket(
                    bucket,
                ).side(side).get(counter)
            &&& forall|bucket: Option<Seq<char>>|
                #[trigger] after.bucket(bucket).rx == stats.bucket(bucket).rx
        }),
{
    law_control_is_classified(rpc, attribution);
    match rpc {
        RpcOutView::IWant(ids) => {
            law_ids_are_classified(ids, attribution);
            if let AttributionView::PerMessage(map) = attribution {
                law_parts_of_a_batch(ControlKind::IWant, control_len(rpc), ids, map);
            }
        },
        RpcOutView::IDontWant(ids) => {
            law_ids_are_classified(ids, attribution);
            if let AttributionView::PerMessage(map) = attribution {
                law_parts_of_a_batch(ControlKind::IDontWant, control_len(rpc), ids, map);
            }
        },
        RpcOutView::SubscribeMany(topics) => {
            law_subscriptions_are_classified(topics, attribution);
        },
        _ => {},
    }
    match classified(rpc, attribution) {
        ContributionView::Control(part) => {
            lemma_part_changes_its_kind(stats, part);
        },
        ContributionView::Many(parts) => {
            let kind = match rpc {
                RpcOutView::IWant(_) => ControlKind::IWant,
                RpcOutView::IDontWant(_) => ControlKind::IDontWant,
                _ => ControlKind::Subscription,
            };
            lemma_parts_of_one_kind(stats, parts, kind);
        },
        _ => {},
    }
}

// ---------------------------------------------------------------------------
// Booking what is received.
// ---------------------------------------------------------------------------

/// A received message raises the received payload of its topic by one message and its
/// encoded size. Nothing else changes but the topic being known.
pub proof fn law_message_is_received(stats: StatsView, message: RawMessageView)
    ensures
        ({
            let topic = message.topic;
            let after = stats.receive_message(message);
            let old_rx = stats.topic(topic).rx;
            let new_rx = after.topic(topic).rx;
            &&& new_rx.data_bytes == raised(old_rx.data_bytes, message_len(message))
            &&& new_rx.data_msgs == raised(old_rx.data_msgs, 1)
            &&& new_rx.meta_bytes == old_rx.meta_bytes
            &&& new_rx.meta_msgs == old_rx.meta_msgs
            &&& new_rx.control_bytes == old_rx.control_bytes
            &&& new_rx.control_msgs == old_rx.control_msgs
            &&& after.topic(topic).tx == stats.topic(topic).tx
            &&& after.per_topic == stats.per_topic.insert(topic, after.topic(topic))
            &&& after.untopiced == stats.untopiced
        }),
{
}

/// A received partial message raises the received payload of its topic by its body and
/// the received metadata by its metadata, each on its own. Each counts as a message
/// exactly if it is there, empty or not. Nothing else changes but the topic being known.
pub proof fn law_partial_is_received(stats: StatsView, partial: PartialMessageView)
    ensures
        ({
            let topic = partial.topic_hash;
            let after = stats.receive_partial(partial);
            let old_rx = stats.topic(topic).rx;
            let new_rx = after.topic(topic).rx;
            &&& new_rx.data_bytes == match partial.body {
                Some(body) => raised(old_rx.data_bytes, body.len()),
                None => old_rx.data_bytes,
            }
            &&& new_rx.data_msgs == match partial.body {
                Some(_) => raised(old_rx.data_msgs, 1),
                None => old_rx.data_msgs,
            }
            &&& new_rx.meta_bytes == match partial.metadata {
                Some(metadata) => raised(old_rx.meta_bytes, metadata.len()),
                None => old_rx.meta_bytes,
            }
            &&& new_rx.meta_msgs == match partial.metadata {
                Some(_) => raised(old_rx.meta_msgs, 1),
                None => old_rx.meta_msgs,
            }
            &&& new_rx.control_bytes == old_rx.control_bytes
            &&& new_rx.control_msgs == old_rx.control_msgs
            &&& after.topic(topic).tx == stats.topic(topic).tx
            &&& after.per_topic == stats.per_topic.insert(topic, after.topic(topic))
            &&& after.untopiced == stats.untopiced
        }),
{
}

/// A received control message raises the received counters of its kind in its own bucket
/// by one message and its bytes. Nothing else changes but the topic being known.
pub proof fn law_control_is_received(stats: StatsView, part: PartView)
    requires
        stats.valid(),
    ensures
        ({
            let after = stats.receive_control(part);
            let old_rx = stats.bucket(part.topic).rx;
            let new_rx = after.bucket(part.topic).rx;
            let i = part.kind.position();
            &&& new_rx.control_bytes[i] == raised(old_rx.control_bytes[i], part.bytes)
            &&& new_rx.control_msgs[i] == raised(old_rx.control_msgs[i], 1)
            &&& forall|other: ControlKind|
                other != part.kind ==> #[trigger] new_rx.control_bytes[other.position()]
                    == old_rx.control_bytes[other.position()]
                    && new_rx.control_msgs[other.position()]
                    == old_rx.control_msgs[other.position()]
            &&& new_rx.data_bytes == old_rx.data_bytes
            &&& new_rx.data_msgs == old_rx.data_msgs
            &&& new_rx.meta_bytes == old_rx.meta_bytes
            &&& new_rx.meta_msgs == old_rx.meta_msgs
            &&& after.bucket(part.topic).tx == stats.bucket(part.topic).tx
            &&& match part.topic {
                Some(topic) => after.per_topic == stats.per_topic.insert(topic, after.topic(topic))
                    && after.untopiced == stats.untopiced,
                None => after.per_topic == stats.per_topic,
            }
        }),
{
    assert(stats.bucket(part.topic).rx.valid());
    law_control_raises_its_kind(stats.bucket(part.topic).rx, part.kind, part.bytes);
}

/// The kind, the topic and the size that every received control message is booked with,
/// by what it is. The kind depends on nothing that it holds.
pub proof fn law_received_control_is_of_its_kind(control: ControlActionView)
    ensures
        match control {
            ControlActionView::IHave(ihave) => control_received(control) == Some(
                PartView {
                    topic: Some(ihave.topic_hash),
                    kind: ControlKind::IHave,
                    bytes: framed(
                        framed_topic(ihave.topic_hash) + seq_sum(ihave.message_ids, framed_id()),
                    ),
                },
            ),
            ControlActionView::Graft(topic) => control_received(control) == Some(
                PartView {
                    topic: Some(topic),
                    kind: ControlKind::Graft,
                    bytes: framed(framed_topic(topic)),
                },
            ),
            ControlActionView::Prune(prune) => control_received(control) == Some(
                PartView {
                    topic: Some(prune.topic_hash),
                    kind: ControlKind::Prune,
                    bytes: framed(
                        framed_topic(prune.topic_hash) + seq_sum(prune.peers, framed_peer()) + (
                        match prune.backoff {
                            Some(backoff) => 1 + varint_len(backoff as nat),
                            None => 0,
                        }),
                    ),
                },
            ),
            ControlActionView::Extensions(extensions) => control_received(control) == Some(
                PartView {
                    topic: None,
                    kind: ControlKind::Extensions,
                    bytes: match extensions {
                        Some(e) => if e.partial_messages is Some {
                            4
                        } else {
                            2
                        },
                        None => 2,
                    },
                },
            ),
            ControlActionView::IWant(_) => control_received(control) is None,
            ControlActionView::IDontWant(_) => control_received(control) is None,
        },
{
    let ihave = match control {
        ControlActionView::IHave(ihave) => ihave,
        _ => arbitrary(),
    };
    let topic = match control {
        ControlActionView::Graft(topic) => topic,
        _ => Seq::empty(),
    };
    let prune = match control {
        ControlActionView::Prune(prune) => prune,
        _ => arbitrary(),
    };
    let extensions = match control {
        ControlActionView::Extensions(extensions) => extensions,
        _ => None,
    };
    law_received_control_sizes(ihave, topic, prune, extensions);
}

/// Received control that is booked as a whole changes only the received control counters
/// of its own kind, which depends on nothing that it holds, and only in the bucket of
/// the topic that it names, or the untopiced bucket if it names none.
pub proof fn law_received_control_changes_its_kind(stats: StatsView, control: ControlActionView)
    requires
        stats.valid(),
        !(control is IWant),
        !(control is IDontWant),
    ensures
        ({
            let (topic, kind) = match control {
                ControlActionView::IHave(ihave) => (Some(ihave.topic_hash), ControlKind::IHave),
                ControlActionView::Graft(topic) => (Some(topic), ControlKind::Graft),
                ControlActionView::Prune(prune) => (Some(prune.topic_hash), ControlKind::Prune),
                _ => (None, ControlKind::Extensions),
            };
            control_received(control) matches Some(part) && {
                let after = stats.receive_control(part);
                &&& after.bucket(topic).rx.get(Counter::ControlMsgs(kind)) == raised(
                    stats.bucket(topic).rx.get(Counter::ControlMsgs(kind)),
                    1,
                )
                &&& after.bucket(topic).rx.get(Counter::ControlBytes(kind)) == raised(
                    stats.bucket(topic).rx.get(Counter::ControlBytes(kind)),
                    part.bytes,
                )
                &&& forall|bucket: Option<Seq<char>>, side: Side, counter: Counter|
                    bucket != topic || side is Tx || (counter != Counter::ControlBytes(kind)
                        && counter != Counter::ControlMsgs(kind)) ==> #[trigger] after.bucket(
                        bucket,
                    ).side(side).get(counter) == stats.bucket(bucket).side(side).get(counter)
            }
        }),
{
    law_received_control_is_of_its_kind(control);
    let part = control_received(control)->0;
    lemma_received_part_changes_its_kind(stats, part);
    assert(stats.bucket(part.topic).rx.valid());
}

/// One received part changes no counter but the received control counters of its kind in
/// its bucket.
proof fn lemma_received_part_changes_its_kind(stats: StatsView, part: PartView)
    requires
        stats.valid(),
    ensures
        forall|bucket: Option<Seq<char>>, side: Side, counter: Counter|
            bucket != part.topic || side is Tx || (counter != Counter::ControlBytes(part.kind)
                && counter != Counter::ControlMsgs(part.kind)) ==> #[trigger] stats.receive_control(
                part,
            ).bucket(bucket).side(side).get(counter) == stats.bucket(bucket).side(side).get(
                counter,
            ),
{
    assert(stats.bucket(part.topic).rx.valid());
    law_control_raises_its_kind(stats.bucket(part.topic).rx, part.kind, part.bytes);
}

/// A received announcement, of either action and with any options, is booked under the
/// topic it names and as a subscription: only the received subscription counters of that
/// topic change, by one message and its bytes.
pub proof fn law_announcements_are_subscriptions(stats: StatsView, subscription: SubscriptionView)
    requires
        stats.valid(),
    ensures
        ({
            let part = subscription_received(subscription);
            let after = stats.receive_control(part);
            let topic = Some(subscription.topic_hash);
            let bytes = Counter::ControlBytes(ControlKind::Subscription);
            let msgs = Counter::ControlMsgs(ControlKind::Subscription);
            &&& part.topic == topic
            &&& part.kind == ControlKind::Subscription
            &&& after.bucket(topic).rx.get(msgs) == raised(stats.bucket(topic).rx.get(msgs), 1)
            &&& after.bucket(topic).rx.get(bytes) == raised(
                stats.bucket(topic).rx.get(bytes),
                framed(
                    framed_topic(subscription.topic_hash) + (if subscription.action
                        == crate::types::SubscriptionAction::Subscribe {
                        6nat
                    } else {
                        2
                    }),
                ),
            )
            &&& forall|bucket: Option<Seq<char>>, side: Side, counter: Counter|
                bucket != topic || side is Tx || (counter != bytes && counter != msgs)
                    ==> #[trigger] after.bucket(bucket).side(side).get(counter) == stats.bucket(
                    bucket,
                ).side(side).get(counter)
        }),
{
    let part = subscription_received(subscription);
    law_received_subscription_size(subscription);
    assert(stats.bucket(part.topic).rx.valid());
    lemma_received_part_changes_its_kind(stats, part);
}

/// One more received id is one more control message of the batch's kind, in the bucket
/// of its topic and of the size of its field.
pub proof fn law_one_more_id_is_received(
    stats: StatsView,
    kind: ControlKind,
    ids: Seq<Seq<u8>>,
    topics: Seq<Option<Seq<char>>>,
    id: Seq<u8>,
    topic: Option<Seq<char>>,
)
    ensures
        stats.receive_ids(kind, Seq::empty(), Seq::empty()) == stats,
        stats.receive_ids(kind, ids.push(id), topics.push(topic)) == stats.receive_ids(
            kind,
            ids,
            topics,
        ).receive_control(PartView { topic, kind, bytes: framed(id.len()) }),
{
    assert(ids.push(id).drop_last() =~= ids);
    assert(topics.push(topic).drop_last() =~= topics);
    law_received_id_size(kind, id, topic);
}

/// What booking a batch with one more id does: what booking the others does, and then
/// `resolve` gives a topic for that id, or none, and the id is booked there.
pub proof fn law_one_more_id_is_booked<F: Fn(&MessageId) -> Option<TopicHash>>(
    resolve: F,
    kind: ControlKind,
    ids: Seq<MessageId>,
    id: MessageId,
    before: StatsView,
    after: StatsView,
)
    requires
        ids_booked(resolve, kind, ids.push(id), before, after),
    ensures
        exists|middle: StatsView, topic: Option<TopicHash>|
            {
                &&& #[trigger] ids_booked(resolve, kind, ids, before, middle)
                &&& #[trigger] call_ensures(resolve, (&id,), topic)
                &&& after == middle.receive_control(
                    PartView { topic: option_view(topic), kind, bytes: framed(id@.len()) },
                )
            },
{
    let all = ids.push(id);
    let topics = choose|topics: Seq<Option<TopicHash>>| #[trigger]
        resolved(resolve, all, topics) && after == before.receive_ids(
            kind,
            seq_view(all),
            topics_seen(topics),
        );
    let some = topics.drop_last();
    let topic = topics.last();
    let middle = before.receive_ids(kind, seq_view(ids), topics_seen(some));
    assert(topics =~= some.push(topic));
    assert(topics_seen(topics) =~= topics_seen(some).push(option_view(topic)));
    assert(seq_view(all) =~= seq_view(ids).push(id@));
    law_one_more_id_is_received(
        before,
        kind,
        seq_view(ids),
        topics_seen(some),
        id@,
        option_view(topic),
    );
    assert(call_ensures(resolve, (&all[ids.len() as int],), topics[ids.len() as int]));
    assert forall|i: int| 0 <= i < ids.len() implies call_ensures(
        resolve,
        (&ids[i],),
        #[trigger] some[i],
    ) by {
        assert(call_ensures(resolve, (&all[i],), topics[i]));
    }
    assert(resolved(resolve, ids, some));
    assert(ids_booked(resolve, kind, ids, before, middle));
}

/// What every received control message does to the statistics, by what it is: IWANT and
/// IDONTWANT book their ids under their own kind, and the others one message under
/// theirs, on the topic that they name.
pub proof fn law_control_is_booked<F: Fn(&MessageId) -> Option<TopicHash>>(
    resolve: F,
    control: ControlAction,
    before: StatsView,
    after: StatsView,
)
    requires
        control_booked(resolve, control, before, after),
    ensures
        match control {
            ControlAction::IWant(iwant) => ids_booked(
                resolve,
                ControlKind::IWant,
                iwant.message_ids@,
                before,
                after,
            ),
            ControlAction::IDontWant(idontwant) => ids_booked(
                resolve,
                ControlKind::IDontWant,
                idontwant.message_ids@,
                before,
                after,
            ),
            ControlAction::IHave(ihave) => after == before.receive_control(
                PartView {
                    topic: Some(ihave.topic_hash@),
                    kind: ControlKind::IHave,
                    bytes: framed(
                        framed_topic(ihave.topic_hash@) + seq_sum(
                            seq_view(ihave.message_ids@),
                            framed_id(),
                        ),
                    ),
                },
            ),
            ControlAction::Graft(graft) => after == before.receive_control(
                PartView {
                    topic: Some(graft.topic_hash@),
                    kind: ControlKind::Graft,
                    bytes: framed(framed_topic(graft.topic_hash@)),
                },
            ),
            ControlAction::Prune(prune) => after == before.receive_control(
                PartView {
                    topic: Some(prune.topic_hash@),
                    kind: ControlKind::Prune,
                    bytes: framed(
                        framed_topic(prune.topic_hash@) + seq_sum(
                            seq_view(prune.peers@),
                            framed_peer(),
                        ) + (match prune.backoff {
                            Some(backoff) => 1 + varint_len(backoff as nat),
                            None => 0,
                        }),
                    ),
                },
            ),
            ControlAction::Extensions(extensions) => after == before.receive_control(
                PartView {
                    topic: None,
                    kind: ControlKind::Extensions,
                    bytes: match extensions {
                        Some(e) => if e.partial_messages is Some {
                            4
                        } else {
                            2
                        },
                        None => 2,
                    },
                },
            ),
        },
{
    law_received_control_is_of_its_kind(control@);
}

} // verus!
