//! What holds of the accounting as a whole.
use crate::convert::{control_len, message_len};
use crate::counters::{
    amount, capped, raised, ControlKind, Counter, CountersView, Side, TrafficView,
};
use crate::inbound::{control_received, id_received, partial_received, subscription_received};
use crate::outbound::{
    attributed_len, batch_parts, batch_topics, classified, lemma_attributed, lemma_batch_frame,
    lemma_batch_topics_distinct, lemma_subscriptions_frame, lemma_topic_parts_step, partial_sent,
    payload_len, residual_len, subscription_part, subscription_share, topic_len, topic_parts,
    AttributionView, ContributionView, PartView,
};
use crate::stats::{share, StatsView};
use crate::sums::{
    lemma_map_sum_add, lemma_map_sum_covered, lemma_map_sum_insert, lemma_map_sum_le,
    lemma_map_sum_value, lemma_map_sum_zero, lemma_seq_sum_element, lemma_seq_sum_pointwise,
    lemma_seq_sum_take, lemma_seq_sum_update, lemma_seq_sum_zero, map_sum, seq_sum,
};
use crate::types::{
    ControlActionView, PartialMessageView, RawMessageView, RpcOutView, SubscriptionView,
};
use crate::wire::{bytes_share, short_delimited_len};
use vstd::prelude::*;

verus! {

// ---------------------------------------------------------------------------
// Volume: the bytes of one direction, over every topic and the untopiced bucket.
// ---------------------------------------------------------------------------

/// The bytes of one direction that a topic accounts for.
pub open spec fn volume_share(side: Side) -> spec_fn(TrafficView) -> nat {
    |traffic: TrafficView| traffic.side(side).bytes_sum()
}

impl StatsView {
    /// The bytes of one direction, over every topic plus the untopiced bucket.
    pub open spec fn volume(self, side: Side) -> nat {
        map_sum(self.per_topic, volume_share(side)) + self.untopiced.side(side).bytes_sum()
    }
}

/// The bytes of one part of a frame.
pub open spec fn part_share() -> spec_fn(PartView) -> nat {
    |part: PartView| part.bytes
}

impl ContributionView {
    /// The bytes of a contribution.
    pub open spec fn volume(self) -> nat {
        match self {
            ContributionView::Nothing => 0,
            ContributionView::Data { bytes, .. } => bytes,
            ContributionView::Partial { body, meta, .. } => body + meta,
            ContributionView::Control(part) => part.bytes,
            ContributionView::Many(parts) => seq_sum(parts, part_share()),
        }
    }
}

proof fn lemma_zero_bytes()
    ensures
        CountersView::zero().bytes_sum() == 0,
        CountersView::zero().valid(),
{
    lemma_seq_sum_zero(CountersView::zero().control_bytes, amount());
}

/// Replacing a bucket keeps the statistics valid and exchanges the bucket's bytes.
proof fn lemma_with_bucket(
    stats: StatsView,
    topic: Option<Seq<char>>,
    traffic: TrafficView,
    side: Side,
)
    requires
        stats.valid(),
        traffic.valid(),
    ensures
        stats.with_bucket(topic, traffic).valid(),
        stats.bucket(topic).valid(),
        stats.with_bucket(topic, traffic).volume(side) + stats.bucket(topic).side(side).bytes_sum()
            == stats.volume(side) + traffic.side(side).bytes_sum(),
        stats.bucket(topic).side(side).bytes_sum() <= stats.volume(side),
{
    lemma_zero_bytes();
    if let Some(t) = topic {
        lemma_map_sum_insert(stats.per_topic, t, traffic, volume_share(side));
        if stats.per_topic.contains_key(t) {
            lemma_map_sum_value(stats.per_topic, t, volume_share(side));
        }
    }
}

/// Adding a control message that the counters can hold adds its bytes.
proof fn lemma_add_control(counters: CountersView, kind: ControlKind, bytes: nat)
    requires
        counters.valid(),
    ensures
        counters.add_control(kind, bytes).valid(),
        counters.bytes_sum() + bytes <= u64::MAX ==> counters.add_control(kind, bytes).bytes_sum()
            == counters.bytes_sum() + bytes,
{
    let i = kind.position();
    let f = amount();
    lemma_seq_sum_element(counters.control_bytes, i, f);
    lemma_seq_sum_update(
        counters.control_bytes,
        i,
        raised(counters.control_bytes[i], bytes),
        f,
    );
}

proof fn lemma_send_control(stats: StatsView, part: PartView)
    requires
        stats.valid(),
    ensures
        stats.send_control(part).valid(),
        stats.volume(Side::Tx) + part.bytes <= u64::MAX ==> stats.send_control(part).volume(
            Side::Tx,
        ) == stats.volume(Side::Tx) + part.bytes,
        stats.send_control(part).volume(Side::Rx) == stats.volume(Side::Rx),
{
    let bucket = stats.bucket(part.topic);
    lemma_zero_bytes();
    lemma_add_control(bucket.tx, part.kind, part.bytes);
    let traffic = TrafficView { tx: bucket.tx.add_control(part.kind, part.bytes), ..bucket };
    lemma_with_bucket(stats, part.topic, traffic, Side::Tx);
    lemma_with_bucket(stats, part.topic, traffic, Side::Rx);
}

proof fn lemma_send_parts(stats: StatsView, parts: Seq<PartView>)
    requires
        stats.valid(),
    ensures
        stats.send_parts(parts).valid(),
        stats.volume(Side::Tx) + seq_sum(parts, part_share()) <= u64::MAX ==> stats.send_parts(
            parts,
        ).volume(Side::Tx) == stats.volume(Side::Tx) + seq_sum(parts, part_share()),
        stats.send_parts(parts).volume(Side::Rx) == stats.volume(Side::Rx),
    decreases parts.len(),
{
    if parts.len() > 0 {
        lemma_send_parts(stats, parts.drop_last());
        lemma_send_control(stats.send_parts(parts.drop_last()), parts.last());
    }
}

/// Committing a contribution adds exactly its bytes to what was sent, and nothing
/// to what was received, as long as the counters can hold them.
pub proof fn law_send_adds_its_bytes(stats: StatsView, contribution: ContributionView)
    requires
        stats.valid(),
        stats.volume(Side::Tx) + contribution.volume() <= u64::MAX,
    ensures
        stats.send(contribution).volume(Side::Tx) == stats.volume(Side::Tx)
            + contribution.volume(),
        stats.send(contribution).volume(Side::Rx) == stats.volume(Side::Rx),
{
    lemma_zero_bytes();
    match contribution {
        ContributionView::Nothing => {},
        ContributionView::Data { topic, bytes } => {
            let bucket = stats.topic(topic);
            let traffic = TrafficView { tx: bucket.tx.add_data(bytes), ..bucket };
            lemma_with_bucket(stats, Some(topic), traffic, Side::Tx);
            lemma_with_bucket(stats, Some(topic), traffic, Side::Rx);
        },
        ContributionView::Partial { topic, body, meta } => {
            let bucket = stats.topic(topic);
            let traffic = TrafficView { tx: partial_sent(bucket.tx, body, meta), ..bucket };
            lemma_with_bucket(stats, Some(topic), traffic, Side::Tx);
            lemma_with_bucket(stats, Some(topic), traffic, Side::Rx);
        },
        ContributionView::Control(part) => {
            lemma_send_control(stats, part);
        },
        ContributionView::Many(parts) => {
            lemma_send_parts(stats, parts);
        },
    }
}

// ---------------------------------------------------------------------------
// Attribution: every byte of a frame is charged, and to whom.
// ---------------------------------------------------------------------------

/// The parts of a batch that belong to topics are the ids whose topic is known.
proof fn lemma_topic_parts_sum(
    kind: ControlKind,
    ids: Seq<Seq<u8>>,
    map: Map<Seq<u8>, Seq<char>>,
)
    ensures
        seq_sum(topic_parts(kind, ids, map), part_share()) == attributed_len(ids, map),
    decreases ids.len(),
{
    if ids.len() > 0 {
        let seen = ids.drop_last();
        let id = ids.last();
        let known = batch_topics(seen, map);
        let before = topic_parts(kind, seen, map);
        lemma_topic_parts_sum(kind, seen, map);
        lemma_topic_parts_step(kind, ids, map);
        if map.contains_key(id) {
            let bytes = short_delimited_len(id.len());
            if known.contains(map[id]) {
                let i = choose|i: int| 0 <= i < known.len() && known[i] == map[id];
                let part = PartView { bytes: before[i].bytes + bytes, ..before[i] };
                lemma_seq_sum_update(before, i, part, part_share());
            } else {
                let part = PartView { topic: Some(map[id]), kind, bytes };
                assert(before.push(part).drop_last() =~= before);
            }
        }
    }
}

/// A batch of ids is charged in full: its parts sum to the frame, and never to less
/// than the ids that were attributed.
pub proof fn law_batch_parts_sum_to_the_frame(
    kind: ControlKind,
    total: nat,
    ids: Seq<Seq<u8>>,
    map: Map<Seq<u8>, Seq<char>>,
)
    ensures
        seq_sum(batch_parts(kind, total, ids, map), part_share()) == (if total
            > attributed_len(ids, map) {
            total
        } else {
            attributed_len(ids, map)
        }),
{
    lemma_topic_parts_sum(kind, ids, map);
    let parts = topic_parts(kind, ids, map);
    let residual = PartView { topic: None, kind, bytes: residual_len(total, ids, map) };
    assert(parts.push(residual).drop_last() =~= parts);
}

/// Every byte of a control frame is charged to some topic or to the untopiced
/// bucket, whatever the attribution: the contribution has exactly the frame's size.
pub proof fn law_control_is_charged_in_full(rpc: RpcOutView, attribution: AttributionView)
    requires
        rpc.is_control(),
    ensures
        classified(rpc, attribution).volume() == control_len(rpc),
{
    match rpc {
        RpcOutView::SubscribeMany(topics) => {
            lemma_subscriptions_frame(topics);
            let parts = topics.map_values(
                |entry: (Seq<char>, bool, bool)| subscription_part(entry),
            );
            lemma_seq_sum_pointwise(topics, subscription_share(), parts, part_share());
        },
        RpcOutView::IWant(ids) => {
            if let AttributionView::PerMessage(map) = attribution {
                lemma_batch_frame(rpc, ids);
                lemma_attributed(ids, map);
                law_batch_parts_sum_to_the_frame(ControlKind::IWant, control_len(rpc), ids, map);
            }
        },
        RpcOutView::IDontWant(ids) => {
            if let AttributionView::PerMessage(map) = attribution {
                lemma_batch_frame(rpc, ids);
                lemma_attributed(ids, map);
                law_batch_parts_sum_to_the_frame(
                    ControlKind::IDontWant,
                    control_len(rpc),
                    ids,
                    map,
                );
            }
        },
        _ => {},
    }
}

/// A published message is charged its encoded size, which is at least its payload.
pub proof fn law_publish_is_charged_its_size(
    message_id: Seq<u8>,
    message: RawMessageView,
    attribution: AttributionView,
)
    ensures
        classified(RpcOutView::Publish { message_id, message }, attribution).volume()
            == message_len(message),
        message_len(message) >= message.data.len(),
{
}

/// A partial message is charged its body and its metadata.
pub proof fn law_partial_is_charged_its_payload(
    partial: PartialMessageView,
    attribution: AttributionView,
)
    ensures
        classified(RpcOutView::PartialMessage(partial), attribution).volume() == (
        match partial.body {
            Some(body) => body.len(),
            None => 0,
        }) + (match partial.metadata {
            Some(metadata) => metadata.len(),
            None => 0,
        }),
{
}

/// No topic gets two parts of a batch, and each gets exactly the bytes of its ids.
pub proof fn law_batch_topics_are_distinct(
    kind: ControlKind,
    total: nat,
    ids: Seq<Seq<u8>>,
    map: Map<Seq<u8>, Seq<char>>,
)
    ensures
        forall|i: int, j: int|
            0 <= i < j < batch_parts(kind, total, ids, map).len() ==> (#[trigger] batch_parts(
                kind,
                total,
                ids,
                map,
            )[i]).topic != (#[trigger] batch_parts(kind, total, ids, map)[j]).topic,
        forall|i: int|
            0 <= i < batch_parts(kind, total, ids, map).len() ==> {
                let part = #[trigger] batch_parts(kind, total, ids, map)[i];
                part.topic matches Some(topic) ==> part.bytes == topic_len(ids, map, topic)
            },
{
    lemma_batch_topics_distinct(ids, map);
    let topics = batch_topics(ids, map);
    let parts = batch_parts(kind, total, ids, map);
    assert forall|i: int, j: int| 0 <= i < j < parts.len() implies (#[trigger] parts[i]).topic != (
    #[trigger] parts[j]).topic by {
        assert(i < topics.len() && parts[i].topic == Some(topics[i]));
        if j < topics.len() {
            assert(parts[j].topic == Some(topics[j]));
        }
    }
}

/// Every id of a batch whose topic is known has its topic among the parts.
pub proof fn law_known_topics_get_a_part(
    kind: ControlKind,
    total: nat,
    ids: Seq<Seq<u8>>,
    map: Map<Seq<u8>, Seq<char>>,
    i: int,
)
    requires
        0 <= i < ids.len(),
        map.contains_key(ids[i]),
    ensures
        exists|j: int|
            0 <= j < batch_parts(kind, total, ids, map).len() && (#[trigger] batch_parts(
                kind,
                total,
                ids,
                map,
            )[j]).topic == Some(map[ids[i]]),
{
    lemma_topic_is_listed(ids, map, i);
    let topics = batch_topics(ids, map);
    let j = choose|j: int| 0 <= j < topics.len() && topics[j] == map[ids[i]];
    assert(batch_parts(kind, total, ids, map)[j].topic == Some(topics[j]));
}

proof fn lemma_topic_is_listed(ids: Seq<Seq<u8>>, map: Map<Seq<u8>, Seq<char>>, i: int)
    requires
        0 <= i < ids.len(),
        map.contains_key(ids[i]),
    ensures
        batch_topics(ids, map).contains(map[ids[i]]),
    decreases ids.len(),
{
    let before = batch_topics(ids.drop_last(), map);
    let after = batch_topics(ids, map);
    if i == ids.len() - 1 {
        if !before.contains(map[ids[i]]) {
            assert(after[before.len() as int] == map[ids[i]]);
        }
    } else {
        lemma_topic_is_listed(ids.drop_last(), map, i);
        let j = choose|j: int| 0 <= j < before.len() && before[j] == map[ids[i]];
        assert(after[j] == map[ids[i]]);
    }
}

/// Every part of a batch that has a topic comes from an id of the batch whose topic
/// that is.
pub proof fn law_parts_come_from_known_topics(
    kind: ControlKind,
    total: nat,
    ids: Seq<Seq<u8>>,
    map: Map<Seq<u8>, Seq<char>>,
    j: int,
)
    requires
        0 <= j < batch_parts(kind, total, ids, map).len(),
        batch_parts(kind, total, ids, map)[j].topic is Some,
    ensures
        exists|i: int|
            0 <= i < ids.len() && map.contains_key(#[trigger] ids[i]) && Some(map[ids[i]])
                == batch_parts(kind, total, ids, map)[j].topic,
{
    let topics = batch_topics(ids, map);
    assert(j < topics.len() && batch_parts(kind, total, ids, map)[j].topic == Some(topics[j]));
    lemma_listed_topic_is_known(ids, map, j);
}

proof fn lemma_listed_topic_is_known(ids: Seq<Seq<u8>>, map: Map<Seq<u8>, Seq<char>>, j: int)
    requires
        0 <= j < batch_topics(ids, map).len(),
    ensures
        exists|i: int|
            0 <= i < ids.len() && map.contains_key(#[trigger] ids[i]) && map[ids[i]]
                == batch_topics(ids, map)[j],
    decreases ids.len(),
{
    let seen = ids.drop_last();
    let before = batch_topics(seen, map);
    if j < before.len() {
        lemma_listed_topic_is_known(seen, map, j);
        let i = choose|i: int|
            0 <= i < seen.len() && map.contains_key(#[trigger] seen[i]) && map[seen[i]]
                == before[j];
        assert(ids[i] == seen[i]);
    } else {
        assert(ids[ids.len() - 1] == ids.last());
    }
}

/// Only IWANT and IDONTWANT need an attribution; every other RPC is classified the
/// same whatever it is.
pub proof fn law_attribution_is_for_ids(
    rpc: RpcOutView,
    one: AttributionView,
    other: AttributionView,
)
    requires
        !(rpc is IWant),
        !(rpc is IDontWant),
    ensures
        classified(rpc, one) == classified(rpc, other),
{
}

/// Where the topic is known at the call site, the untopiced bucket gets nothing of a
/// batch of ids: all of it goes to that topic.
pub proof fn law_known_topic_gets_the_batch(rpc: RpcOutView, topic: Seq<char>, stats: StatsView)
    requires
        rpc is IWant || rpc is IDontWant,
    ensures
        classified(rpc, AttributionView::Topic(topic)) == ContributionView::Control(
            PartView {
                topic: Some(topic),
                kind: if rpc is IWant {
                    ControlKind::IWant
                } else {
                    ControlKind::IDontWant
                },
                bytes: control_len(rpc),
            },
        ),
        stats.send(classified(rpc, AttributionView::Topic(topic))).untopiced == stats.untopiced,
{
}

/// The extension handshake never carries a topic: sending it leaves every topic as
/// it was.
pub proof fn law_extensions_have_no_topic(
    rpc: RpcOutView,
    attribution: AttributionView,
    stats: StatsView,
)
    requires
        rpc is Extensions || rpc is TestExtension,
    ensures
        stats.send(classified(rpc, attribution)).per_topic == stats.per_topic,
        stats.send(classified(rpc, attribution)).untopiced.tx == stats.untopiced.tx.add_control(
            ControlKind::Extensions,
            control_len(rpc),
        ),
{
}

// ---------------------------------------------------------------------------
// Totals.
// ---------------------------------------------------------------------------

/// The control bytes of the first kinds that a topic accounts for.
spec fn control_share(side: Side, kinds: int) -> spec_fn(TrafficView) -> nat {
    |traffic: TrafficView| seq_sum(traffic.side(side).control_bytes.take(kinds), amount())
}

/// The payload and metadata bytes that a topic accounts for.
spec fn payload_share(side: Side) -> spec_fn(TrafficView) -> nat {
    |traffic: TrafficView|
        (traffic.side(side).data_bytes + traffic.side(side).meta_bytes) as nat
}

/// A byte counter is part of the bytes of its counters.
proof fn lemma_counter_in_bytes(counters: CountersView, counter: Counter)
    requires
        counters.valid(),
        counter is DataBytes || counter is MetaBytes || counter is ControlBytes,
    ensures
        counters.get(counter) <= counters.bytes_sum(),
{
    if let Counter::ControlBytes(kind) = counter {
        lemma_seq_sum_element(counters.control_bytes, kind.position(), amount());
    }
}

/// The sum of a byte counter is part of the volume.
proof fn lemma_sum_in_volume(stats: StatsView, side: Side, counter: Counter)
    requires
        stats.valid(),
        counter is DataBytes || counter is MetaBytes || counter is ControlBytes,
    ensures
        stats.sum(side, counter) <= stats.volume(side),
{
    assert forall|topic: Seq<char>| #[trigger] stats.per_topic.contains_key(topic) implies (share(
        side,
        counter,
    ))(stats.per_topic[topic]) <= (volume_share(side))(stats.per_topic[topic]) by {
        lemma_counter_in_bytes(stats.per_topic[topic].side(side), counter);
    }
    lemma_map_sum_le(stats.per_topic, share(side, counter), volume_share(side));
    lemma_counter_in_bytes(stats.untopiced.side(side), counter);
}

/// The control bytes of the first kinds, over every topic.
proof fn lemma_control_totals(stats: StatsView, side: Side, kinds: int)
    requires
        stats.valid(),
        stats.volume(side) <= u64::MAX,
        0 <= kinds <= ControlKind::COUNT,
    ensures
        seq_sum(stats.total(side).control_bytes.take(kinds), amount()) == map_sum(
            stats.per_topic,
            control_share(side, kinds),
        ) + seq_sum(stats.untopiced.side(side).control_bytes.take(kinds), amount()),
    decreases kinds,
{
    let f = amount();
    let total = stats.total(side).control_bytes;
    let untopiced = stats.untopiced.side(side).control_bytes;
    if kinds == 0 {
        assert forall|topic: Seq<char>| #[trigger] stats.per_topic.contains_key(topic) implies (
        control_share(side, 0))(stats.per_topic[topic]) == 0 by {
            assert(stats.per_topic[topic].side(side).control_bytes.take(0).len() == 0);
        }
        lemma_map_sum_zero(stats.per_topic, control_share(side, 0));
        assert(total.take(0).len() == 0);
        assert(untopiced.take(0).len() == 0);
    } else {
        let i = kinds - 1;
        let kind = ControlKind::ALL@[i];
        let counter = Counter::ControlBytes(kind);
        ControlKind::lemma_all_in_order();
        assert(kind.position() == i);
        lemma_control_totals(stats, side, i);
        lemma_seq_sum_take(total, i, f);
        lemma_seq_sum_take(untopiced, i, f);
        assert forall|topic: Seq<char>| #[trigger] stats.per_topic.contains_key(topic) implies (
        control_share(side, kinds))(stats.per_topic[topic]) == (control_share(side, i))(
            stats.per_topic[topic],
        ) + (share(side, counter))(stats.per_topic[topic]) by {
            lemma_seq_sum_take(stats.per_topic[topic].side(side).control_bytes, i, f);
        }
        lemma_map_sum_add(
            stats.per_topic,
            control_share(side, i),
            share(side, counter),
            control_share(side, kinds),
        );
        lemma_sum_in_volume(stats, side, counter);
    }
}

/// The total of one direction reconciles with its topics: its bytes are those of
/// every topic plus the untopiced bucket, as long as a counter can hold them.
pub proof fn law_total_is_the_volume(stats: StatsView, side: Side)
    requires
        stats.valid(),
        stats.volume(side) <= u64::MAX,
    ensures
        stats.total(side).valid(),
        stats.total(side).bytes_sum() == stats.volume(side),
{
    let n = ControlKind::COUNT as int;
    let total = stats.total(side);
    let untopiced = stats.untopiced.side(side);
    lemma_control_totals(stats, side, n);
    lemma_sum_in_volume(stats, side, Counter::DataBytes);
    lemma_sum_in_volume(stats, side, Counter::MetaBytes);
    lemma_map_sum_add(
        stats.per_topic,
        share(side, Counter::DataBytes),
        share(side, Counter::MetaBytes),
        payload_share(side),
    );
    assert forall|topic: Seq<char>| #[trigger] stats.per_topic.contains_key(topic) implies (
    volume_share(side))(stats.per_topic[topic]) == (payload_share(side))(stats.per_topic[topic]) + (
    control_share(side, n))(stats.per_topic[topic]) by {
        let counters = stats.per_topic[topic].side(side);
        assert(counters.control_bytes.take(n) =~= counters.control_bytes);
    }
    lemma_map_sum_add(
        stats.per_topic,
        payload_share(side),
        control_share(side, n),
        volume_share(side),
    );
    assert(total.control_bytes.take(n) =~= total.control_bytes);
    assert(untopiced.control_bytes.take(n) =~= untopiced.control_bytes);
}

/// The bytes that an outbound RPC is charged for: its encoded size, or for a partial
/// message the size of its body and metadata.
pub open spec fn charged_len(rpc: RpcOutView) -> nat {
    match rpc {
        RpcOutView::Publish { message, .. } => message_len(message),
        RpcOutView::PartialMessage(partial) => payload_len(partial.body) + payload_len(
            partial.metadata,
        ),
        _ => control_len(rpc),
    }
}

/// Sending an RPC raises the total of what was sent by exactly the bytes that it is
/// charged for, however they are attributed, as long as a counter can hold them.
pub proof fn law_total_follows_what_is_sent(
    stats: StatsView,
    rpc: RpcOutView,
    attribution: AttributionView,
)
    requires
        stats.valid(),
        stats.volume(Side::Tx) + charged_len(rpc) <= u64::MAX,
    ensures
        stats.send(classified(rpc, attribution)).total(Side::Tx).bytes_sum() == stats.total(
            Side::Tx,
        ).bytes_sum() + charged_len(rpc),
{
    let contribution = classified(rpc, attribution);
    if rpc.is_control() {
        law_control_is_charged_in_full(rpc, attribution);
    }
    law_send_adds_its_bytes(stats, contribution);
    law_send_only_grows(stats, contribution);
    law_total_is_the_volume(stats, Side::Tx);
    law_total_is_the_volume(stats.send(contribution), Side::Tx);
}

/// Each counter of the total is the sum of that counter over every topic plus the
/// untopiced bucket, held at the largest count that fits.
pub proof fn law_total_of_each_counter(stats: StatsView, side: Side, counter: Counter)
    ensures
        stats.total(side).get(counter) == capped(stats.sum(side, counter)),
{
    ControlKind::lemma_all_in_order();
    match counter {
        Counter::ControlBytes(kind) => {
            assert(0 <= kind.position() < ControlKind::COUNT);
        },
        Counter::ControlMsgs(kind) => {
            assert(0 <= kind.position() < ControlKind::COUNT);
        },
        _ => {},
    }
}

// ---------------------------------------------------------------------------
// Dropped publishes.
// ---------------------------------------------------------------------------

/// A publish that is booked and then dropped gives its bytes and its message back:
/// the statistics are as they were, but for the topic being known.
pub proof fn law_drop_undoes_publish(
    stats: StatsView,
    message_id: Seq<u8>,
    message: RawMessageView,
    attribution: AttributionView,
)
    requires
        stats.topic(message.topic).tx.data_bytes + message_len(message) <= u64::MAX,
        stats.topic(message.topic).tx.data_msgs < u64::MAX,
    ensures
        ({
            let rpc = RpcOutView::Publish { message_id, message };
            stats.send(classified(rpc, attribution)).unsend(rpc) == stats.with_bucket(
                Some(message.topic),
                stats.topic(message.topic),
            )
        }),
{
    let rpc = RpcOutView::Publish { message_id, message };
    let after = stats.send(classified(rpc, attribution)).unsend(rpc);
    let known = stats.with_bucket(Some(message.topic), stats.topic(message.topic));
    assert(after.topic(message.topic).tx =~= stats.topic(message.topic).tx);
    assert(after.per_topic =~= known.per_topic);
}

/// Dropping a publish whose bytes are booked takes exactly them out of the volume
/// that was sent, whatever has been booked in between, and out of the total that was
/// sent, as long as a counter can hold it.
pub proof fn law_drop_gives_bytes_back(
    stats: StatsView,
    message_id: Seq<u8>,
    message: RawMessageView,
)
    requires
        stats.valid(),
        stats.topic(message.topic).tx.data_bytes >= message_len(message),
    ensures
        stats.unsend(RpcOutView::Publish { message_id, message }).volume(Side::Tx) == stats.volume(
            Side::Tx,
        ) - message_len(message),
        stats.unsend(RpcOutView::Publish { message_id, message }).volume(Side::Rx)
            == stats.volume(Side::Rx),
        stats.volume(Side::Tx) <= u64::MAX ==> stats.unsend(
            RpcOutView::Publish { message_id, message },
        ).total(Side::Tx).bytes_sum() == stats.total(Side::Tx).bytes_sum() - message_len(message),
{
    lemma_zero_bytes();
    let bucket = stats.topic(message.topic);
    let traffic = TrafficView { tx: bucket.tx.sub_data(message_len(message)), ..bucket };
    lemma_with_bucket(stats, Some(message.topic), traffic, Side::Tx);
    lemma_with_bucket(stats, Some(message.topic), traffic, Side::Rx);
    if stats.volume(Side::Tx) <= u64::MAX {
        law_total_is_the_volume(stats, Side::Tx);
        law_total_is_the_volume(
            stats.unsend(RpcOutView::Publish { message_id, message }),
            Side::Tx,
        );
    }
}

/// Dropping an RPC that is no publish changes nothing.
pub proof fn law_only_publishes_are_taken_back(stats: StatsView, rpc: RpcOutView)
    requires
        !(rpc is Publish),
    ensures
        stats.unsend(rpc) == stats,
{
}

// ---------------------------------------------------------------------------
// Receiving.
// ---------------------------------------------------------------------------

/// The bytes of the ids of a received batch.
pub open spec fn batch_volume(ids: Seq<Seq<u8>>) -> nat {
    seq_sum(ids, bytes_share(1))
}

/// Receiving a control message adds exactly its bytes to what was received, and
/// nothing to what was sent, as long as the counters can hold them.
pub proof fn law_received_control_adds_its_bytes(stats: StatsView, part: PartView)
    requires
        stats.valid(),
        stats.volume(Side::Rx) + part.bytes <= u64::MAX,
    ensures
        stats.receive_control(part).valid(),
        stats.receive_control(part).volume(Side::Rx) == stats.volume(Side::Rx) + part.bytes,
        stats.receive_control(part).volume(Side::Tx) == stats.volume(Side::Tx),
        stats.receive_control(part).total(Side::Rx).bytes_sum() == stats.total(
            Side::Rx,
        ).bytes_sum() + part.bytes,
{
    let bucket = stats.bucket(part.topic);
    lemma_zero_bytes();
    lemma_add_control(bucket.rx, part.kind, part.bytes);
    let traffic = TrafficView { rx: bucket.rx.add_control(part.kind, part.bytes), ..bucket };
    lemma_with_bucket(stats, part.topic, traffic, Side::Tx);
    lemma_with_bucket(stats, part.topic, traffic, Side::Rx);
    law_total_is_the_volume(stats, Side::Rx);
    law_total_is_the_volume(stats.receive_control(part), Side::Rx);
}

/// Every byte of the ids of a received batch is counted, whether or not their
/// topics can be resolved.
pub proof fn law_received_ids_are_charged_in_full(
    stats: StatsView,
    kind: ControlKind,
    ids: Seq<Seq<u8>>,
    topics: Seq<Option<Seq<char>>>,
)
    requires
        stats.valid(),
        topics.len() == ids.len(),
        stats.volume(Side::Rx) + batch_volume(ids) <= u64::MAX,
    ensures
        stats.receive_ids(kind, ids, topics).valid(),
        stats.receive_ids(kind, ids, topics).volume(Side::Rx) == stats.volume(Side::Rx)
            + batch_volume(ids),
        stats.receive_ids(kind, ids, topics).volume(Side::Tx) == stats.volume(Side::Tx),
        stats.receive_ids(kind, ids, topics).total(Side::Rx).bytes_sum() == stats.total(
            Side::Rx,
        ).bytes_sum() + batch_volume(ids),
    decreases ids.len(),
{
    if ids.len() > 0 {
        law_received_ids_are_charged_in_full(stats, kind, ids.drop_last(), topics.drop_last());
        law_received_control_adds_its_bytes(
            stats.receive_ids(kind, ids.drop_last(), topics.drop_last()),
            id_received(kind, ids.last(), topics.last()),
        );
    }
}

/// Ids whose topic cannot be resolved are all booked to the untopiced bucket: no
/// topic is touched.
pub proof fn law_unresolved_ids_are_untopiced(
    stats: StatsView,
    kind: ControlKind,
    ids: Seq<Seq<u8>>,
    topics: Seq<Option<Seq<char>>>,
)
    requires
        topics.len() == ids.len(),
        forall|i: int| 0 <= i < topics.len() ==> #[trigger] topics[i] is None,
    ensures
        stats.receive_ids(kind, ids, topics).per_topic == stats.per_topic,
    decreases ids.len(),
{
    if ids.len() > 0 {
        assert(topics.last() is None);
        law_unresolved_ids_are_untopiced(stats, kind, ids.drop_last(), topics.drop_last());
    }
}

/// Receiving a published message adds exactly its encoded size to what was received.
pub proof fn law_received_message_adds_its_bytes(stats: StatsView, message: RawMessageView)
    requires
        stats.valid(),
        stats.volume(Side::Rx) + message_len(message) <= u64::MAX,
    ensures
        stats.receive_message(message).valid(),
        stats.receive_message(message).volume(Side::Rx) == stats.volume(Side::Rx) + message_len(
            message,
        ),
        stats.receive_message(message).volume(Side::Tx) == stats.volume(Side::Tx),
        stats.receive_message(message).total(Side::Rx).bytes_sum() == stats.total(
            Side::Rx,
        ).bytes_sum() + message_len(message),
{
    lemma_zero_bytes();
    let bucket = stats.topic(message.topic);
    let traffic = TrafficView { rx: bucket.rx.add_data(message_len(message)), ..bucket };
    lemma_with_bucket(stats, Some(message.topic), traffic, Side::Tx);
    lemma_with_bucket(stats, Some(message.topic), traffic, Side::Rx);
    law_total_is_the_volume(stats, Side::Rx);
    law_total_is_the_volume(stats.receive_message(message), Side::Rx);
}

/// Receiving a partial message adds exactly its body and metadata to what was
/// received.
pub proof fn law_received_partial_adds_its_bytes(stats: StatsView, partial: PartialMessageView)
    requires
        stats.valid(),
        stats.volume(Side::Rx) + payload_len(partial.body) + payload_len(partial.metadata)
            <= u64::MAX,
    ensures
        stats.receive_partial(partial).valid(),
        stats.receive_partial(partial).volume(Side::Rx) == stats.volume(Side::Rx) + payload_len(
            partial.body,
        ) + payload_len(partial.metadata),
        stats.receive_partial(partial).volume(Side::Tx) == stats.volume(Side::Tx),
        stats.receive_partial(partial).total(Side::Rx).bytes_sum() == stats.total(
            Side::Rx,
        ).bytes_sum() + payload_len(partial.body) + payload_len(partial.metadata),
{
    lemma_zero_bytes();
    let bucket = stats.topic(partial.topic_hash);
    let traffic = TrafficView {
        rx: partial_received(bucket.rx, partial.body, partial.metadata),
        ..bucket
    };
    lemma_with_bucket(stats, Some(partial.topic_hash), traffic, Side::Tx);
    lemma_with_bucket(stats, Some(partial.topic_hash), traffic, Side::Rx);
    law_total_is_the_volume(stats, Side::Rx);
    law_total_is_the_volume(stats.receive_partial(partial), Side::Rx);
}

/// Every control message that is received takes at least one byte, so it is seen in
/// the byte counters and not only in the message counters.
pub proof fn law_received_control_takes_bytes(
    control: ControlActionView,
    subscription: SubscriptionView,
    kind: ControlKind,
    id: Seq<u8>,
    topic: Option<Seq<char>>,
)
    ensures
        control_received(control) matches Some(part) ==> part.bytes > 0,
        subscription_received(subscription).bytes > 0,
        id_received(kind, id, topic).bytes > 0,
{
}

// ---------------------------------------------------------------------------
// Growth, and what stays as it was.
// ---------------------------------------------------------------------------

/// No topic is forgotten, and no counter has gone down.
pub open spec fn grown(before: StatsView, after: StatsView) -> bool {
    &&& forall|topic: Seq<char>| #[trigger]
        before.per_topic.contains_key(topic) ==> after.per_topic.contains_key(topic)
    &&& forall|topic: Option<Seq<char>>, side: Side, counter: Counter| #[trigger]
        before.bucket(topic).side(side).get(counter) <= after.bucket(topic).side(side).get(counter)
}

/// The counters of one direction are as they were, in every bucket.
pub open spec fn side_kept(before: StatsView, after: StatsView, side: Side) -> bool {
    forall|topic: Option<Seq<char>>| #[trigger]
        after.bucket(topic).side(side) == before.bucket(topic).side(side)
}

/// The payload and metadata counters are as they were, in every bucket.
pub open spec fn payload_kept(before: StatsView, after: StatsView) -> bool {
    forall|topic: Option<Seq<char>>, side: Side|
        {
            let old_counters = before.bucket(topic).side(side);
            let new_counters = #[trigger] after.bucket(topic).side(side);
            &&& new_counters.data_bytes == old_counters.data_bytes
            &&& new_counters.data_msgs == old_counters.data_msgs
            &&& new_counters.meta_bytes == old_counters.meta_bytes
            &&& new_counters.meta_msgs == old_counters.meta_msgs
        }
}

/// The control counters are as they were, in every bucket.
pub open spec fn control_kept(before: StatsView, after: StatsView) -> bool {
    forall|topic: Option<Seq<char>>, side: Side|
        {
            let old_counters = before.bucket(topic).side(side);
            let new_counters = #[trigger] after.bucket(topic).side(side);
            &&& new_counters.control_bytes == old_counters.control_bytes
            &&& new_counters.control_msgs == old_counters.control_msgs
        }
}

/// Every bucket but one is as it was.
pub open spec fn others_kept(before: StatsView, after: StatsView, topic: Option<Seq<char>>) -> bool {
    forall|other: Option<Seq<char>>|
        other != topic ==> #[trigger] after.bucket(other) == before.bucket(other)
}

/// Growth composes: what has grown twice has grown.
pub proof fn law_growth_composes(before: StatsView, middle: StatsView, after: StatsView)
    requires
        grown(before, middle),
        grown(middle, after),
    ensures
        grown(before, after),
{
    assert forall|topic: Option<Seq<char>>, side: Side, counter: Counter| #[trigger]
        before.bucket(topic).side(side).get(counter) <= after.bucket(topic).side(side).get(
        counter,
    ) by {
        assert(before.bucket(topic).side(side).get(counter) <= middle.bucket(topic).side(side).get(
            counter,
        ));
    }
}

/// What two steps keep or only grow, both together do.
proof fn lemma_kept_composes(before: StatsView, middle: StatsView, after: StatsView, kept: Side)
    requires
        grown(before, middle),
        grown(middle, after),
        side_kept(before, middle, kept),
        side_kept(middle, after, kept),
        payload_kept(before, middle),
        payload_kept(middle, after),
    ensures
        grown(before, after),
        side_kept(before, after, kept),
        payload_kept(before, after),
{
    law_growth_composes(before, middle, after);
    assert forall|topic: Option<Seq<char>>| #[trigger]
        after.bucket(topic).side(kept) == before.bucket(topic).side(kept) by {
        assert(middle.bucket(topic).side(kept) == before.bucket(topic).side(kept));
    }
    assert forall|topic: Option<Seq<char>>, side: Side|
        {
            let old_counters = before.bucket(topic).side(side);
            let new_counters = #[trigger] after.bucket(topic).side(side);
            &&& new_counters.data_bytes == old_counters.data_bytes
            &&& new_counters.data_msgs == old_counters.data_msgs
            &&& new_counters.meta_bytes == old_counters.meta_bytes
            &&& new_counters.meta_msgs == old_counters.meta_msgs
        } by {
        assert(middle.bucket(topic).side(side).data_bytes == before.bucket(topic).side(
            side,
        ).data_bytes);
    }
}

/// No counter of the totals has gone down.
pub open spec fn totals_grown(before: StatsView, after: StatsView) -> bool {
    forall|side: Side, counter: Counter| #[trigger]
        before.total(side).get(counter) <= after.total(side).get(counter)
}

/// What each topic of some statistics adds to the sum of a counter is no more than
/// what it adds in others.
pub(crate) proof fn lemma_sum_covered(before: StatsView, after: StatsView, side: Side, counter: Counter)
    requires
        before.valid(),
        after.valid(),
        forall|topic: Option<Seq<char>>| #[trigger]
            before.bucket(topic).side(side).get(counter) <= after.bucket(topic).side(side).get(
                counter,
            ),
    ensures
        before.sum(side, counter) <= after.sum(side, counter),
{
    let f = share(side, counter);
    assert forall|topic: Seq<char>| #[trigger] before.per_topic.contains_key(topic) implies f(
        before.per_topic[topic],
    ) <= (if after.per_topic.contains_key(topic) {
        f(after.per_topic[topic])
    } else {
        0
    }) by {
        assert(before.bucket(Some(topic)).side(side).get(counter) <= after.bucket(
            Some(topic),
        ).side(side).get(counter));
        assert(TrafficView::zero().side(side).get(counter) == 0);
    }
    lemma_map_sum_covered(before.per_topic, after.per_topic, f);
    assert(before.bucket(None).side(side).get(counter) <= after.bucket(None).side(side).get(
        counter,
    ));
}

/// Where no counter of any bucket has gone down, none of the totals has: consecutive
/// snapshots of the totals can be diffed.
pub proof fn law_growth_shows_in_the_totals(before: StatsView, after: StatsView)
    requires
        before.valid(),
        after.valid(),
        grown(before, after),
    ensures
        totals_grown(before, after),
{
    assert forall|side: Side, counter: Counter| #[trigger]
        before.total(side).get(counter) <= after.total(side).get(counter) by {
        assert forall|topic: Option<Seq<char>>| #[trigger]
            before.bucket(topic).side(side).get(counter) <= after.bucket(topic).side(side).get(
            counter,
        ) by {}
        lemma_sum_covered(before, after, side, counter);
        law_total_of_each_counter(before, side, counter);
        law_total_of_each_counter(after, side, counter);
    }
}

/// Where the counters of one direction are as they were in every bucket, so is the
/// total of that direction.
pub proof fn law_kept_side_keeps_its_total(before: StatsView, after: StatsView, side: Side)
    requires
        before.valid(),
        after.valid(),
        side_kept(before, after, side),
    ensures
        after.total(side) == before.total(side),
{
    assert forall|counter: Counter| #[trigger]
        before.sum(side, counter) == after.sum(side, counter) by {
        assert forall|topic: Option<Seq<char>>| #[trigger]
            before.bucket(topic).side(side).get(counter) == after.bucket(topic).side(side).get(
            counter,
        ) by {
            assert(after.bucket(topic).side(side) == before.bucket(topic).side(side));
        }
        assert forall|topic: Option<Seq<char>>| #[trigger]
            after.bucket(topic).side(side).get(counter) <= before.bucket(topic).side(side).get(
            counter,
        ) by {
            assert(after.bucket(topic).side(side) == before.bucket(topic).side(side));
        }
        lemma_sum_covered(before, after, side, counter);
        lemma_sum_covered(after, before, side, counter);
    }
    assert(after.total(side) =~= before.total(side));
}

proof fn lemma_send_control_kept(stats: StatsView, part: PartView)
    requires
        stats.valid(),
    ensures
        stats.send_control(part).valid(),
        grown(stats, stats.send_control(part)),
        side_kept(stats, stats.send_control(part), Side::Rx),
        payload_kept(stats, stats.send_control(part)),
        others_kept(stats, stats.send_control(part), part.topic),
{
    lemma_send_control(stats, part);
    lemma_zero_bytes();
}

proof fn lemma_send_parts_kept(stats: StatsView, parts: Seq<PartView>)
    requires
        stats.valid(),
    ensures
        stats.send_parts(parts).valid(),
        grown(stats, stats.send_parts(parts)),
        side_kept(stats, stats.send_parts(parts), Side::Rx),
        payload_kept(stats, stats.send_parts(parts)),
    decreases parts.len(),
{
    if parts.len() > 0 {
        let middle = stats.send_parts(parts.drop_last());
        let after = stats.send_parts(parts);
        lemma_send_parts_kept(stats, parts.drop_last());
        lemma_send_control_kept(middle, parts.last());
        lemma_kept_composes(stats, middle, after, Side::Rx);
    }
}

/// Counters only ever grow: committing a contribution lowers none of them, neither of
/// a topic nor of the totals, forgets no topic, and keeps what was received.
pub proof fn law_send_only_grows(stats: StatsView, contribution: ContributionView)
    requires
        stats.valid(),
    ensures
        stats.send(contribution).valid(),
        grown(stats, stats.send(contribution)),
        side_kept(stats, stats.send(contribution), Side::Rx),
        totals_grown(stats, stats.send(contribution)),
        stats.send(contribution).total(Side::Rx) == stats.total(Side::Rx),
{
    lemma_zero_bytes();
    match contribution {
        ContributionView::Nothing => {},
        ContributionView::Data { topic, bytes } => {
            let bucket = stats.topic(topic);
            let traffic = TrafficView { tx: bucket.tx.add_data(bytes), ..bucket };
            lemma_with_bucket(stats, Some(topic), traffic, Side::Tx);
        },
        ContributionView::Partial { topic, body, meta } => {
            let bucket = stats.topic(topic);
            let traffic = TrafficView { tx: partial_sent(bucket.tx, body, meta), ..bucket };
            lemma_with_bucket(stats, Some(topic), traffic, Side::Tx);
        },
        ContributionView::Control(part) => {
            lemma_send_control_kept(stats, part);
        },
        ContributionView::Many(parts) => {
            lemma_send_parts_kept(stats, parts);
        },
    }
    law_growth_shows_in_the_totals(stats, stats.send(contribution));
    law_kept_side_keeps_its_total(stats, stats.send(contribution), Side::Rx);
}

/// Control is never counted as payload: sending an RPC of the control class leaves
/// every payload and metadata counter as it was.
pub proof fn law_control_is_not_payload(
    stats: StatsView,
    rpc: RpcOutView,
    attribution: AttributionView,
)
    requires
        stats.valid(),
        rpc.is_control(),
    ensures
        payload_kept(stats, stats.send(classified(rpc, attribution))),
{
    match classified(rpc, attribution) {
        ContributionView::Control(part) => {
            lemma_send_control_kept(stats, part);
        },
        ContributionView::Many(parts) => {
            lemma_send_parts_kept(stats, parts);
        },
        _ => {},
    }
}

/// A published message is data on its own topic and nothing else: every control
/// counter, every other topic and the untopiced bucket are as they were.
pub proof fn law_publish_is_data_on_its_topic(
    stats: StatsView,
    message_id: Seq<u8>,
    message: RawMessageView,
    attribution: AttributionView,
)
    ensures
        ({
            let rpc = RpcOutView::Publish { message_id, message };
            let after = stats.send(classified(rpc, attribution));
            &&& after.topic(message.topic) == (TrafficView {
                tx: stats.topic(message.topic).tx.add_data(message_len(message)),
                ..stats.topic(message.topic)
            })
            &&& control_kept(stats, after)
            &&& others_kept(stats, after, Some(message.topic))
        }),
{
}

/// A received control message raises no payload or metadata counter, keeps what was
/// sent, and touches one bucket.
pub proof fn law_received_control_only_grows(stats: StatsView, part: PartView)
    requires
        stats.valid(),
    ensures
        stats.receive_control(part).valid(),
        grown(stats, stats.receive_control(part)),
        side_kept(stats, stats.receive_control(part), Side::Tx),
        payload_kept(stats, stats.receive_control(part)),
        others_kept(stats, stats.receive_control(part), part.topic),
        totals_grown(stats, stats.receive_control(part)),
        stats.receive_control(part).total(Side::Tx) == stats.total(Side::Tx),
{
    let bucket = stats.bucket(part.topic);
    lemma_zero_bytes();
    lemma_add_control(bucket.rx, part.kind, part.bytes);
    let traffic = TrafficView { rx: bucket.rx.add_control(part.kind, part.bytes), ..bucket };
    lemma_with_bucket(stats, part.topic, traffic, Side::Rx);
    law_growth_shows_in_the_totals(stats, stats.receive_control(part));
    law_kept_side_keeps_its_total(stats, stats.receive_control(part), Side::Tx);
}

/// The topic that a control message which is booked as a whole names, if any.
pub open spec fn received_topic(control: ControlActionView) -> Option<Seq<char>> {
    match control {
        ControlActionView::IHave(ihave) => Some(ihave.topic_hash),
        ControlActionView::Graft(topic) => Some(topic),
        ControlActionView::Prune(prune) => Some(prune.topic_hash),
        _ => None,
    }
}

/// A received IHAVE, GRAFT or PRUNE is booked against the topic it names and no
/// other; the extension handshake against none.
pub proof fn law_received_control_is_on_its_topic(stats: StatsView, control: ControlActionView)
    requires
        stats.valid(),
        !(control is IWant),
        !(control is IDontWant),
    ensures
        control_received(control) matches Some(part) && part.topic == received_topic(control)
            && others_kept(stats, stats.receive_control(part), received_topic(control)),
        control is Extensions ==> stats.receive_control(
            control_received(control)->0,
        ).per_topic == stats.per_topic,
{
    law_received_control_only_grows(stats, control_received(control)->0);
}

/// The topic that an outbound RPC of the control class names, if it names just one.
pub open spec fn named_topic(rpc: RpcOutView) -> Option<Seq<char>> {
    match rpc {
        RpcOutView::Subscribe { topic, .. } => Some(topic),
        RpcOutView::Unsubscribe(topic) => Some(topic),
        RpcOutView::Graft(topic) => Some(topic),
        RpcOutView::Prune(prune) => Some(prune.topic_hash),
        RpcOutView::IHave(ihave) => Some(ihave.topic_hash),
        _ => None,
    }
}

/// An RPC of the control class that names its topic is booked in full against that
/// topic and no other, whatever the attribution.
pub proof fn law_control_is_on_its_topic(
    stats: StatsView,
    rpc: RpcOutView,
    attribution: AttributionView,
)
    requires
        stats.valid(),
        named_topic(rpc) is Some,
    ensures
        classified(rpc, attribution) matches ContributionView::Control(part) && part.topic
            == named_topic(rpc) && part.bytes == control_len(rpc),
        others_kept(stats, stats.send(classified(rpc, attribution)), named_topic(rpc)),
{
    if let ContributionView::Control(part) = classified(rpc, attribution) {
        lemma_send_control_kept(stats, part);
    }
}

/// A received batch of ids lowers no counter, keeps what was sent, and is not
/// payload.
pub proof fn law_received_ids_only_grow(
    stats: StatsView,
    kind: ControlKind,
    ids: Seq<Seq<u8>>,
    topics: Seq<Option<Seq<char>>>,
)
    requires
        stats.valid(),
        topics.len() == ids.len(),
    ensures
        stats.receive_ids(kind, ids, topics).valid(),
        grown(stats, stats.receive_ids(kind, ids, topics)),
        side_kept(stats, stats.receive_ids(kind, ids, topics), Side::Tx),
        payload_kept(stats, stats.receive_ids(kind, ids, topics)),
        totals_grown(stats, stats.receive_ids(kind, ids, topics)),
        stats.receive_ids(kind, ids, topics).total(Side::Tx) == stats.total(Side::Tx),
    decreases ids.len(),
{
    if ids.len() > 0 {
        let middle = stats.receive_ids(kind, ids.drop_last(), topics.drop_last());
        let after = stats.receive_ids(kind, ids, topics);
        law_received_ids_only_grow(stats, kind, ids.drop_last(), topics.drop_last());
        law_received_control_only_grows(middle, id_received(kind, ids.last(), topics.last()));
        lemma_kept_composes(stats, middle, after, Side::Tx);
    }
    law_growth_shows_in_the_totals(stats, stats.receive_ids(kind, ids, topics));
    law_kept_side_keeps_its_total(stats, stats.receive_ids(kind, ids, topics), Side::Tx);
}

/// A received message is data on its own topic and nothing else, and lowers no
/// counter.
pub proof fn law_received_message_is_data(stats: StatsView, message: RawMessageView)
    requires
        stats.valid(),
    ensures
        stats.receive_message(message).valid(),
        stats.receive_message(message).topic(message.topic) == (TrafficView {
            rx: stats.topic(message.topic).rx.add_data(message_len(message)),
            ..stats.topic(message.topic)
        }),
        grown(stats, stats.receive_message(message)),
        side_kept(stats, stats.receive_message(message), Side::Tx),
        control_kept(stats, stats.receive_message(message)),
        others_kept(stats, stats.receive_message(message), Some(message.topic)),
        totals_grown(stats, stats.receive_message(message)),
        stats.receive_message(message).total(Side::Tx) == stats.total(Side::Tx),
{
    lemma_zero_bytes();
    let bucket = stats.topic(message.topic);
    let traffic = TrafficView { rx: bucket.rx.add_data(message_len(message)), ..bucket };
    lemma_with_bucket(stats, Some(message.topic), traffic, Side::Rx);
    law_growth_shows_in_the_totals(stats, stats.receive_message(message));
    law_kept_side_keeps_its_total(stats, stats.receive_message(message), Side::Tx);
}

/// A received partial message is data and metadata on its own topic and nothing
/// else, and lowers no counter.
pub proof fn law_received_partial_is_payload(stats: StatsView, partial: PartialMessageView)
    requires
        stats.valid(),
    ensures
        stats.receive_partial(partial).valid(),
        stats.receive_partial(partial).topic(partial.topic_hash) == (TrafficView {
            rx: partial_received(
                stats.topic(partial.topic_hash).rx,
                partial.body,
                partial.metadata,
            ),
            ..stats.topic(partial.topic_hash)
        }),
        grown(stats, stats.receive_partial(partial)),
        side_kept(stats, stats.receive_partial(partial), Side::Tx),
        control_kept(stats, stats.receive_partial(partial)),
        others_kept(stats, stats.receive_partial(partial), Some(partial.topic_hash)),
        totals_grown(stats, stats.receive_partial(partial)),
        stats.receive_partial(partial).total(Side::Tx) == stats.total(Side::Tx),
{
    lemma_zero_bytes();
    let bucket = stats.topic(partial.topic_hash);
    let traffic = TrafficView {
        rx: partial_received(bucket.rx, partial.body, partial.metadata),
        ..bucket
    };
    lemma_with_bucket(stats, Some(partial.topic_hash), traffic, Side::Rx);
    law_growth_shows_in_the_totals(stats, stats.receive_partial(partial));
    law_kept_side_keeps_its_total(stats, stats.receive_partial(partial), Side::Tx);
}

/// Whether a drop may lower a counter: only the payload that was sent is corrected.
pub open spec fn corrected_by_drops(side: Side, counter: Counter) -> bool {
    side is Tx && (counter is DataBytes || counter is DataMsgs)
}

/// A drop touches nothing but the payload counters that were sent on the topic of
/// the dropped message, forgets no topic, and leaves every other counter of the totals
/// as it was.
pub proof fn law_drop_touches_one_topic(
    stats: StatsView,
    message_id: Seq<u8>,
    message: RawMessageView,
)
    requires
        stats.valid(),
    ensures
        ({
            let after = stats.unsend(RpcOutView::Publish { message_id, message });
            let tx = stats.topic(message.topic).tx;
            &&& after.valid()
            &&& after.topic(message.topic) == (TrafficView {
                tx: tx.sub_data(message_len(message)),
                ..stats.topic(message.topic)
            })
            &&& after.topic(message.topic).tx.meta_bytes == tx.meta_bytes
            &&& after.topic(message.topic).tx.meta_msgs == tx.meta_msgs
            &&& side_kept(stats, after, Side::Rx)
            &&& control_kept(stats, after)
            &&& others_kept(stats, after, Some(message.topic))
            &&& forall|topic: Seq<char>| #[trigger]
                stats.per_topic.contains_key(topic) ==> after.per_topic.contains_key(topic)
            &&& forall|counter: Counter|
                !corrected_by_drops(Side::Tx, counter) ==> #[trigger] after.total(Side::Tx).get(
                    counter,
                ) == stats.total(Side::Tx).get(counter)
            &&& after.total(Side::Rx) == stats.total(Side::Rx)
        }),
{
    lemma_zero_bytes();
    let bucket = stats.topic(message.topic);
    let traffic = TrafficView { tx: bucket.tx.sub_data(message_len(message)), ..bucket };
    lemma_with_bucket(stats, Some(message.topic), traffic, Side::Tx);
    let after = stats.unsend(RpcOutView::Publish { message_id, message });
    law_kept_side_keeps_its_total(stats, after, Side::Rx);
    assert forall|counter: Counter| !corrected_by_drops(
        Side::Tx,
        counter,
    ) implies #[trigger] after.total(Side::Tx).get(counter) == stats.total(Side::Tx).get(
        counter,
    ) by {
        assert forall|topic: Option<Seq<char>>| #[trigger]
            stats.bucket(topic).side(Side::Tx).get(counter) == after.bucket(topic).side(
            Side::Tx,
        ).get(counter) by {
            assert(topic != Some(message.topic) ==> after.bucket(topic) == stats.bucket(topic));
        }
        assert forall|topic: Option<Seq<char>>| #[trigger]
            after.bucket(topic).side(Side::Tx).get(counter) <= stats.bucket(topic).side(
            Side::Tx,
        ).get(counter) by {
            assert(stats.bucket(topic).side(Side::Tx).get(counter) == after.bucket(topic).side(
                Side::Tx,
            ).get(counter));
        }
        lemma_sum_covered(stats, after, Side::Tx, counter);
        lemma_sum_covered(after, stats, Side::Tx, counter);
        law_total_of_each_counter(stats, Side::Tx, counter);
        law_total_of_each_counter(after, Side::Tx, counter);
    }
}

/// The labels of the control kinds are distinct.
pub proof fn law_labels_are_distinct(one: ControlKind, other: ControlKind)
    requires
        one.label() == other.label(),
    ensures
        one == other,
{
    reveal_strlit("ihave");
    reveal_strlit("iwant");
    reveal_strlit("graft");
    reveal_strlit("prune");
    reveal_strlit("idontwant");
    reveal_strlit("subscription");
    reveal_strlit("extensions");
    assert("ihave"@[1] == 'h' && "ihave"@[0] == 'i');
    assert("iwant"@[1] == 'w' && "iwant"@[0] == 'i');
    assert("graft"@[0] == 'g');
    assert("prune"@[0] == 'p');
    assert("idontwant"@.len() == 9);
    assert("subscription"@.len() == 12);
    assert("extensions"@.len() == 10);
}

} // verus!
