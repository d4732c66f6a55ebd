//! What holds of batches: message ids that are received together, and frames that are
//! sent in parts.
use crate::counters::{raised, ControlKind, Counter, CountersView, TrafficView};
use crate::inbound::{id_received, ids_booked, resolved, topics_seen};
use crate::laws::{law_batch_topics_are_distinct, law_received_ids_only_grow, law_send_only_grows};
use crate::outbound::{
    batch_parts, batch_topics, classified_batch, lemma_topic_len_absent, residual_len, topic_len,
    AttributionView, ContributionView, PartView,
};
use crate::stats::StatsView;
use crate::sums::{lemma_seq_sum_only, lemma_seq_sum_zero, seq_sum};
use crate::types::{option_view, seq_view, MessageId, TopicHash};
use crate::wire::bytes_len;
use vstd::prelude::*;

verus! {

// ---------------------------------------------------------------------------
// Received ids: batches in turn, and the order of ids.
// ---------------------------------------------------------------------------

/// A batch of ids without any changes nothing.
pub proof fn law_no_ids_change_nothing<F: Fn(&MessageId) -> Option<TopicHash>>(
    resolve: F,
    kind: ControlKind,
    before: StatsView,
    after: StatsView,
)
    requires
        ids_booked(resolve, kind, Seq::empty(), before, after),
    ensures
        after == before,
{
}

/// Receiving the ids of two batches together is receiving one batch and then the
/// other.
pub proof fn law_received_batches_join(
    stats: StatsView,
    kind: ControlKind,
    first: Seq<Seq<u8>>,
    first_topics: Seq<Option<Seq<char>>>,
    second: Seq<Seq<u8>>,
    second_topics: Seq<Option<Seq<char>>>,
)
    requires
        first_topics.len() == first.len(),
        second_topics.len() == second.len(),
    ensures
        stats.receive_ids(kind, first + second, first_topics + second_topics) == stats.receive_ids(
            kind,
            first,
            first_topics,
        ).receive_ids(kind, second, second_topics),
    decreases second.len(),
{
    let ids = first + second;
    let topics = first_topics + second_topics;
    if second.len() == 0 {
        assert(ids =~= first);
        assert(topics =~= first_topics);
    } else {
        law_received_batches_join(
            stats,
            kind,
            first,
            first_topics,
            second.drop_last(),
            second_topics.drop_last(),
        );
        assert(ids.drop_last() =~= first + second.drop_last());
        assert(topics.drop_last() =~= first_topics + second_topics.drop_last());
    }
}

/// Two batches that are booked in turn are booked as one batch of the ids of both.
pub proof fn law_batches_in_turn_are_one<F: Fn(&MessageId) -> Option<TopicHash>>(
    resolve: F,
    kind: ControlKind,
    first: Seq<MessageId>,
    second: Seq<MessageId>,
    before: StatsView,
    between: StatsView,
    after: StatsView,
)
    requires
        ids_booked(resolve, kind, first, before, between),
        ids_booked(resolve, kind, second, between, after),
    ensures
        ids_booked(resolve, kind, first + second, before, after),
{
    let a = choose|topics: Seq<Option<TopicHash>>| #[trigger]
        resolved(resolve, first, topics) && between == before.receive_ids(
            kind,
            seq_view(first),
            topics_seen(topics),
        );
    let b = choose|topics: Seq<Option<TopicHash>>| #[trigger]
        resolved(resolve, second, topics) && after == between.receive_ids(
            kind,
            seq_view(second),
            topics_seen(topics),
        );
    law_received_batches_join(
        before,
        kind,
        seq_view(first),
        topics_seen(a),
        seq_view(second),
        topics_seen(b),
    );
    assert(seq_view(first + second) =~= seq_view(first) + seq_view(second));
    assert(topics_seen(a + b) =~= topics_seen(a) + topics_seen(b));
    assert(resolved(resolve, first + second, a + b));
}

/// `resolve` is a function of the id: it gives the same topic for it every time.
pub open spec fn resolves_by<F: Fn(&MessageId) -> Option<TopicHash>>(
    resolve: F,
    topic_of: spec_fn(Seq<u8>) -> Option<Seq<char>>,
) -> bool {
    forall|id: &MessageId, topic: Option<TopicHash>| #[trigger]
        call_ensures(resolve, (id,), topic) ==> option_view(topic) == topic_of(id@)
}

/// Where `resolve` is a function of the id, what a batch leads to is fixed: each id is
/// booked to the topic that the function has for it.
pub proof fn law_function_fixes_the_booking<F: Fn(&MessageId) -> Option<TopicHash>>(
    resolve: F,
    topic_of: spec_fn(Seq<u8>) -> Option<Seq<char>>,
    kind: ControlKind,
    ids: Seq<MessageId>,
    before: StatsView,
    after: StatsView,
)
    requires
        resolves_by(resolve, topic_of),
        ids_booked(resolve, kind, ids, before, after),
    ensures
        after == before.receive_ids(kind, seq_view(ids), seq_view(ids).map_values(topic_of)),
{
    let topics = choose|topics: Seq<Option<TopicHash>>| #[trigger]
        resolved(resolve, ids, topics) && after == before.receive_ids(
            kind,
            seq_view(ids),
            topics_seen(topics),
        );
    assert forall|i: int| 0 <= i < ids.len() implies #[trigger] topics_seen(topics)[i]
        == topic_of(ids[i]@) by {
        assert(call_ensures(resolve, (&ids[i],), topics[i]));
    }
    assert(topics_seen(topics) =~= seq_view(ids).map_values(topic_of));
}

/// Where `resolve` is a function of the id, booking the ids of two batches together
/// and booking one batch after the other lead to equal statistics.
pub proof fn law_split_batch_books_the_same<F: Fn(&MessageId) -> Option<TopicHash>>(
    resolve: F,
    topic_of: spec_fn(Seq<u8>) -> Option<Seq<char>>,
    kind: ControlKind,
    first: Seq<MessageId>,
    second: Seq<MessageId>,
    before: StatsView,
    together: StatsView,
    between: StatsView,
    in_turn: StatsView,
)
    requires
        resolves_by(resolve, topic_of),
        ids_booked(resolve, kind, first + second, before, together),
        ids_booked(resolve, kind, first, before, between),
        ids_booked(resolve, kind, second, between, in_turn),
    ensures
        in_turn == together,
{
    law_batches_in_turn_are_one(resolve, kind, first, second, before, between, in_turn);
    law_function_fixes_the_booking(resolve, topic_of, kind, first + second, before, together);
    law_function_fixes_the_booking(resolve, topic_of, kind, first + second, before, in_turn);
}

/// Two control messages lead to the same statistics in whatever order they are
/// received.
pub proof fn law_received_control_commutes(stats: StatsView, one: PartView, other: PartView)
    requires
        stats.valid(),
    ensures
        stats.receive_control(one).receive_control(other) == stats.receive_control(
            other,
        ).receive_control(one),
{
    let left = stats.receive_control(one).receive_control(other);
    let right = stats.receive_control(other).receive_control(one);
    let i = one.kind.position();
    let j = other.kind.position();
    assert(0 <= i < ControlKind::COUNT && 0 <= j < ControlKind::COUNT);
    assert(stats.bucket(one.topic).valid());
    if one.topic == other.topic {
        let rx = stats.bucket(one.topic).rx;
        assert(rx.add_control(one.kind, one.bytes).add_control(other.kind, other.bytes)
            =~= rx.add_control(other.kind, other.bytes).add_control(one.kind, one.bytes));
    }
    assert(left.per_topic =~= right.per_topic);
    assert(left.untopiced =~= right.untopiced);
}

/// An id of a batch may as well be received last.
proof fn lemma_id_last(
    stats: StatsView,
    kind: ControlKind,
    ids: Seq<Seq<u8>>,
    topics: Seq<Option<Seq<char>>>,
    i: int,
)
    requires
        stats.valid(),
        topics.len() == ids.len(),
        0 <= i < ids.len(),
    ensures
        stats.receive_ids(kind, ids, topics) == stats.receive_ids(
            kind,
            ids.remove(i),
            topics.remove(i),
        ).receive_control(id_received(kind, ids[i], topics[i])),
    decreases ids.len(),
{
    if i == ids.len() - 1 {
        assert(ids.remove(i) =~= ids.drop_last());
        assert(topics.remove(i) =~= topics.drop_last());
    } else {
        let ids_before = ids.drop_last();
        let topics_before = topics.drop_last();
        lemma_id_last(stats, kind, ids_before, topics_before, i);
        assert(ids.remove(i).drop_last() =~= ids_before.remove(i));
        assert(topics.remove(i).drop_last() =~= topics_before.remove(i));
        let rest = stats.receive_ids(kind, ids_before.remove(i), topics_before.remove(i));
        law_received_ids_only_grow(stats, kind, ids_before.remove(i), topics_before.remove(i));
        law_received_control_commutes(
            rest,
            id_received(kind, ids[i], topics[i]),
            id_received(kind, ids.last(), topics.last()),
        );
    }
}

/// The order of the ids of a received batch does not matter: two batches of the same
/// ids with the same topics lead to the same statistics.
pub proof fn law_order_of_ids_does_not_matter(
    stats: StatsView,
    kind: ControlKind,
    ids: Seq<Seq<u8>>,
    topics: Seq<Option<Seq<char>>>,
    other_ids: Seq<Seq<u8>>,
    other_topics: Seq<Option<Seq<char>>>,
)
    requires
        stats.valid(),
        topics.len() == ids.len(),
        other_topics.len() == other_ids.len(),
        ids.zip_with(topics).to_multiset() == other_ids.zip_with(other_topics).to_multiset(),
    ensures
        stats.receive_ids(kind, ids, topics) == stats.receive_ids(kind, other_ids, other_topics),
    decreases ids.len(),
{
    broadcast use vstd::seq_lib::group_to_multiset_ensures;

    let entries = ids.zip_with(topics);
    let other = other_ids.zip_with(other_topics);
    vstd::seq_lib::to_multiset_len(entries);
    vstd::seq_lib::to_multiset_len(other);
    if ids.len() > 0 {
        let last = ids.len() - 1;
        let entry = entries[last];
        assert(entries.contains(entry));
        assert(entries.to_multiset().count(entry) > 0);
        assert(other.contains(entry));
        let i = choose|i: int| 0 <= i < other.len() && other[i] == entry;
        assert(entries.remove(last) =~= ids.drop_last().zip_with(topics.drop_last()));
        assert(other.remove(i) =~= other_ids.remove(i).zip_with(other_topics.remove(i)));
        law_order_of_ids_does_not_matter(
            stats,
            kind,
            ids.drop_last(),
            topics.drop_last(),
            other_ids.remove(i),
            other_topics.remove(i),
        );
        lemma_id_last(stats, kind, other_ids, other_topics, i);
    }
}

/// Sequences of the same elements are mapped to sequences of the same elements.
proof fn lemma_mapped_elements<A, B>(s: Seq<A>, t: Seq<A>, f: spec_fn(A) -> B)
    requires
        s.to_multiset() == t.to_multiset(),
    ensures
        s.map_values(f).to_multiset() == t.map_values(f).to_multiset(),
    decreases s.len(),
{
    broadcast use vstd::seq_lib::group_to_multiset_ensures;

    vstd::seq_lib::to_multiset_len(s);
    vstd::seq_lib::to_multiset_len(t);
    if s.len() == 0 {
        assert(s =~= t);
    } else {
        let last = s.len() - 1;
        assert(s.contains(s[last]));
        assert(s.to_multiset().count(s[last]) > 0);
        assert(t.contains(s[last]));
        let i = choose|i: int| 0 <= i < t.len() && t[i] == s[last];
        lemma_mapped_elements(s.remove(last), t.remove(i), f);
        assert(s.map_values(f).remove(last) =~= s.remove(last).map_values(f));
        assert(t.map_values(f).remove(i) =~= t.remove(i).map_values(f));
        assert(s.map_values(f).contains(s.map_values(f)[last]));
        assert(t.map_values(f).contains(t.map_values(f)[i]));
        assert(s.map_values(f).to_multiset() =~= s.map_values(f).remove(last).to_multiset().insert(
            f(s[last]),
        ));
        assert(t.map_values(f).to_multiset() =~= t.map_values(f).remove(i).to_multiset().insert(
            f(s[last]),
        ));
    }
}

/// Where `resolve` is a function of the id, two batches of the same ids in different
/// orders lead to equal statistics.
pub proof fn law_reordered_batch_books_the_same<F: Fn(&MessageId) -> Option<TopicHash>>(
    resolve: F,
    topic_of: spec_fn(Seq<u8>) -> Option<Seq<char>>,
    kind: ControlKind,
    ids: Seq<MessageId>,
    other_ids: Seq<MessageId>,
    before: StatsView,
    after: StatsView,
    other_after: StatsView,
)
    requires
        before.valid(),
        resolves_by(resolve, topic_of),
        seq_view(ids).to_multiset() == seq_view(other_ids).to_multiset(),
        ids_booked(resolve, kind, ids, before, after),
        ids_booked(resolve, kind, other_ids, before, other_after),
    ensures
        other_after == after,
{
    let a = seq_view(ids);
    let b = seq_view(other_ids);
    let entry = |id: Seq<u8>| (id, topic_of(id));
    law_function_fixes_the_booking(resolve, topic_of, kind, ids, before, after);
    law_function_fixes_the_booking(resolve, topic_of, kind, other_ids, before, other_after);
    lemma_mapped_elements(a, b, entry);
    assert(a.zip_with(a.map_values(topic_of)) =~= a.map_values(entry));
    assert(b.zip_with(b.map_values(topic_of)) =~= b.map_values(entry));
    law_order_of_ids_does_not_matter(
        before,
        kind,
        a,
        a.map_values(topic_of),
        b,
        b.map_values(topic_of),
    );
}

// ---------------------------------------------------------------------------
// What each topic, and the untopiced bucket, gets of a batch.
// ---------------------------------------------------------------------------

/// What an id of a received batch adds to the bytes of a topic, or of none.
pub open spec fn received_share(bucket: Option<Seq<char>>) -> spec_fn(
    (Seq<u8>, Option<Seq<char>>),
) -> nat {
    |entry: (Seq<u8>, Option<Seq<char>>)|
        if entry.1 == bucket {
            bytes_len(1, entry.0)
        } else {
            0
        }
}

/// What an id of a received batch adds to the messages of a topic, or of none.
pub open spec fn received_one(bucket: Option<Seq<char>>) -> spec_fn(
    (Seq<u8>, Option<Seq<char>>),
) -> nat {
    |entry: (Seq<u8>, Option<Seq<char>>)|
        if entry.1 == bucket {
            1
        } else {
            0
        }
}

/// The bytes of the ids of a batch that resolve to a topic, or to none.
pub open spec fn received_len(
    ids: Seq<Seq<u8>>,
    topics: Seq<Option<Seq<char>>>,
    bucket: Option<Seq<char>>,
) -> nat {
    seq_sum(ids.zip_with(topics), received_share(bucket))
}

/// The number of the ids of a batch that resolve to a topic, or to none.
pub open spec fn received_count(
    ids: Seq<Seq<u8>>,
    topics: Seq<Option<Seq<char>>>,
    bucket: Option<Seq<char>>,
) -> nat {
    seq_sum(ids.zip_with(topics), received_one(bucket))
}

/// Adding no control messages changes nothing, and adding some in two steps is adding
/// all of them at once.
proof fn lemma_add_controls(
    counters: CountersView,
    kind: ControlKind,
    bytes: nat,
    msgs: nat,
    more: nat,
)
    requires
        counters.valid(),
    ensures
        counters.add_controls(kind, 0, 0) == counters,
        counters.add_controls(kind, bytes, msgs).add_control(kind, more)
            == counters.add_controls(kind, bytes + more, msgs + 1),
{
    assert(0 <= kind.position() < ControlKind::COUNT);
    assert(counters.add_controls(kind, 0, 0) =~= counters);
    assert(counters.add_controls(kind, bytes, msgs).add_control(kind, more)
        =~= counters.add_controls(kind, bytes + more, msgs + 1));
}

/// Each id of a received batch is booked to the topic it resolves to, and to the
/// untopiced bucket if it resolves to none: the receive counters of every bucket grow
/// by the bytes and the number of the ids that resolve to it, and by nothing else. A
/// topic is known afterwards if it was before or if some id resolves to it.
pub proof fn law_each_id_is_booked_to_its_topic(
    stats: StatsView,
    kind: ControlKind,
    ids: Seq<Seq<u8>>,
    topics: Seq<Option<Seq<char>>>,
    bucket: Option<Seq<char>>,
)
    requires
        stats.valid(),
        topics.len() == ids.len(),
    ensures
        stats.receive_ids(kind, ids, topics).bucket(bucket) == (TrafficView {
            rx: stats.bucket(bucket).rx.add_controls(
                kind,
                received_len(ids, topics, bucket),
                received_count(ids, topics, bucket),
            ),
            ..stats.bucket(bucket)
        }),
        bucket matches Some(topic) ==> (stats.receive_ids(kind, ids, topics).per_topic.contains_key(
            topic,
        ) <==> stats.per_topic.contains_key(topic) || topics.contains(bucket)),
    decreases ids.len(),
{
    assert(stats.bucket(bucket).valid());
    let rx = stats.bucket(bucket).rx;
    if ids.len() == 0 {
        lemma_add_controls(rx, kind, 0, 0, 0);
        assert(ids.zip_with(topics).len() == 0);
    } else {
        let ids_before = ids.drop_last();
        let topics_before = topics.drop_last();
        let entries = ids.zip_with(topics);
        law_each_id_is_booked_to_its_topic(stats, kind, ids_before, topics_before, bucket);
        assert(entries.drop_last() =~= ids_before.zip_with(topics_before));
        lemma_add_controls(
            rx,
            kind,
            received_len(ids_before, topics_before, bucket),
            received_count(ids_before, topics_before, bucket),
            bytes_len(1, ids.last()),
        );
        assert(topics.contains(bucket) <==> topics_before.contains(bucket) || topics.last()
            == bucket) by {
            assert(topics =~= topics_before.push(topics.last()));
            if topics_before.contains(bucket) {
                let i = choose|i: int|
                    0 <= i < topics_before.len() && topics_before[i] == bucket;
                assert(topics[i] == bucket);
            }
            if topics.last() == bucket {
                assert(topics[topics.len() - 1] == bucket);
            }
        }
    }
}

/// What a part of a frame adds to the bytes of one kind in a bucket.
pub open spec fn sent_share(bucket: Option<Seq<char>>, kind: ControlKind) -> spec_fn(
    PartView,
) -> nat {
    |part: PartView|
        if part.topic == bucket && part.kind == kind {
            part.bytes
        } else {
            0
        }
}

/// What a part of a frame adds to the messages of one kind in a bucket.
pub open spec fn sent_one(bucket: Option<Seq<char>>, kind: ControlKind) -> spec_fn(PartView) -> nat {
    |part: PartView|
        if part.topic == bucket && part.kind == kind {
            1
        } else {
            0
        }
}

/// Each part of a frame is booked to its own bucket: the send counters of one kind in
/// every bucket grow by the bytes and the number of the parts of that kind for it.
pub proof fn law_each_part_is_booked_to_its_bucket(
    stats: StatsView,
    parts: Seq<PartView>,
    bucket: Option<Seq<char>>,
    kind: ControlKind,
)
    requires
        stats.valid(),
    ensures
        ({
            let before = stats.bucket(bucket).tx;
            let after = stats.send_parts(parts).bucket(bucket).tx;
            &&& after.get(Counter::ControlBytes(kind)) == raised(
                before.get(Counter::ControlBytes(kind)),
                seq_sum(parts, sent_share(bucket, kind)),
            )
            &&& after.get(Counter::ControlMsgs(kind)) == raised(
                before.get(Counter::ControlMsgs(kind)),
                seq_sum(parts, sent_one(bucket, kind)),
            )
        }),
    decreases parts.len(),
{
    if parts.len() > 0 {
        let middle = stats.send_parts(parts.drop_last());
        let part = parts.last();
        law_each_part_is_booked_to_its_bucket(stats, parts.drop_last(), bucket, kind);
        law_send_only_grows(stats, ContributionView::Many(parts.drop_last()));
        assert(middle.bucket(bucket).valid());
        assert(part.kind.position() == kind.position() ==> part.kind == kind);
        assert(0 <= kind.position() < ControlKind::COUNT);
    }
}

/// A batch of ids that is sent with a topic for each message is booked id by id: each
/// topic gets the bytes of its ids as one message, or nothing if it has no id in the
/// batch, and the untopiced bucket gets what remains.
pub proof fn law_sent_ids_are_booked_to_their_topics(
    stats: StatsView,
    kind: ControlKind,
    total: nat,
    ids: Seq<Seq<u8>>,
    map: Map<Seq<u8>, Seq<char>>,
    topic: Seq<char>,
)
    requires
        stats.valid(),
    ensures
        ({
            let after = stats.send(
                classified_batch(kind, total, ids, AttributionView::PerMessage(map)),
            );
            let bytes = Counter::ControlBytes(kind);
            let msgs = Counter::ControlMsgs(kind);
            let residual = residual_len(total, ids, map);
            &&& after.topic(topic).tx.get(bytes) == raised(
                stats.topic(topic).tx.get(bytes),
                topic_len(ids, map, topic),
            )
            &&& after.topic(topic).tx.get(msgs) == raised(
                stats.topic(topic).tx.get(msgs),
                if batch_topics(ids, map).contains(topic) {
                    1
                } else {
                    0
                },
            )
            &&& after.untopiced.tx.get(bytes) == raised(stats.untopiced.tx.get(bytes), residual)
            &&& after.untopiced.tx.get(msgs) == raised(
                stats.untopiced.tx.get(msgs),
                if residual > 0 || batch_topics(ids, map).len() == 0 {
                    1
                } else {
                    0
                },
            )
        }),
{
    let parts = batch_parts(kind, total, ids, map);
    let topics = batch_topics(ids, map);
    let residual = residual_len(total, ids, map);
    law_batch_topics_are_distinct(kind, total, ids, map);
    law_each_part_is_booked_to_its_bucket(stats, parts, Some(topic), kind);
    law_each_part_is_booked_to_its_bucket(stats, parts, None, kind);
    assert forall|i: int| 0 <= i < topics.len() implies (#[trigger] parts[i]).topic == Some(
        topics[i],
    ) && parts[i].kind == kind by {}
    if topics.contains(topic) {
        let j = choose|j: int| 0 <= j < topics.len() && topics[j] == topic;
        assert(parts[j].topic == Some(topic));
        lemma_seq_sum_only(parts, j, sent_share(Some(topic), kind));
        lemma_seq_sum_only(parts, j, sent_one(Some(topic), kind));
    } else {
        lemma_topic_len_absent(ids, map, topic);
        assert forall|i: int| 0 <= i < parts.len() implies (#[trigger] parts[i]).topic != Some(
            topic,
        ) by {
            if i < topics.len() {
                assert(topics.contains(topics[i]));
            }
        }
        lemma_seq_sum_zero(parts, sent_share(Some(topic), kind));
        lemma_seq_sum_zero(parts, sent_one(Some(topic), kind));
    }
    if residual > 0 || topics.len() == 0 {
        lemma_seq_sum_only(parts, topics.len() as int, sent_share(None, kind));
        lemma_seq_sum_only(parts, topics.len() as int, sent_one(None, kind));
    } else {
        lemma_seq_sum_zero(parts, sent_share(None, kind));
        lemma_seq_sum_zero(parts, sent_one(None, kind));
    }
}

} // verus!
