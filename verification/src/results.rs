//! What callers get: for every call of an operation, what its result or the new state is,
//! in terms of what was passed in.
use crate::convert::{control_encoded_len, message_encoded_len, message_len, protobuf};
use crate::counters::{
    capped, lowered, raised, ControlKind, Counter, CountersView, DirectionalTraffic, Side,
    TrafficCounters,
};
use crate::inbound::{
    account_inbound_control, account_inbound_id_batch, account_inbound_message,
    account_inbound_partial, account_inbound_subscription, ids_booked,
};
use crate::map::{Key, KeyedMap};
use crate::outbound::{
    account_outbound_dropped, classified_batch, classify_id_batch, classify_outbound,
    Attribution, AttributionView, Contribution, ContributionView, PartView,
};
use crate::proto::Rpc;
use crate::rules::{
    law_control_is_booked, law_control_is_classified, law_ids_are_classified,
    law_totals_are_of_every_kind, law_totals_are_sums,
};
use crate::sizes::{
    framed, framed_id, framed_peer, framed_topic, law_message_size_is_of_its_fields,
    law_received_subscription_size, law_sent_control_sizes,
};
use crate::stats::GossipTrafficStats;
use crate::sums::seq_sum;
use crate::types::{
    clone_control, seq_view, ControlAction, MessageId, PartialMessage, PeerId, RawMessage,
    RawMessageView, RpcOut, RpcOutView, Subscription, SubscriptionAction, TopicHash,
};
use crate::wire::{len_delimited_field_len, varint_len};
use vstd::prelude::*;
use vstd::std_specs::cmp::PartialEqSpec;

verus! {

// ---------------------------------------------------------------------------
// Counters.
// ---------------------------------------------------------------------------

/// The index of a kind is its number, and its name its label.
pub proof fn law_index_and_name_of_a_kind(kind: ControlKind, i: usize, name: &'static str)
    ensures
        call_ensures(ControlKind::index, (kind,), i) ==> i == (match kind {
            ControlKind::IHave => 0int,
            ControlKind::IWant => 1,
            ControlKind::Graft => 2,
            ControlKind::Prune => 3,
            ControlKind::IDontWant => 4,
            ControlKind::Subscription => 5,
            ControlKind::Extensions => 6,
        }),
        call_ensures(ControlKind::as_str, (kind,), name) ==> name@ == (match kind {
            ControlKind::IHave => "ihave"@,
            ControlKind::IWant => "iwant"@,
            ControlKind::Graft => "graft"@,
            ControlKind::Prune => "prune"@,
            ControlKind::IDontWant => "idontwant"@,
            ControlKind::Subscription => "subscription"@,
            ControlKind::Extensions => "extensions"@,
        }),
{
}

/// Counters that are raised and lowered: payload, metadata and each control kind apart.
pub proof fn law_counters_are_raised()
    ensures
        forall|counters: &mut TrafficCounters, bytes: usize| #[trigger]
            call_ensures(TrafficCounters::add_data, (counters, bytes), ()) ==> (*final(counters))@
                == (CountersView {
                data_bytes: raised(counters.data_bytes, bytes as nat),
                data_msgs: raised(counters.data_msgs, 1),
                ..(*counters)@
            }),
        forall|counters: &mut TrafficCounters, bytes: usize| #[trigger]
            call_ensures(TrafficCounters::sub_data, (counters, bytes), ()) ==> (*final(counters))@
                == (CountersView {
                data_bytes: lowered(counters.data_bytes, bytes as nat),
                data_msgs: lowered(counters.data_msgs, 1),
                ..(*counters)@
            }),
        forall|counters: &mut TrafficCounters, bytes: usize| #[trigger]
            call_ensures(TrafficCounters::add_meta, (counters, bytes), ()) ==> (*final(counters))@
                == (CountersView {
                meta_bytes: raised(counters.meta_bytes, bytes as nat),
                meta_msgs: raised(counters.meta_msgs, 1),
                ..(*counters)@
            }),
        forall|counters: &mut TrafficCounters, kind: ControlKind, bytes: usize| #[trigger]
            call_ensures(TrafficCounters::add_control, (counters, kind, bytes), ())
                ==> (*final(counters))@ == (*counters)@.add_control(kind, bytes as nat),
{
}

/// The totals of counters are sums of all seven kinds, and of payload, metadata and
/// control.
pub proof fn law_totals_of_counters(counters: &TrafficCounters, total: u64)
    requires
        counters@.valid(),
    ensures
        ({
            let b = counters.control_bytes@;
            let m = counters.control_msgs@;
            let bytes = b[0] + b[1] + b[2] + b[3] + b[4] + b[5] + b[6];
            &&& call_ensures(TrafficCounters::control_bytes_total, (counters,), total) ==> total
                == bytes
            &&& call_ensures(TrafficCounters::control_msgs_total, (counters,), total) ==> total
                == m[0] + m[1] + m[2] + m[3] + m[4] + m[5] + m[6]
            &&& call_ensures(TrafficCounters::total_bytes, (counters,), total) ==> total == capped(
                (counters.data_bytes + counters.meta_bytes + bytes) as nat,
            )
        }),
{
    law_totals_are_of_every_kind(counters@);
}

// ---------------------------------------------------------------------------
// Statistics.
// ---------------------------------------------------------------------------

/// New statistics hold nothing.
pub proof fn law_new_statistics_are_empty(stats: GossipTrafficStats)
    requires
        call_ensures(GossipTrafficStats::new, (), stats),
    ensures
        stats.wf(),
        stats@.per_topic == Map::<Seq<char>, crate::counters::TrafficView>::empty(),
        stats@.untopiced.tx == CountersView::zero(),
        stats@.untopiced.rx == CountersView::zero(),
{
}

/// What is lent for change are the counters of one direction of one topic, and what
/// becomes of them is all that changes.
pub proof fn law_counters_are_lent()
    ensures
        forall|stats: &mut GossipTrafficStats, topic: &TopicHash, counters: &mut TrafficCounters|
            #[trigger]
            call_ensures(GossipTrafficStats::tx_mut, (stats, topic), counters) ==> {
                let rest = (*stats)@.topic(topic@).rx;
                &&& (*counters)@ == (*stats)@.topic(topic@).tx
                &&& (*final(stats))@.per_topic == (*stats)@.per_topic.insert(
                    topic@,
                    crate::counters::TrafficView { tx: (*final(counters))@, rx: rest },
                )
                &&& (*final(stats))@.untopiced == (*stats)@.untopiced
            },
        forall|stats: &mut GossipTrafficStats, topic: &TopicHash, counters: &mut TrafficCounters|
            #[trigger]
            call_ensures(GossipTrafficStats::rx_mut, (stats, topic), counters) ==> {
                let rest = (*stats)@.topic(topic@).tx;
                &&& (*counters)@ == (*stats)@.topic(topic@).rx
                &&& (*final(stats))@.per_topic == (*stats)@.per_topic.insert(
                    topic@,
                    crate::counters::TrafficView { tx: rest, rx: (*final(counters))@ },
                )
                &&& (*final(stats))@.untopiced == (*stats)@.untopiced
            },
{
}

/// Each counter of a total is the sum of that counter of its own direction, as far as a
/// counter can hold it.
pub proof fn law_totals_of_statistics(
    stats: &GossipTrafficStats,
    tx: TrafficCounters,
    rx: TrafficCounters,
    kind: ControlKind,
)
    requires
        call_ensures(GossipTrafficStats::total_tx, (stats,), tx),
        call_ensures(GossipTrafficStats::total_rx, (stats,), rx),
    ensures
        tx.data_bytes == capped(stats@.sum(Side::Tx, Counter::DataBytes)),
        tx.data_msgs == capped(stats@.sum(Side::Tx, Counter::DataMsgs)),
        tx.meta_bytes == capped(stats@.sum(Side::Tx, Counter::MetaBytes)),
        tx.meta_msgs == capped(stats@.sum(Side::Tx, Counter::MetaMsgs)),
        tx.control_bytes@[kind.position()] == capped(
            stats@.sum(Side::Tx, Counter::ControlBytes(kind)),
        ),
        tx.control_msgs@[kind.position()] == capped(
            stats@.sum(Side::Tx, Counter::ControlMsgs(kind)),
        ),
        rx.data_bytes == capped(stats@.sum(Side::Rx, Counter::DataBytes)),
        rx.data_msgs == capped(stats@.sum(Side::Rx, Counter::DataMsgs)),
        rx.meta_bytes == capped(stats@.sum(Side::Rx, Counter::MetaBytes)),
        rx.meta_msgs == capped(stats@.sum(Side::Rx, Counter::MetaMsgs)),
        rx.control_bytes@[kind.position()] == capped(
            stats@.sum(Side::Rx, Counter::ControlBytes(kind)),
        ),
        rx.control_msgs@[kind.position()] == capped(
            stats@.sum(Side::Rx, Counter::ControlMsgs(kind)),
        ),
{
    law_totals_are_sums(stats@, Side::Tx, kind);
    law_totals_are_sums(stats@, Side::Rx, kind);
    assert(tx@.data_bytes == tx.data_bytes);
    assert(rx@.data_bytes == rx.data_bytes);
}

/// What a map gives back is what it holds.
pub proof fn law_maps_give_back<K: Key, V>(
    map: &KeyedMap<K, V>,
    key: &K,
    value: Option<&V>,
    values: Vec<&V>,
    i: usize,
    first: &K,
)
    ensures
        call_ensures(KeyedMap::<K, V>::get, (map, key), value) ==> (match value {
            Some(v) => map@.contains_key(key@) && map@[key@] == *v,
            None => !map@.contains_key(key@),
        }),
        call_ensures(KeyedMap::<K, V>::values, (map,), values) ==> values@.len()
            == map.keys().len() && (forall|j: int|
            0 <= j < values@.len() ==> *(#[trigger] values@[j]) == map@[map.keys()[j]]),
        call_ensures(KeyedMap::<K, V>::key_at, (map, i), first) ==> first@ == map.keys()[i as int],
{
}

/// A map with a key set has the new value there and all else as it was, gives back the
/// value that the key had, and knows its keys and how many they are.
pub proof fn law_maps_take_in<K: Key, V>(map: &KeyedMap<K, V>, key: &K, found: bool, len: usize)
    ensures
        forall|before: &mut KeyedMap<K, V>, k: K, value: V, previous: Option<V>| #[trigger]
            call_ensures(KeyedMap::<K, V>::insert, (before, k, value), previous) ==> {
                &&& (*final(before))@ == (*before)@.insert(k@, value)
                &&& previous == (if (*before)@.contains_key(k@) {
                    Some((*before)@[k@])
                } else {
                    None
                })
            },
        call_ensures(KeyedMap::<K, V>::contains_key, (map, key), found) ==> found
            == map@.contains_key(key@),
        call_ensures(KeyedMap::<K, V>::len, (map,), len) ==> len == map@.dom().len(),
        forall|empty: KeyedMap<K, V>| #[trigger]
            call_ensures(KeyedMap::<K, V>::new, (), empty) ==> empty.wf() && empty@
                == Map::<K::V, V>::empty(),
{
}

/// A name, an id and a peer keep what they are made of.
pub proof fn law_names_keep_their_contents(
    hash: String,
    topic: TopicHash,
    text: &str,
    bytes: &[u8],
    id: MessageId,
    multihash: Vec<u8>,
    peer: PeerId,
)
    ensures
        call_ensures(TopicHash::from_raw, (hash,), topic) ==> topic@ == hash@,
        call_ensures(TopicHash::into_string, (topic,), hash) ==> hash@ == topic@,
        call_ensures(TopicHash::as_str, (&topic,), text) ==> text@ == topic@,
        call_ensures(MessageId::new, (bytes,), id) ==> id@ == bytes@,
        call_ensures(PeerId::from_bytes, (multihash,), peer) ==> peer@ == multihash@,
        call_ensures(PeerId::to_bytes, (&peer,), multihash) ==> multihash@ == peer@,
{
}

/// A copy of statistics accounts for the same traffic.
pub proof fn law_copies_of_statistics(stats: &GossipTrafficStats, copy: GossipTrafficStats)
    requires
        stats.wf(),
        cloned(*stats, copy),
    ensures
        copy.wf(),
        copy@ == stats@,
{
}

/// Equality of counters, of entries and of statistics is what it says in contracts.
pub proof fn law_equality_is_stated()
    ensures
        <TrafficCounters as PartialEqSpec>::obeys_eq_spec(),
        <DirectionalTraffic as PartialEqSpec>::obeys_eq_spec(),
        <GossipTrafficStats as PartialEqSpec>::obeys_eq_spec(),
{
}

// ---------------------------------------------------------------------------
// Sizes.
// ---------------------------------------------------------------------------

/// The measured size of a field is its payload, the length of the payload as a varint,
/// and one byte.
pub proof fn law_measured_field(len: usize, total: usize)
    requires
        call_ensures(len_delimited_field_len, (len,), total),
    ensures
        total == 1 + varint_len(len as nat) + len,
{
}

/// The measured size of a published message is the sum of the sizes of its fields, each
/// of which counts on its own.
pub proof fn law_measured_message(message: &RawMessage, len: usize)
    requires
        call_ensures(message_encoded_len, (message,), len),
    ensures
        len == framed_topic(message.topic@) + framed(message.data@.len()) + (
        match message.source {
            Some(source) => framed(source@.len()),
            None => 0,
        }) + (if message.sequence_number is Some {
            10nat
        } else {
            0
        }) + (match message.signature {
            Some(signature) => framed(signature@.len()),
            None => 0,
        }) + (match message.key {
            Some(key) => framed(key@.len()),
            None => 0,
        }),
{
    law_message_size_is_of_its_fields(message@);
}

/// A signature, a key, a source or a sequence number that one of two otherwise equal
/// messages has and the other lacks makes the measured difference, whatever the other
/// fields hold.
pub proof fn law_measured_messages_differ_by_a_field(
    bare: &RawMessage,
    full: &RawMessage,
    bare_len: usize,
    full_len: usize,
    bytes: Seq<u8>,
)
    requires
        call_ensures(message_encoded_len, (bare,), bare_len),
        call_ensures(message_encoded_len, (full,), full_len),
    ensures
        bare.signature is None && full@ == (RawMessageView { signature: Some(bytes), ..bare@ })
            ==> full_len == bare_len + framed(bytes.len()),
        bare.key is None && full@ == (RawMessageView { key: Some(bytes), ..bare@ }) ==> full_len
            == bare_len + framed(bytes.len()),
        bare.source is None && full@ == (RawMessageView { source: Some(bytes), ..bare@ })
            ==> full_len == bare_len + framed(bytes.len()),
        bare.sequence_number is None && full@ == (RawMessageView {
            sequence_number: full.sequence_number,
            ..bare@
        }) && full.sequence_number is Some ==> full_len == bare_len + 10,
{
    assert(bare@.signature is None <==> bare.signature is None);
    assert(bare@.key is None <==> bare.key is None);
    assert(bare@.source is None <==> bare.source is None);
    law_message_size_is_of_its_fields(bare@);
    law_message_size_is_of_its_fields(full@);
}

/// The measured size of a control RPC, from what it holds.
pub proof fn law_measured_control(rpc: &RpcOut, len: usize)
    requires
        call_ensures(control_encoded_len, (rpc,), len),
    ensures
        match rpc@ {
            RpcOutView::Publish { .. } => len == 0,
            RpcOutView::PartialMessage(_) => len == 0,
            RpcOutView::Subscribe { topic, .. } => len == framed(framed_topic(topic) + 6),
            RpcOutView::Unsubscribe(topic) => len == framed(framed_topic(topic) + 2),
            RpcOutView::Graft(topic) => len == framed(framed(framed_topic(topic))),
            RpcOutView::Prune(prune) => len == framed(
                framed(
                    framed_topic(prune.topic_hash) + seq_sum(prune.peers, framed_peer()) + (
                    match prune.backoff {
                        Some(backoff) => 1 + varint_len(backoff as nat),
                        None => 0,
                    }),
                ),
            ),
            RpcOutView::IHave(ihave) => len == framed(
                framed(framed_topic(ihave.topic_hash) + seq_sum(ihave.message_ids, framed_id())),
            ),
            RpcOutView::IWant(ids) => len == framed(framed(seq_sum(ids, framed_id()))),
            RpcOutView::IDontWant(ids) => len == framed(framed(seq_sum(ids, framed_id()))),
            RpcOutView::Extensions(extensions) => len == (if extensions.partial_messages is Some {
                6int
            } else {
                4
            }),
            RpcOutView::TestExtension => len == 5,
            RpcOutView::SubscribeMany(topics) => len == crate::convert::control_len(
                RpcOutView::SubscribeMany(topics),
            ),
        },
{
    law_control_is_classified(rpc@, AttributionView::Untopiced);
    match rpc@ {
        RpcOutView::IWant(ids) => {
            law_sent_control_sizes(
                Seq::empty(),
                false,
                false,
                arbitrary(),
                arbitrary(),
                ids,
                arbitrary(),
            );
        },
        RpcOutView::IDontWant(ids) => {
            law_sent_control_sizes(
                Seq::empty(),
                false,
                false,
                arbitrary(),
                arbitrary(),
                ids,
                arbitrary(),
            );
        },
        _ => {},
    }
}

/// A copy is made of every RPC of the control class, equal to it, and of no other.
pub proof fn law_copies_of_control(rpc: &RpcOut, copy: Option<RpcOut>, written: Rpc)
    ensures
        call_ensures(clone_control, (rpc,), copy) ==> (match copy {
            Some(c) => c@ == rpc@ && !(rpc is Publish) && !(rpc is PartialMessage),
            None => rpc is Publish || rpc is PartialMessage,
        }),
        call_ensures(RpcOut::into_protobuf, (*rpc,), written) ==> written@ == protobuf(rpc@),
{
}

// ---------------------------------------------------------------------------
// Sending.
// ---------------------------------------------------------------------------

/// The kind, topic and size of what an outbound RPC is classified as, by what it is.
pub proof fn law_result_of_classifying(
    rpc: &RpcOut,
    attribution: Attribution<'_>,
    contribution: Contribution,
)
    requires
        call_ensures(classify_outbound, (rpc, attribution), contribution),
    ensures
        match rpc@ {
            RpcOutView::Publish { message, .. } => contribution@ == (ContributionView::Data {
                topic: message.topic,
                bytes: message_len(message),
            }),
            RpcOutView::PartialMessage(partial) => contribution@ == (ContributionView::Partial {
                topic: partial.topic_hash,
                body: match partial.body {
                    Some(body) => body.len(),
                    None => 0,
                },
                meta: match partial.metadata {
                    Some(metadata) => metadata.len(),
                    None => 0,
                },
            }),
            RpcOutView::Subscribe { topic, .. } => contribution@ matches ContributionView::Control(
                part,
            ) && part.kind == ControlKind::Subscription && part.topic == Some(topic) && part.bytes
                == framed(framed_topic(topic) + 6),
            RpcOutView::SubscribeMany(topics) => contribution@ matches ContributionView::Many(parts)
                && parts.len() == topics.len() && (forall|i: int|
                0 <= i < parts.len() ==> (#[trigger] parts[i]).kind == ControlKind::Subscription
                    && parts[i].topic == Some(topics[i].0) && parts[i].bytes == framed(
                    framed_topic(topics[i].0) + 6,
                )),
            RpcOutView::Unsubscribe(topic) => contribution@ matches ContributionView::Control(part)
                && part.kind == ControlKind::Subscription && part.topic == Some(topic)
                && part.bytes == framed(framed_topic(topic) + 2),
            RpcOutView::Graft(topic) => contribution@ matches ContributionView::Control(part)
                && part.kind == ControlKind::Graft && part.topic == Some(topic) && part.bytes
                == framed(framed(framed_topic(topic))),
            RpcOutView::Prune(prune) => contribution@ matches ContributionView::Control(part)
                && part.kind == ControlKind::Prune && part.topic == Some(prune.topic_hash)
                && part.bytes == framed(
                framed(
                    framed_topic(prune.topic_hash) + seq_sum(prune.peers, framed_peer()) + (
                    match prune.backoff {
                        Some(backoff) => 1 + varint_len(backoff as nat),
                        None => 0,
                    }),
                ),
            ),
            RpcOutView::IHave(ihave) => contribution@ matches ContributionView::Control(part)
                && part.kind == ControlKind::IHave && part.topic == Some(ihave.topic_hash)
                && part.bytes == framed(
                framed(framed_topic(ihave.topic_hash) + seq_sum(ihave.message_ids, framed_id())),
            ),
            RpcOutView::IWant(ids) => contribution@ == classified_batch(
                ControlKind::IWant,
                framed(framed(seq_sum(ids, framed_id()))),
                ids,
                attribution@,
            ),
            RpcOutView::IDontWant(ids) => contribution@ == classified_batch(
                ControlKind::IDontWant,
                framed(framed(seq_sum(ids, framed_id()))),
                ids,
                attribution@,
            ),
            RpcOutView::Extensions(extensions) => contribution@ matches ContributionView::Control(
                part,
            ) && part.kind == ControlKind::Extensions && part.topic is None && part.bytes == (
            if extensions.partial_messages is Some {
                6int
            } else {
                4
            }),
            RpcOutView::TestExtension => contribution@ matches ContributionView::Control(part)
                && part.kind == ControlKind::Extensions && part.topic is None && part.bytes == 5,
        },
{
    law_control_is_classified(rpc@, attribution@);
    match rpc@ {
        RpcOutView::IWant(ids) => {
            law_ids_are_classified(ids, attribution@);
        },
        RpcOutView::IDontWant(ids) => {
            law_ids_are_classified(ids, attribution@);
        },
        RpcOutView::SubscribeMany(topics) => {
            crate::rules::law_subscriptions_are_classified(topics, attribution@);
        },
        _ => {},
    }
}

/// What a batch of ids is classified as: a batch of the given kind and size.
pub proof fn law_result_of_classifying_a_batch(
    kind: ControlKind,
    total: usize,
    message_ids: &[MessageId],
    attribution: Attribution<'_>,
    contribution: Contribution,
)
    requires
        call_ensures(classify_id_batch, (kind, total, message_ids, attribution), contribution),
    ensures
        match attribution@ {
            AttributionView::Topic(topic) => contribution@ == ContributionView::Control(
                PartView { topic: Some(topic), kind, bytes: total as nat },
            ),
            AttributionView::Untopiced => contribution@ == ContributionView::Control(
                PartView { topic: None, kind, bytes: total as nat },
            ),
            AttributionView::PerMessage(map) => contribution@ == ContributionView::Many(
                crate::outbound::batch_parts(kind, total as nat, seq_view(message_ids@), map),
            ),
        },
{
}

/// Committing a contribution books all of it, and a drop takes back a publish and nothing
/// else.
pub proof fn law_result_of_committing()
    ensures
        forall|contribution: Contribution, stats: &mut GossipTrafficStats| #[trigger]
            call_ensures(Contribution::apply_tx, (contribution, stats), ()) ==> (*final(stats))@
                == (*stats)@.send(contribution@),
        forall|stats: &mut GossipTrafficStats, rpc: &RpcOut| #[trigger]
            call_ensures(account_outbound_dropped, (stats, rpc), ()) ==> (match rpc@ {
                RpcOutView::Publish { message, .. } => (*final(stats))@ == (*stats)@.with_tx(
                    Some(message.topic),
                    (*stats)@.topic(message.topic).tx.sub_data(message_len(message)),
                ),
                _ => (*final(stats))@ == (*stats)@,
            }),
{
}

// ---------------------------------------------------------------------------
// Receiving.
// ---------------------------------------------------------------------------

/// A received message is booked as payload of its encoded size on its topic, and a
/// received partial message as its body and its metadata.
pub proof fn law_result_of_receiving_payload()
    ensures
        forall|stats: &mut GossipTrafficStats, message: &RawMessage| #[trigger]
            call_ensures(account_inbound_message, (stats, message), ()) ==> (*final(stats))@
                == (*stats)@.with_rx(
                Some(message.topic@),
                (*stats)@.topic(message.topic@).rx.add_data(message_len(message@)),
            ),
        forall|stats: &mut GossipTrafficStats, partial: &PartialMessage| #[trigger]
            call_ensures(account_inbound_partial, (stats, partial), ()) ==> {
                let old_rx = (*stats)@.topic(partial.topic_hash@).rx;
                (*final(stats))@ == (*stats)@.with_rx(
                    Some(partial.topic_hash@),
                    CountersView {
                        data_bytes: match partial.body {
                            Some(body) => raised(old_rx.data_bytes, body@.len()),
                            None => old_rx.data_bytes,
                        },
                        data_msgs: match partial.body {
                            Some(_) => raised(old_rx.data_msgs, 1),
                            None => old_rx.data_msgs,
                        },
                        meta_bytes: match partial.metadata {
                            Some(metadata) => raised(old_rx.meta_bytes, metadata@.len()),
                            None => old_rx.meta_bytes,
                        },
                        meta_msgs: match partial.metadata {
                            Some(_) => raised(old_rx.meta_msgs, 1),
                            None => old_rx.meta_msgs,
                        },
                        ..old_rx
                    },
                )
            },
{
}

/// A received announcement, of either action and with any options, is booked as one
/// subscription message on the topic it names.
pub proof fn law_result_of_receiving_an_announcement()
    ensures
        forall|stats: &mut GossipTrafficStats, subscription: &Subscription| #[trigger]
            call_ensures(account_inbound_subscription, (stats, subscription), ())
                ==> (*final(stats))@ == (*stats)@.receive_control(
                PartView {
                    topic: Some(subscription.topic_hash@),
                    kind: ControlKind::Subscription,
                    bytes: framed(
                        framed_topic(subscription.topic_hash@) + (if subscription.action
                            == SubscriptionAction::Subscribe {
                            6nat
                        } else {
                            2
                        }),
                    ),
                },
            ),
{
    assert forall|stats: &mut GossipTrafficStats, subscription: &Subscription| #[trigger]
        call_ensures(
            account_inbound_subscription,
            (stats, subscription),
            (),
        ) implies (*final(stats))@ == (*stats)@.receive_control(
        PartView {
            topic: Some(subscription.topic_hash@),
            kind: ControlKind::Subscription,
            bytes: framed(
                framed_topic(subscription.topic_hash@) + (if subscription.action
                    == SubscriptionAction::Subscribe {
                    6nat
                } else {
                    2
                }),
            ),
        },
    ) by {
        law_received_subscription_size(subscription@);
    }
}

/// What receiving a control message does, by what it is: the ids of IWANT and IDONTWANT
/// are booked under their own kind, and the others as one message of their own kind on
/// the topic that they name.
pub proof fn law_result_of_receiving_control<F: Fn(&MessageId) -> Option<TopicHash>>()
    ensures
        forall|stats: &mut GossipTrafficStats, control: &ControlAction, resolve: F| #[trigger]
            call_ensures(account_inbound_control::<F>, (stats, control, resolve), ()) ==> (
            match *control {
                ControlAction::IWant(iwant) => ids_booked(
                    resolve,
                    ControlKind::IWant,
                    iwant.message_ids@,
                    (*stats)@,
                    (*final(stats))@,
                ),
                ControlAction::IDontWant(idontwant) => ids_booked(
                    resolve,
                    ControlKind::IDontWant,
                    idontwant.message_ids@,
                    (*stats)@,
                    (*final(stats))@,
                ),
                ControlAction::IHave(ihave) => (*final(stats))@ == (*stats)@.receive_control(
                    PartView {
                        topic: Some(ihave.topic_hash@),
                        kind: ControlKind::IHave,
                        bytes: framed(
                            framed_topic(ihave.topic_hash@) + seq_sum(
                                seq_view(ihave.message_ids@),
                                framed_id(),
                            ),
                        ),
                    },
                ),
                ControlAction::Graft(graft) => (*final(stats))@ == (*stats)@.receive_control(
                    PartView {
                        topic: Some(graft.topic_hash@),
                        kind: ControlKind::Graft,
                        bytes: framed(framed_topic(graft.topic_hash@)),
                    },
                ),
                ControlAction::Prune(prune) => (*final(stats))@ == (*stats)@.receive_control(
                    PartView {
                        topic: Some(prune.topic_hash@),
                        kind: ControlKind::Prune,
                        bytes: framed(
                            framed_topic(prune.topic_hash@) + seq_sum(
                                seq_view(prune.peers@),
                                framed_peer(),
                            ) + (match prune.backoff {
                                Some(backoff) => 1 + varint_len(backoff as nat),
                                None => 0,
                            }),
                        ),
                    },
                ),
                ControlAction::Extensions(extensions) => (*final(stats))@
                    == (*stats)@.receive_control(
                    PartView {
                        topic: None,
                        kind: ControlKind::Extensions,
                        bytes: match extensions {
                            Some(e) => if e.partial_messages is Some {
                                4
                            } else {
                                2
                            },
                            None => 2,
                        },
                    },
                ),
            }),
        forall|
            stats: &mut GossipTrafficStats,
            kind: ControlKind,
            message_ids: &[MessageId],
            resolve: F,
        | #[trigger]
            call_ensures(
                account_inbound_id_batch::<F>,
                (stats, kind, message_ids, resolve),
                (),
            ) ==> ids_booked(resolve, kind, message_ids@, (*stats)@, (*final(stats))@),
{
    assert forall|stats: &mut GossipTrafficStats, control: &ControlAction, resolve: F| #[trigger]
            call_ensures(account_inbound_control::<F>, (stats, control, resolve), ()) implies (
            match *control {
                ControlAction::IWant(iwant) => ids_booked(
                    resolve,
                    ControlKind::IWant,
                    iwant.message_ids@,
                    (*stats)@,
                    (*final(stats))@,
                ),
                ControlAction::IDontWant(idontwant) => ids_booked(
                    resolve,
                    ControlKind::IDontWant,
                    idontwant.message_ids@,
                    (*stats)@,
                    (*final(stats))@,
                ),
                ControlAction::IHave(ihave) => (*final(stats))@ == (*stats)@.receive_control(
                    PartView {
                        topic: Some(ihave.topic_hash@),
                        kind: ControlKind::IHave,
                        bytes: framed(
                            framed_topic(ihave.topic_hash@) + seq_sum(
                                seq_view(ihave.message_ids@),
                                framed_id(),
                            ),
                        ),
                    },
                ),
                ControlAction::Graft(graft) => (*final(stats))@ == (*stats)@.receive_control(
                    PartView {
                        topic: Some(graft.topic_hash@),
                        kind: ControlKind::Graft,
                        bytes: framed(framed_topic(graft.topic_hash@)),
                    },
                ),
                ControlAction::Prune(prune) => (*final(stats))@ == (*stats)@.receive_control(
                    PartView {
                        topic: Some(prune.topic_hash@),
                        kind: ControlKind::Prune,
                        bytes: framed(
                            framed_topic(prune.topic_hash@) + seq_sum(
                                seq_view(prune.peers@),
                                framed_peer(),
                            ) + (match prune.backoff {
                                Some(backoff) => 1 + varint_len(backoff as nat),
                                None => 0,
                            }),
                        ),
                    },
                ),
                ControlAction::Extensions(extensions) => (*final(stats))@
                    == (*stats)@.receive_control(
                    PartView {
                        topic: None,
                        kind: ControlKind::Extensions,
                        bytes: match extensions {
                            Some(e) => if e.partial_messages is Some {
                                4
                            } else {
                                2
                            },
                            None => 2,
                        },
                    },
                ),
            }) by {
        law_control_is_booked(resolve, *control, (*stats)@, (*final(stats))@);
    }
}

} // verus!
