//! Accounting of what is sent.
//!
//! An RPC has to be measured before it is moved into a send queue, but must only be
//! booked once the queue has accepted it: hence the split between
//! [`classify_outbound`] and [`Contribution::apply_tx`].
use crate::convert::{
    control_encoded_len, control_len, message_encoded_len, message_len, protobuf, subscribe_message,
    subscribe_view,
};
use crate::counters::{ControlKind, CountersView};
use crate::map::{Key, KeyedMap};
use crate::proto::{message_share, ControlIDontWant, ControlIWant, SubOpts, WireMessage};
use crate::stats::{GossipTrafficStats, StatsView};
use crate::sums::{
    lemma_seq_sum_le, lemma_seq_sum_pointwise, lemma_seq_sum_prefix, lemma_seq_sum_single,
    lemma_seq_sum_take, seq_sum,
};
use crate::types::{
    option_view, seq_view, topic_view, topics_view, MessageId, RpcOut, RpcOutView, TopicHash,
};
use crate::wire::{
    bytes_share, delimited_len, lemma_short_tag, len_delimited_field_len, repeated_bytes_len,
    short_delimited_len,
};
use vstd::prelude::*;

verus! {

/// How to attribute an outbound RPC that carries no topic on the wire.
///
/// GRAFT, PRUNE, IHAVE and subscriptions name their topic in the message itself and
/// ignore this; only IWANT and IDONTWANT need it.
pub enum Attribution<'a> {
    /// No topic is known: book to the untopiced bucket.
    Untopiced,
    /// The whole RPC concerns one topic.
    Topic(&'a TopicHash),
    /// The RPC batches message ids drawn from several topics; each id is
    /// attributed via this map and the residual framing goes to the untopiced
    /// bucket.
    PerMessage(&'a KeyedMap<MessageId, TopicHash>),
}

/// The contents of an [`Attribution`].
pub enum AttributionView {
    Untopiced,
    Topic(Seq<char>),
    PerMessage(Map<Seq<u8>, Seq<char>>),
}

/// The contents of a map from message ids to topics.
pub open spec fn id_topics(map: Map<Seq<u8>, TopicHash>) -> Map<Seq<u8>, Seq<char>> {
    map.map_values(|topic: TopicHash| topic@)
}

impl<'a> View for Attribution<'a> {
    type V = AttributionView;

    open spec fn view(&self) -> AttributionView {
        match self {
            Attribution::Untopiced => AttributionView::Untopiced,
            Attribution::Topic(topic) => AttributionView::Topic(topic@),
            Attribution::PerMessage(map) => AttributionView::PerMessage(id_topics(map@)),
        }
    }
}

impl<'a> Attribution<'a> {
    /// No message id is attributed twice.
    pub open spec fn wf(&self) -> bool {
        match self {
            Attribution::PerMessage(map) => map.wf(),
            _ => true,
        }
    }
}

/// A measured, topic-attributed traffic contribution, decoupled from the counters
/// it will land in.
#[derive(Debug)]
pub enum Contribution {
    /// Nothing to book.
    Nothing,
    /// A published message.
    Data {
        /// Its topic.
        topic: TopicHash,
        /// Its size.
        bytes: usize,
    },
    /// A partial message.
    Partial {
        /// Its topic.
        topic: TopicHash,
        /// The size of its body.
        body: usize,
        /// The size of its metadata.
        meta: usize,
    },
    /// A control message.
    Control {
        /// Its topic, if one is known.
        topic: Option<TopicHash>,
        /// Its kind.
        kind: ControlKind,
        /// Its size.
        bytes: usize,
    },
    /// A single frame spanning several topics (many subscriptions, or an IWANT
    /// batch drawn from more than one topic).
    Many(Vec<(Option<TopicHash>, ControlKind, usize)>),
}

/// The contents of one part of a frame that spans several topics.
pub struct PartView {
    pub topic: Option<Seq<char>>,
    pub kind: ControlKind,
    pub bytes: nat,
}

/// The contents of a [`Contribution`].
pub enum ContributionView {
    Nothing,
    Data { topic: Seq<char>, bytes: nat },
    Partial { topic: Seq<char>, body: nat, meta: nat },
    Control(PartView),
    Many(Seq<PartView>),
}

/// The view of one part of a frame.
pub open spec fn part_view(part: (Option<TopicHash>, ControlKind, usize)) -> PartView {
    PartView { topic: option_view(part.0), kind: part.1, bytes: part.2 as nat }
}

/// The views of the parts of a frame.
pub open spec fn parts_view(parts: Seq<(Option<TopicHash>, ControlKind, usize)>) -> Seq<PartView> {
    parts.map_values(|part: (Option<TopicHash>, ControlKind, usize)| part_view(part))
}

impl View for Contribution {
    type V = ContributionView;

    open spec fn view(&self) -> ContributionView {
        match self {
            Contribution::Nothing => ContributionView::Nothing,
            Contribution::Data { topic, bytes } => ContributionView::Data {
                topic: topic@,
                bytes: *bytes as nat,
            },
            Contribution::Partial { topic, body, meta } => ContributionView::Partial {
                topic: topic@,
                body: *body as nat,
                meta: *meta as nat,
            },
            Contribution::Control { topic, kind, bytes } => ContributionView::Control(
                PartView { topic: option_view(*topic), kind: *kind, bytes: *bytes as nat },
            ),
            Contribution::Many(parts) => ContributionView::Many(parts_view(parts@)),
        }
    }
}

impl Default for Contribution {
    fn default() -> (contribution: Self)
        ensures
            contribution@ == ContributionView::Nothing,
    {
        Contribution::Nothing
    }
}

/// Send counters after a partial message. A body or metadata of no bytes is not
/// counted.
pub open spec fn partial_sent(tx: CountersView, body: nat, meta: nat) -> CountersView {
    let with_body = if body > 0 {
        tx.add_data(body)
    } else {
        tx
    };
    if meta > 0 {
        with_body.add_meta(meta)
    } else {
        with_body
    }
}

impl StatsView {
    /// These statistics after a control message was sent.
    pub open spec fn send_control(self, part: PartView) -> StatsView {
        self.with_tx(part.topic, self.bucket(part.topic).tx.add_control(part.kind, part.bytes))
    }

    /// These statistics after each part of a frame was sent.
    pub open spec fn send_parts(self, parts: Seq<PartView>) -> StatsView
        decreases parts.len(),
    {
        if parts.len() == 0 {
            self
        } else {
            self.send_parts(parts.drop_last()).send_control(parts.last())
        }
    }

    /// These statistics after a contribution was booked as sent.
    pub open spec fn send(self, contribution: ContributionView) -> StatsView {
        match contribution {
            ContributionView::Nothing => self,
            ContributionView::Data { topic, bytes } => self.with_tx(
                Some(topic),
                self.topic(topic).tx.add_data(bytes),
            ),
            ContributionView::Partial { topic, body, meta } => self.with_tx(
                Some(topic),
                partial_sent(self.topic(topic).tx, body, meta),
            ),
            ContributionView::Control(part) => self.send_control(part),
            ContributionView::Many(parts) => self.send_parts(parts),
        }
    }

    /// These statistics after an RPC that was booked as sent is dropped. Only a
    /// published message is taken back.
    pub open spec fn unsend(self, rpc: RpcOutView) -> StatsView {
        match rpc {
            RpcOutView::Publish { message, .. } => self.with_tx(
                Some(message.topic),
                self.topic(message.topic).tx.sub_data(message_len(message)),
            ),
            _ => self,
        }
    }
}

/// Books one control message as sent.
fn send_control(
    stats: &mut GossipTrafficStats,
    topic: &Option<TopicHash>,
    kind: ControlKind,
    bytes: usize,
)
    requires
        old(stats).wf(),
    ensures
        final(stats).wf(),
        final(stats)@ == old(stats)@.send_control(
            (PartView { topic: option_view(*topic), kind, bytes: bytes as nat }),
        ),
{
    match topic {
        Some(topic) => stats.tx_mut(topic).add_control(kind, bytes),
        None => stats.untopiced.tx.add_control(kind, bytes),
    }
}

impl Contribution {
    /// Commits this contribution to the send counters.
    pub fn apply_tx(self, stats: &mut GossipTrafficStats)
        requires
            old(stats).wf(),
        ensures
            final(stats).wf(),
            final(stats)@ == old(stats)@.send(self@),
    {
        match self {
            Contribution::Nothing => {},
            Contribution::Data { topic, bytes } => stats.tx_mut(&topic).add_data(bytes),
            Contribution::Partial { topic, body, meta } => {
                let counters = stats.tx_mut(&topic);
                if body > 0 {
                    counters.add_data(body);
                }
                if meta > 0 {
                    counters.add_meta(meta);
                }
            },
            Contribution::Control { topic, kind, bytes } => send_control(
                stats,
                &topic,
                kind,
                bytes,
            ),
            Contribution::Many(parts) => {
                let ghost before = stats@;
                let ghost views = parts_view(parts@);
                let mut i: usize = 0;
                while i < parts.len()
                    invariant
                        i <= parts@.len(),
                        views == parts_view(parts@),
                        stats.wf(),
                        stats@ == before.send_parts(views.take(i as int)),
                    decreases parts@.len() - i,
                {
                    send_control(stats, &parts[i].0, parts[i].1, parts[i].2);
                    assert(views.take(i + 1).drop_last() =~= views.take(i as int));
                    assert(views.take(i + 1).last() == part_view(parts@[i as int]));
                    i = i + 1;
                }
                assert(views.take(i as int) =~= views);
            },
        }
    }
}

/// What an id adds to a batch, if a topic is known for it.
pub open spec fn attributed_share(map: Map<Seq<u8>, Seq<char>>) -> spec_fn(Seq<u8>) -> nat {
    |id: Seq<u8>|
        if map.contains_key(id) {
            short_delimited_len(id.len())
        } else {
            0
        }
}

/// What an id adds to the part of a batch that concerns one topic.
pub open spec fn topic_share(
    map: Map<Seq<u8>, Seq<char>>,
    topic: Seq<char>,
) -> spec_fn(Seq<u8>) -> nat {
    |id: Seq<u8>|
        if map.contains_key(id) && map[id] == topic {
            short_delimited_len(id.len())
        } else {
            0
        }
}

/// The bytes of a batch that belong to ids whose topic is known.
pub open spec fn attributed_len(ids: Seq<Seq<u8>>, map: Map<Seq<u8>, Seq<char>>) -> nat {
    seq_sum(ids, attributed_share(map))
}

/// The bytes of a batch that belong to ids of one topic.
pub open spec fn topic_len(
    ids: Seq<Seq<u8>>,
    map: Map<Seq<u8>, Seq<char>>,
    topic: Seq<char>,
) -> nat {
    seq_sum(ids, topic_share(map, topic))
}

/// The topics of the ids of a batch, each once, in the order in which they first
/// occur.
pub open spec fn batch_topics(ids: Seq<Seq<u8>>, map: Map<Seq<u8>, Seq<char>>) -> Seq<Seq<char>>
    decreases ids.len(),
{
    if ids.len() == 0 {
        Seq::empty()
    } else {
        let topics = batch_topics(ids.drop_last(), map);
        let id = ids.last();
        if map.contains_key(id) && !topics.contains(map[id]) {
            topics.push(map[id])
        } else {
            topics
        }
    }
}

/// The parts of a batch that belong to topics: for each topic the bytes of its ids.
pub open spec fn topic_parts(
    kind: ControlKind,
    ids: Seq<Seq<u8>>,
    map: Map<Seq<u8>, Seq<char>>,
) -> Seq<PartView> {
    batch_topics(ids, map).map_values(
        |topic: Seq<char>|
            PartView { topic: Some(topic), kind, bytes: topic_len(ids, map, topic) },
    )
}

/// The bytes of a batch that belong to no topic: its framing, and the ids whose
/// topic is not known.
pub open spec fn residual_len(
    total: nat,
    ids: Seq<Seq<u8>>,
    map: Map<Seq<u8>, Seq<char>>,
) -> nat {
    let attributed = attributed_len(ids, map);
    if total > attributed {
        (total - attributed) as nat
    } else {
        0
    }
}

/// The parts of a batch: those of its topics, and what remains for the untopiced
/// bucket. There is always at least one part.
pub open spec fn batch_parts(
    kind: ControlKind,
    total: nat,
    ids: Seq<Seq<u8>>,
    map: Map<Seq<u8>, Seq<char>>,
) -> Seq<PartView> {
    let parts = topic_parts(kind, ids, map);
    let residual = residual_len(total, ids, map);
    if residual > 0 || parts.len() == 0 {
        parts.push(PartView { topic: None, kind, bytes: residual })
    } else {
        parts
    }
}

/// What a batch of message ids contributes.
pub open spec fn classified_batch(
    kind: ControlKind,
    total: nat,
    ids: Seq<Seq<u8>>,
    attribution: AttributionView,
) -> ContributionView {
    match attribution {
        AttributionView::Topic(topic) => ContributionView::Control(
            PartView { topic: Some(topic), kind, bytes: total },
        ),
        AttributionView::Untopiced => ContributionView::Control(
            PartView { topic: None, kind, bytes: total },
        ),
        AttributionView::PerMessage(map) => ContributionView::Many(
            batch_parts(kind, total, ids, map),
        ),
    }
}

/// The part of a frame that announces one of several subscriptions.
pub open spec fn subscription_part(entry: (Seq<char>, bool, bool)) -> PartView {
    PartView {
        topic: Some(entry.0),
        kind: ControlKind::Subscription,
        bytes: delimited_len(1, SubOpts::wire_len(subscribe_view(entry))),
    }
}

/// The size of an optional byte string.
pub open spec fn payload_len(payload: Option<Seq<u8>>) -> nat {
    match payload {
        Some(bytes) => bytes.len(),
        None => 0,
    }
}

/// A control message of so many bytes on a topic.
pub open spec fn on_topic(topic: Seq<char>, kind: ControlKind, bytes: nat) -> ContributionView {
    ContributionView::Control(PartView { topic: Some(topic), kind, bytes })
}

/// What an outbound RPC contributes.
pub open spec fn classified(rpc: RpcOutView, attribution: AttributionView) -> ContributionView {
    match rpc {
        RpcOutView::Publish { message, .. } => ContributionView::Data {
            topic: message.topic,
            bytes: message_len(message),
        },
        RpcOutView::PartialMessage(partial) => ContributionView::Partial {
            topic: partial.topic_hash,
            body: payload_len(partial.body),
            meta: payload_len(partial.metadata),
        },
        RpcOutView::Subscribe { topic, .. } => on_topic(
            topic,
            ControlKind::Subscription,
            control_len(rpc),
        ),
        RpcOutView::Unsubscribe(topic) => on_topic(
            topic,
            ControlKind::Subscription,
            control_len(rpc),
        ),
        RpcOutView::SubscribeMany(topics) => ContributionView::Many(
            topics.map_values(|entry: (Seq<char>, bool, bool)| subscription_part(entry)),
        ),
        RpcOutView::Graft(topic) => on_topic(topic, ControlKind::Graft, control_len(rpc)),
        RpcOutView::Prune(prune) => on_topic(
            prune.topic_hash,
            ControlKind::Prune,
            control_len(rpc),
        ),
        RpcOutView::IHave(ihave) => on_topic(
            ihave.topic_hash,
            ControlKind::IHave,
            control_len(rpc),
        ),
        RpcOutView::IWant(ids) => classified_batch(
            ControlKind::IWant,
            control_len(rpc),
            ids,
            attribution,
        ),
        RpcOutView::IDontWant(ids) => classified_batch(
            ControlKind::IDontWant,
            control_len(rpc),
            ids,
            attribution,
        ),
        RpcOutView::Extensions(_) | RpcOutView::TestExtension => ContributionView::Control(
            PartView { topic: None, kind: ControlKind::Extensions, bytes: control_len(rpc) },
        ),
    }
}

/// The size that is taken of an outbound RPC as a whole. Of a partial message only
/// the sizes of its body and metadata are taken.
pub open spec fn measured_len(rpc: RpcOutView) -> nat {
    match rpc {
        RpcOutView::Publish { message, .. } => message_len(message),
        _ => control_len(rpc),
    }
}

/// A topic that no id of a batch has gets no bytes of it.
pub proof fn lemma_topic_len_absent(
    ids: Seq<Seq<u8>>,
    map: Map<Seq<u8>, Seq<char>>,
    topic: Seq<char>,
)
    requires
        !batch_topics(ids, map).contains(topic),
    ensures
        topic_len(ids, map, topic) == 0,
    decreases ids.len(),
{
    if ids.len() > 0 {
        let topics = batch_topics(ids.drop_last(), map);
        let id = ids.last();
        if topics.contains(topic) {
            let i = choose|i: int| 0 <= i < topics.len() && topics[i] == topic;
            assert(batch_topics(ids, map)[i] == topic);
        }
        if map.contains_key(id) && map[id] == topic {
            assert(batch_topics(ids, map)[topics.len() as int] == topic);
        }
        lemma_topic_len_absent(ids.drop_last(), map, topic);
    }
}

/// The topics of a batch are distinct.
pub proof fn lemma_batch_topics_distinct(ids: Seq<Seq<u8>>, map: Map<Seq<u8>, Seq<char>>)
    ensures
        batch_topics(ids, map).no_duplicates(),
    decreases ids.len(),
{
    if ids.len() > 0 {
        lemma_batch_topics_distinct(ids.drop_last(), map);
    }
}

/// How the parts of a batch that belong to topics change with its last id: an id of
/// no known topic leaves them, one of a topic seen before is added to that topic's
/// part, and one of a new topic makes a new part.
pub proof fn lemma_topic_parts_step(
    kind: ControlKind,
    ids: Seq<Seq<u8>>,
    map: Map<Seq<u8>, Seq<char>>,
)
    requires
        ids.len() > 0,
    ensures
        ({
            let id = ids.last();
            let known = batch_topics(ids.drop_last(), map);
            let before = topic_parts(kind, ids.drop_last(), map);
            let after = topic_parts(kind, ids, map);
            let bytes = short_delimited_len(id.len());
            &&& !map.contains_key(id) ==> after == before
            &&& map.contains_key(id) && !known.contains(map[id]) ==> after == before.push(
                PartView { topic: Some(map[id]), kind, bytes },
            )
            &&& map.contains_key(id) ==> forall|slot: int|
                0 <= slot < known.len() && #[trigger] known[slot] == map[id] ==> after
                    == before.update(
                    slot,
                    PartView { bytes: before[slot].bytes + bytes, ..before[slot] },
                )
        }),
{
    let seen = ids.drop_last();
    let id = ids.last();
    let known = batch_topics(seen, map);
    let before = topic_parts(kind, seen, map);
    let after = topic_parts(kind, ids, map);
    let bytes = short_delimited_len(id.len());
    lemma_batch_topics_distinct(seen, map);
    assert forall|j: int| 0 <= j < known.len() implies #[trigger] after[j].bytes == before[j].bytes
        + (topic_share(map, known[j]))(id) && after[j].topic == before[j].topic by {
        assert(batch_topics(ids, map)[j] == known[j]);
    }
    if !map.contains_key(id) {
        assert(after =~= before);
    } else if !known.contains(map[id]) {
        lemma_topic_len_absent(seen, map, map[id]);
        assert forall|j: int| 0 <= j < known.len() implies #[trigger] after[j] == before[j] by {
            assert(known.contains(known[j]));
        }
        assert(after =~= before.push(PartView { topic: Some(map[id]), kind, bytes }));
    } else {
        assert forall|slot: int| 0 <= slot < known.len() && #[trigger] known[slot]
            == map[id] implies after == before.update(
            slot,
            PartView { bytes: before[slot].bytes + bytes, ..before[slot] },
        ) by {
            assert(after =~= before.update(
                slot,
                PartView { bytes: before[slot].bytes + bytes, ..before[slot] },
            ));
        }
    }
}

/// The place of a topic's part.
fn find_part(
    parts: &Vec<(Option<TopicHash>, ControlKind, usize)>,
    topic: &TopicHash,
) -> (slot: Option<usize>)
    ensures
        match slot {
            Some(i) => i < parts@.len() && part_view(parts@[i as int]).topic == Some(topic@),
            None => forall|i: int|
                0 <= i < parts@.len() ==> part_view(#[trigger] parts@[i]).topic != Some(topic@),
        },
{
    let mut i: usize = 0;
    while i < parts.len()
        invariant
            i <= parts@.len(),
            forall|j: int| 0 <= j < i ==> part_view(#[trigger] parts@[j]).topic != Some(topic@),
        decreases parts@.len() - i,
    {
        if let Some(other) = &parts[i].0 {
            if other.same(topic) {
                return Some(i);
            }
        }
        i = i + 1;
    }
    None
}

/// Splits the ids of a batch by topic. Also returns the bytes of the ids whose
/// topic is known.
fn split_by_topic(
    kind: ControlKind,
    message_ids: &[MessageId],
    map: &KeyedMap<MessageId, TopicHash>,
) -> (split: (Vec<(Option<TopicHash>, ControlKind, usize)>, usize))
    requires
        map.wf(),
        attributed_len(seq_view(message_ids@), id_topics(map@)) <= usize::MAX,
    ensures
        parts_view(split.0@) == topic_parts(kind, seq_view(message_ids@), id_topics(map@)),
        split.1 == attributed_len(seq_view(message_ids@), id_topics(map@)),
{
    let ghost ids = seq_view(message_ids@);
    let ghost topics = id_topics(map@);
    let mut parts: Vec<(Option<TopicHash>, ControlKind, usize)> = Vec::new();
    let mut attributed: usize = 0;
    let mut i: usize = 0;
    assert(parts_view(parts@) =~= topic_parts(kind, ids.take(0), topics));
    while i < message_ids.len()
        invariant
            i <= message_ids@.len(),
            map.wf(),
            ids == seq_view(message_ids@),
            topics == id_topics(map@),
            attributed_len(ids, topics) <= usize::MAX,
            attributed == attributed_len(ids.take(i as int), topics),
            parts_view(parts@) == topic_parts(kind, ids.take(i as int), topics),
        decreases message_ids@.len() - i,
    {
        let id: &MessageId = &message_ids[i];
        let ghost seen = ids.take(i as int);
        let ghost next = ids.take(i + 1);
        let ghost known = batch_topics(seen, topics);
        let ghost before = parts_view(parts@);
        proof {
            assert(next.drop_last() =~= seen);
            assert(next.last() == id@);
            assert(before.len() == parts@.len());
            lemma_topic_parts_step(kind, next, topics);
        }
        if let Some(topic) = map.get(id) {
            proof {
                assert(topics[id@] == topic@);
                lemma_seq_sum_prefix(ids, i + 1, attributed_share(topics));
                assert forall|a: Seq<u8>| #[trigger] (topic_share(topics, topic@))(a)
                    <= (attributed_share(topics))(a) by {}
                lemma_seq_sum_le(next, topic_share(topics, topic@), attributed_share(topics));
            }
            let bytes: usize = len_delimited_field_len(id.0.len());
            attributed = attributed + bytes;
            match find_part(&parts, topic) {
                Some(slot) => {
                    proof {
                        assert(before[slot as int] == part_view(parts@[slot as int]));
                        assert(known[slot as int] == topic@);
                        assert(topic_len(next, topics, topic@) == before[slot as int].bytes
                            + bytes);
                    }
                    parts[slot].2 = parts[slot].2 + bytes;
                    assert(parts_view(parts@) =~= before.update(
                        slot as int,
                        PartView {
                            bytes: before[slot as int].bytes + bytes as nat,
                            ..before[slot as int]
                        },
                    ));
                },
                None => {
                    proof {
                        assert forall|j: int| 0 <= j < known.len() implies known[j] != topic@ by {
                            assert(part_view(parts@[j]) == before[j]);
                        }
                    }
                    parts.push((Some(topic.clone()), kind, bytes));
                    assert(parts_view(parts@) =~= before.push(
                        PartView { topic: Some(topic@), kind, bytes: bytes as nat },
                    ));
                },
            }
        }
        i = i + 1;
    }
    assert(ids.take(i as int) =~= ids);
    (parts, attributed)
}

/// Measures a batch of message ids (IWANT/IDONTWANT) that takes `total` bytes on
/// the wire, splitting per topic when the batch spans several.
pub fn classify_id_batch(
    kind: ControlKind,
    total: usize,
    message_ids: &[MessageId],
    attribution: Attribution<'_>,
) -> (contribution: Contribution)
    requires
        attribution.wf(),
        attribution@ matches AttributionView::PerMessage(map) ==> attributed_len(
            seq_view(message_ids@),
            map,
        ) <= usize::MAX,
    ensures
        contribution@ == classified_batch(
            kind,
            total as nat,
            seq_view(message_ids@),
            attribution@,
        ),
{
    match attribution {
        Attribution::Topic(topic) => Contribution::Control {
            topic: Some(topic.clone()),
            kind,
            bytes: total,
        },
        Attribution::Untopiced => Contribution::Control { topic: None, kind, bytes: total },
        Attribution::PerMessage(map) => {
            let (mut parts, attributed) = split_by_topic(kind, message_ids, map);
            // Framing, plus any ids that could not be attributed.
            let residual: usize = total.saturating_sub(attributed);
            let ghost before = parts_view(parts@);
            if residual > 0 || parts.len() == 0 {
                parts.push((None, kind, residual));
                assert(parts_view(parts@) =~= before.push(
                    PartView { topic: None, kind, bytes: residual as nat },
                ));
            }
            Contribution::Many(parts)
        },
    }
}

/// A frame with a batch of ids holds at least the bytes of its ids.
pub proof fn lemma_batch_frame(rpc: RpcOutView, ids: Seq<Seq<u8>>)
    requires
        rpc == RpcOutView::IWant(ids) || rpc == RpcOutView::IDontWant(ids),
    ensures
        repeated_bytes_len(1, ids) <= control_len(rpc),
{
    lemma_seq_sum_single(ids, message_share::<ControlIWant>(2));
    lemma_seq_sum_single(ids, message_share::<ControlIDontWant>(5));
}

/// The ids of a batch whose topic is known take no more than all its ids.
pub proof fn lemma_attributed(ids: Seq<Seq<u8>>, map: Map<Seq<u8>, Seq<char>>)
    ensures
        attributed_len(ids, map) <= repeated_bytes_len(1, ids),
{
    assert forall|id: Seq<u8>| #[trigger] (attributed_share(map))(id) <= (bytes_share(1))(id) by {
        lemma_short_tag(1, id.len());
    }
    lemma_seq_sum_le(ids, attributed_share(map), bytes_share(1));
}

/// What one of several subscriptions adds to their frame.
pub open spec fn subscription_share() -> spec_fn((Seq<char>, bool, bool)) -> nat {
    |entry: (Seq<char>, bool, bool)| subscription_part(entry).bytes
}

/// A frame with several subscriptions is exactly its parts.
pub proof fn lemma_subscriptions_frame(topics: Seq<(Seq<char>, bool, bool)>)
    ensures
        control_len(RpcOutView::SubscribeMany(topics)) == seq_sum(topics, subscription_share()),
{
    let messages = protobuf(RpcOutView::SubscribeMany(topics)).subscriptions;
    lemma_seq_sum_pointwise(
        topics,
        subscription_share(),
        messages,
        message_share::<SubOpts>(1),
    );
}

/// Charges each of several subscriptions its own part of their frame.
fn split_by_subscription(topics: &Vec<(TopicHash, bool, bool)>) -> (split: (
    Vec<(Option<TopicHash>, ControlKind, usize)>,
    usize,
))
    requires
        seq_sum(topics_view(topics@), subscription_share()) <= usize::MAX,
    ensures
        parts_view(split.0@) == topics_view(topics@).map_values(
            |entry: (Seq<char>, bool, bool)| subscription_part(entry),
        ),
        split.1 == seq_sum(topics_view(topics@), subscription_share()),
{
    let ghost views = topics_view(topics@);
    let mut attributed: usize = 0;
    let mut parts: Vec<(Option<TopicHash>, ControlKind, usize)> = Vec::with_capacity(topics.len());
    let mut i: usize = 0;
    while i < topics.len()
        invariant
            i <= topics@.len(),
            views == topics_view(topics@),
            seq_sum(views, subscription_share()) <= usize::MAX,
            attributed == seq_sum(views.take(i as int), subscription_share()),
            parts@.len() == i,
            forall|j: int|
                0 <= j < i ==> part_view(#[trigger] parts@[j]) == subscription_part(views[j]),
        decreases topics@.len() - i,
    {
        proof {
            lemma_seq_sum_take(views, i as int, subscription_share());
            lemma_seq_sum_prefix(views, i + 1, subscription_share());
            assert(views[i as int] == topic_view(topics@[i as int]));
        }
        let opts: SubOpts = subscribe_message(&topics[i].0, topics[i].1, topics[i].2);
        proof {
            lemma_short_tag(1, SubOpts::wire_len(opts@));
        }
        let bytes: usize = len_delimited_field_len(opts.encoded_size());
        attributed = attributed + bytes;
        parts.push((Some(topics[i].0.clone()), ControlKind::Subscription, bytes));
        i = i + 1;
    }
    assert(views.take(i as int) =~= views);
    assert(parts_view(parts@) =~= views.map_values(
        |entry: (Seq<char>, bool, bool)| subscription_part(entry),
    ));
    (parts, attributed)
}

/// Measures an outbound RPC and works out which topics it belongs to.
///
/// Call before handing the RPC to the send queue; commit the result with
/// [`Contribution::apply_tx`] only if the queue accepts it.
pub fn classify_outbound(rpc: &RpcOut, attribution: Attribution<'_>) -> (contribution: Contribution)
    requires
        attribution.wf(),
        measured_len(rpc@) <= usize::MAX,
    ensures
        contribution@ == classified(rpc@, attribution@),
{
    match rpc {
        RpcOut::Publish { message, .. } => Contribution::Data {
            topic: message.topic.clone(),
            bytes: message_encoded_len(message),
        },
        RpcOut::PartialMessage(partial) => Contribution::Partial {
            topic: partial.topic_hash.clone(),
            body: match &partial.body {
                Some(body) => body.len(),
                None => 0,
            },
            meta: match &partial.metadata {
                Some(metadata) => metadata.len(),
                None => 0,
            },
        },
        RpcOut::Subscribe { topic, .. } => Contribution::Control {
            topic: Some(topic.clone()),
            kind: ControlKind::Subscription,
            bytes: control_encoded_len(rpc),
        },
        RpcOut::Unsubscribe(topic) => Contribution::Control {
            topic: Some(topic.clone()),
            kind: ControlKind::Subscription,
            bytes: control_encoded_len(rpc),
        },
        RpcOut::SubscribeMany(topics) => {
            // One frame, many topics: charge each topic its own part, and fold any
            // residual framing into the first so the parts still sum to the frame.
            proof {
                lemma_subscriptions_frame(topics_view(topics@));
            }
            let total: usize = control_encoded_len(rpc);
            let (mut parts, attributed) = split_by_subscription(topics);
            let ghost before = parts_view(parts@);
            if parts.len() > 0 {
                parts[0].2 = parts[0].2 + total.saturating_sub(attributed);
            }
            assert(parts_view(parts@) =~= before);
            Contribution::Many(parts)
        },
        RpcOut::Graft(graft) => Contribution::Control {
            topic: Some(graft.topic_hash.clone()),
            kind: ControlKind::Graft,
            bytes: control_encoded_len(rpc),
        },
        RpcOut::Prune(prune) => Contribution::Control {
            topic: Some(prune.topic_hash.clone()),
            kind: ControlKind::Prune,
            bytes: control_encoded_len(rpc),
        },
        RpcOut::IHave(ihave) => Contribution::Control {
            topic: Some(ihave.topic_hash.clone()),
            kind: ControlKind::IHave,
            bytes: control_encoded_len(rpc),
        },
        RpcOut::IWant(iwant) => {
            proof {
                lemma_batch_frame(rpc@, iwant@);
                if let AttributionView::PerMessage(map) = attribution@ {
                    lemma_attributed(iwant@, map);
                }
            }
            classify_id_batch(
                ControlKind::IWant,
                control_encoded_len(rpc),
                iwant.message_ids.as_slice(),
                attribution,
            )
        },
        RpcOut::IDontWant(idontwant) => {
            proof {
                lemma_batch_frame(rpc@, idontwant@);
                if let AttributionView::PerMessage(map) = attribution@ {
                    lemma_attributed(idontwant@, map);
                }
            }
            classify_id_batch(
                ControlKind::IDontWant,
                control_encoded_len(rpc),
                idontwant.message_ids.as_slice(),
                attribution,
            )
        },
        RpcOut::Extensions(_) | RpcOut::TestExtension => Contribution::Control {
            topic: None,
            kind: ControlKind::Extensions,
            bytes: control_encoded_len(rpc),
        },
    }
}

/// Un-books an outbound publish that was enqueued but dropped before it could be
/// sent (its send timeout elapsed while it sat in the queue).
pub fn account_outbound_dropped(stats: &mut GossipTrafficStats, rpc: &RpcOut)
    requires
        old(stats).wf(),
        rpc@ matches RpcOutView::Publish { message, .. } ==> message_len(message) <= usize::MAX,
    ensures
        final(stats).wf(),
        final(stats)@ == old(stats)@.unsend(rpc@),
{
    if let RpcOut::Publish { message, .. } = rpc {
        stats.tx_mut(&message.topic).sub_data(message_encoded_len(message));
    }
}

} // verus!
