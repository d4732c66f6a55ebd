//! Accounting of what is received.
use crate::convert::{
    graft_message, ihave_message, ihave_view, message_encoded_len, message_len, prune_message,
    prune_view, subscription_message, subscription_view,
};
use crate::counters::{ControlKind, CountersView};
use crate::outbound::PartView;
use crate::proto::{
    ControlExtensions, ControlGraft, ControlIHave, ControlPrune, SubOpts, WireMessage,
};
use crate::stats::{GossipTrafficStats, StatsView};
use crate::types::{
    option_view, seq_view, ControlAction, ControlActionView, MessageId, PartialMessage,
    PartialMessageView, RawMessage, RawMessageView, Subscription, SubscriptionView, TopicHash,
};
use crate::wire::{bytes_len, delimited_len, lemma_short_tag, len_delimited_field_len};
use vstd::prelude::*;

verus! {

/// Receive counters after a partial message. A body or metadata of no bytes is
/// counted as a message all the same.
pub open spec fn partial_received(
    rx: CountersView,
    body: Option<Seq<u8>>,
    metadata: Option<Seq<u8>>,
) -> CountersView {
    let with_body = match body {
        Some(bytes) => rx.add_data(bytes.len()),
        None => rx,
    };
    match metadata {
        Some(bytes) => with_body.add_meta(bytes.len()),
        None => with_body,
    }
}

/// What a subscription announcement takes in the RPC that carries it.
pub open spec fn subscription_received(subscription: SubscriptionView) -> PartView {
    PartView {
        topic: Some(subscription.topic_hash),
        kind: ControlKind::Subscription,
        bytes: delimited_len(1, SubOpts::wire_len(subscription_view(subscription))),
    }
}

/// What a control message that is booked as a whole takes in the RPC that carries
/// it. There is no such part for IWANT and IDONTWANT, which are booked id by id.
pub open spec fn control_received(control: ControlActionView) -> Option<PartView> {
    match control {
        ControlActionView::IHave(ihave) => Some(
            PartView {
                topic: Some(ihave.topic_hash),
                kind: ControlKind::IHave,
                bytes: delimited_len(1, ControlIHave::wire_len(ihave_view(ihave))),
            },
        ),
        ControlActionView::Graft(topic) => Some(
            PartView {
                topic: Some(topic),
                kind: ControlKind::Graft,
                bytes: delimited_len(3, ControlGraft::wire_len(Some(topic))),
            },
        ),
        ControlActionView::Prune(prune) => Some(
            PartView {
                topic: Some(prune.topic_hash),
                kind: ControlKind::Prune,
                bytes: delimited_len(4, ControlPrune::wire_len(prune_view(prune))),
            },
        ),
        ControlActionView::Extensions(extensions) => Some(
            PartView {
                topic: None,
                kind: ControlKind::Extensions,
                bytes: delimited_len(
                    6,
                    ControlExtensions::wire_len(
                        match extensions {
                            Some(e) => e.partial_messages,
                            None => None,
                        },
                    ),
                ),
            },
        ),
        ControlActionView::IWant(_) | ControlActionView::IDontWant(_) => None,
    }
}

/// What one id of a batch takes in the message that carries it.
pub open spec fn id_received(
    kind: ControlKind,
    id: Seq<u8>,
    topic: Option<Seq<char>>,
) -> PartView {
    PartView { topic, kind, bytes: bytes_len(1, id) }
}

impl StatsView {
    /// These statistics after a control message was received.
    pub open spec fn receive_control(self, part: PartView) -> StatsView {
        self.with_rx(part.topic, self.bucket(part.topic).rx.add_control(part.kind, part.bytes))
    }

    /// These statistics after a batch of ids was received, each of which has the
    /// topic at its place, or none.
    pub open spec fn receive_ids(
        self,
        kind: ControlKind,
        ids: Seq<Seq<u8>>,
        topics: Seq<Option<Seq<char>>>,
    ) -> StatsView
        decreases ids.len(),
    {
        if ids.len() == 0 {
            self
        } else {
            self.receive_ids(kind, ids.drop_last(), topics.drop_last()).receive_control(
                id_received(kind, ids.last(), topics.last()),
            )
        }
    }

    /// These statistics after a published message was received.
    pub open spec fn receive_message(self, message: RawMessageView) -> StatsView {
        self.with_rx(
            Some(message.topic),
            self.topic(message.topic).rx.add_data(message_len(message)),
        )
    }

    /// These statistics after a partial message was received.
    pub open spec fn receive_partial(self, partial: PartialMessageView) -> StatsView {
        self.with_rx(
            Some(partial.topic_hash),
            partial_received(self.topic(partial.topic_hash).rx, partial.body, partial.metadata),
        )
    }
}

/// The topics are ones that `resolve` may give for the ids.
pub open spec fn resolved<F: Fn(&MessageId) -> Option<TopicHash>>(
    resolve: F,
    ids: Seq<MessageId>,
    topics: Seq<Option<TopicHash>>,
) -> bool {
    &&& topics.len() == ids.len()
    &&& forall|i: int|
        0 <= i < ids.len() ==> call_ensures(resolve, (&ids[i],), #[trigger] topics[i])
}

/// The contents of optional topics.
pub open spec fn topics_seen(topics: Seq<Option<TopicHash>>) -> Seq<Option<Seq<char>>> {
    topics.map_values(|topic: Option<TopicHash>| option_view(topic))
}

/// A batch of ids leads from one state of the statistics to another: each id is
/// booked to a topic that `resolve` may give for it, or to the untopiced bucket if it
/// gives none.
pub open spec fn ids_booked<F: Fn(&MessageId) -> Option<TopicHash>>(
    resolve: F,
    kind: ControlKind,
    ids: Seq<MessageId>,
    before: StatsView,
    after: StatsView,
) -> bool {
    exists|topics: Seq<Option<TopicHash>>| #[trigger]
        resolved(resolve, ids, topics) && after == before.receive_ids(
            kind,
            seq_view(ids),
            topics_seen(topics),
        )
}

/// A control message leads from one state of the statistics to another: a batch of ids
/// id by id, any other as a whole.
pub open spec fn control_booked<F: Fn(&MessageId) -> Option<TopicHash>>(
    resolve: F,
    control: ControlAction,
    before: StatsView,
    after: StatsView,
) -> bool {
    match control {
        ControlAction::IWant(iwant) => ids_booked(
            resolve,
            ControlKind::IWant,
            iwant.message_ids@,
            before,
            after,
        ),
        ControlAction::IDontWant(idontwant) => ids_booked(
            resolve,
            ControlKind::IDontWant,
            idontwant.message_ids@,
            before,
            after,
        ),
        _ => control_received(control@) matches Some(part) && after == before.receive_control(part),
    }
}

/// Books an inbound published message.
pub fn account_inbound_message(stats: &mut GossipTrafficStats, message: &RawMessage)
    requires
        old(stats).wf(),
        message_len(message@) <= usize::MAX,
    ensures
        final(stats).wf(),
        final(stats)@ == old(stats)@.receive_message(message@),
{
    stats.rx_mut(&message.topic).add_data(message_encoded_len(message));
}

/// Books an inbound subscription announcement.
pub fn account_inbound_subscription(stats: &mut GossipTrafficStats, subscription: &Subscription)
    requires
        old(stats).wf(),
        subscription_received(subscription@).bytes <= usize::MAX,
    ensures
        final(stats).wf(),
        final(stats)@ == old(stats)@.receive_control(subscription_received(subscription@)),
{
    let opts: SubOpts = subscription_message(subscription);
    proof {
        lemma_short_tag(1, SubOpts::wire_len(opts@));
    }
    let bytes: usize = len_delimited_field_len(opts.encoded_size());
    stats.rx_mut(&subscription.topic_hash).add_control(ControlKind::Subscription, bytes);
}

/// Books an inbound partial message.
pub fn account_inbound_partial(stats: &mut GossipTrafficStats, partial: &PartialMessage)
    requires
        old(stats).wf(),
    ensures
        final(stats).wf(),
        final(stats)@ == old(stats)@.receive_partial(partial@),
{
    let counters = stats.rx_mut(&partial.topic_hash);
    if let Some(body) = &partial.body {
        counters.add_data(body.len());
    }
    if let Some(metadata) = &partial.metadata {
        counters.add_meta(metadata.len());
    }
}

/// Books an inbound control message.
///
/// `resolve` maps a message id back to its topic via the local message cache;
/// IWANT/IDONTWANT carry no topic on the wire, so ids it cannot resolve are booked
/// to the untopiced bucket.
pub fn account_inbound_control<F: Fn(&MessageId) -> Option<TopicHash>>(
    stats: &mut GossipTrafficStats,
    control: &ControlAction,
    resolve: F,
)
    requires
        old(stats).wf(),
        control_received(control@) matches Some(part) ==> part.bytes <= usize::MAX,
        control matches ControlAction::IWant(iwant) ==> batch_fits(
            resolve,
            iwant.message_ids@,
        ),
        control matches ControlAction::IDontWant(idontwant) ==> batch_fits(
            resolve,
            idontwant.message_ids@,
        ),
    ensures
        final(stats).wf(),
        control_booked(resolve, *control, old(stats)@, final(stats)@),
{
    match control {
        ControlAction::IHave(ihave) => {
            let message: ControlIHave = ihave_message(ihave);
            proof {
                lemma_short_tag(1, ControlIHave::wire_len(message@));
            }
            let bytes: usize = message.encoded_size();
            stats.rx_mut(&ihave.topic_hash).add_control(
                ControlKind::IHave,
                len_delimited_field_len(bytes),
            );
        },
        ControlAction::Graft(graft) => {
            let message: ControlGraft = graft_message(graft);
            proof {
                lemma_short_tag(3, ControlGraft::wire_len(message@));
            }
            let bytes: usize = message.encoded_size();
            stats.rx_mut(&graft.topic_hash).add_control(
                ControlKind::Graft,
                len_delimited_field_len(bytes),
            );
        },
        ControlAction::Prune(prune) => {
            let message: ControlPrune = prune_message(prune);
            proof {
                lemma_short_tag(4, ControlPrune::wire_len(message@));
            }
            let bytes: usize = message.encoded_size();
            stats.rx_mut(&prune.topic_hash).add_control(
                ControlKind::Prune,
                len_delimited_field_len(bytes),
            );
        },
        ControlAction::IWant(iwant) => {
            account_inbound_id_batch(
                stats,
                ControlKind::IWant,
                iwant.message_ids.as_slice(),
                resolve,
            );
        },
        ControlAction::IDontWant(idontwant) => {
            account_inbound_id_batch(
                stats,
                ControlKind::IDontWant,
                idontwant.message_ids.as_slice(),
                resolve,
            );
        },
        ControlAction::Extensions(extensions) => {
            // The extension handshake is a handful of bytes and has no topic.
            let message: ControlExtensions = ControlExtensions {
                partial_messages: match extensions {
                    Some(e) => e.partial_messages,
                    None => None,
                },
            };
            proof {
                lemma_short_tag(6, ControlExtensions::wire_len(message@));
            }
            let bytes: usize = message.encoded_size();
            stats.untopiced.rx.add_control(
                ControlKind::Extensions,
                len_delimited_field_len(bytes),
            );
        },
    }
}

/// The ids can be handed to `resolve`, and the size of each fits.
pub open spec fn batch_fits<F: Fn(&MessageId) -> Option<TopicHash>>(
    resolve: F,
    ids: Seq<MessageId>,
) -> bool {
    forall|i: int|
        0 <= i < ids.len() ==> call_requires(resolve, (&#[trigger] ids[i],)) && bytes_len(
            1,
            ids[i]@,
        ) <= usize::MAX
}

/// Books an inbound batch of message ids, each under the topic that `resolve`
/// gives for it, or to the untopiced bucket if it gives none.
///
/// The contract fixes what is booked for the topics that `resolve` gave. It leaves
/// open how often and in what order `resolve` is called.
pub fn account_inbound_id_batch<F: Fn(&MessageId) -> Option<TopicHash>>(
    stats: &mut GossipTrafficStats,
    kind: ControlKind,
    message_ids: &[MessageId],
    resolve: F,
)
    requires
        old(stats).wf(),
        batch_fits(resolve, message_ids@),
    ensures
        final(stats).wf(),
        ids_booked(resolve, kind, message_ids@, old(stats)@, final(stats)@),
{
    let ghost before = stats@;
    let ghost ids = seq_view(message_ids@);
    let ghost mut topics: Seq<Option<TopicHash>> = Seq::empty();
    let mut i: usize = 0;
    assert(before.receive_ids(kind, ids.take(0), topics_seen(topics)) == before);
    while i < message_ids.len()
        invariant
            i <= message_ids@.len(),
            stats.wf(),
            batch_fits(resolve, message_ids@),
            ids == seq_view(message_ids@),
            topics.len() == i,
            forall|j: int|
                0 <= j < i ==> call_ensures(resolve, (&message_ids@[j],), #[trigger] topics[j]),
            stats@ == before.receive_ids(kind, ids.take(i as int), topics_seen(topics)),
        decreases message_ids@.len() - i,
    {
        let id: &MessageId = &message_ids[i];
        proof {
            assert(bytes_len(1, message_ids@[i as int]@) <= usize::MAX);
            lemma_short_tag(1, id@.len());
        }
        let bytes: usize = len_delimited_field_len(id.0.len());
        let topic: Option<TopicHash> = resolve(id);
        match &topic {
            Some(topic) => stats.rx_mut(topic).add_control(kind, bytes),
            None => stats.untopiced.rx.add_control(kind, bytes),
        }
        proof {
            let next = topics.push(topic);
            assert(ids.take(i + 1).drop_last() =~= ids.take(i as int));
            assert(topics_seen(next).drop_last() =~= topics_seen(topics));
            topics = next;
        }
        i = i + 1;
    }
    assert(ids.take(i as int) =~= ids);
    assert(resolved(resolve, message_ids@, topics));
}

} // verus!
