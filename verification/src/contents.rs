//! What the views hold: every field of a value, and nothing else. And what each RPC is
//! written as, field by field.
use crate::convert::{
    ihave_view, peer_view, protobuf, prune_view, subscribe_view, subscription_view,
    unsubscribe_view,
};
use crate::counters::{DirectionalTraffic, TrafficCounters};
use crate::inbound::topics_seen;
use crate::map::KeyedMap;
use crate::outbound::{
    id_topics, Attribution, AttributionView, Contribution, ContributionView, PartView,
};
use crate::proto;
use crate::stats::GossipTrafficStats;
use crate::types::{
    option_view, seq_view, topics_view, ControlAction, ControlActionView, Graft, IDontWant, IHave,
    IHaveView, IWant, MessageId, PartialMessage, PeerInfo, Prune, PruneView, RawMessage, RpcOut,
    RpcOutView, Subscription, SubscriptionAction, SubscriptionView, TopicHash,
};
use vstd::prelude::*;
use vstd::std_specs::cmp::PartialEqSpec;

verus! {

// ---------------------------------------------------------------------------
// Views.
// ---------------------------------------------------------------------------

/// The view of an optional value is that of the value, and the views of a sequence are
/// those of its elements, in their order.
pub proof fn law_views_go_through<T: View>(value: T, values: Seq<T>)
    ensures
        option_view(Some(value)) == Some(value@),
        option_view(None::<T>) is None,
        seq_view(values).len() == values.len(),
        forall|i: int| 0 <= i < values.len() ==> #[trigger] seq_view(values)[i] == values[i]@,
{
}

/// The contents of counters are their fields.
pub proof fn law_contents_of_counters(counters: TrafficCounters)
    ensures
        counters@.data_bytes == counters.data_bytes,
        counters@.data_msgs == counters.data_msgs,
        counters@.meta_bytes == counters.meta_bytes,
        counters@.meta_msgs == counters.meta_msgs,
        counters@.control_bytes == counters.control_bytes@,
        counters@.control_msgs == counters.control_msgs@,
{
}

/// The contents of an entry are the counters of its two directions.
pub proof fn law_contents_of_an_entry(traffic: DirectionalTraffic)
    ensures
        traffic@.tx == traffic.tx@,
        traffic@.rx == traffic.rx@,
{
}

/// The contents of statistics are the contents of every entry and of the untopiced
/// bucket.
pub proof fn law_contents_of_statistics(stats: GossipTrafficStats, topic: Seq<char>)
    ensures
        stats@.per_topic.contains_key(topic) <==> stats.per_topic@.contains_key(topic),
        stats.per_topic@.contains_key(topic) ==> stats@.per_topic[topic]
            == stats.per_topic@[topic]@,
        stats@.untopiced == stats.untopiced@,
        stats.wf() <==> stats.per_topic.wf(),
{
}

/// Counters are equal exactly if every one of them is, and entries exactly if both their
/// directions are.
pub proof fn law_equality_is_of_every_counter(
    one: DirectionalTraffic,
    other: DirectionalTraffic,
)
    ensures
        PartialEqSpec::eq_spec(&one, &other) <==> PartialEqSpec::eq_spec(&one.tx, &other.tx)
            && PartialEqSpec::eq_spec(&one.rx, &other.rx),
        PartialEqSpec::eq_spec(&one.tx, &other.tx) <==> {
            &&& one.tx.data_bytes == other.tx.data_bytes
            &&& one.tx.data_msgs == other.tx.data_msgs
            &&& one.tx.meta_bytes == other.tx.meta_bytes
            &&& one.tx.meta_msgs == other.tx.meta_msgs
            &&& one.tx.control_bytes@ == other.tx.control_bytes@
            &&& one.tx.control_msgs@ == other.tx.control_msgs@
        },
{
    assert(PartialEqSpec::eq_spec(&one.tx, &other.tx) <==> one.tx@ == other.tx@);
    assert(PartialEqSpec::eq_spec(&one.rx, &other.rx) <==> one.rx@ == other.rx@);
}

/// The contents of an id are its bytes.
pub proof fn law_contents_of_an_id(id: MessageId)
    ensures
        id@ == id.0@,
{
}

/// The contents of a published message are its fields.
pub proof fn law_contents_of_a_message(message: RawMessage)
    ensures
        message@.source == option_view(message.source),
        message@.data == message.data@,
        message@.sequence_number == message.sequence_number,
        message@.topic == message.topic@,
        message@.signature == option_view(message.signature),
        message@.key == option_view(message.key),
        message@.validated == message.validated,
{
}

/// The contents of a partial message are its fields.
pub proof fn law_contents_of_a_partial_message(partial: PartialMessage)
    ensures
        partial@.topic_hash == partial.topic_hash@,
        partial@.body == option_view(partial.body),
        partial@.metadata == option_view(partial.metadata),
{
}

/// The contents of an announcement are its fields.
pub proof fn law_contents_of_an_announcement(subscription: Subscription)
    ensures
        subscription@.action == subscription.action,
        subscription@.topic_hash == subscription.topic_hash@,
        subscription@.options == subscription.options,
{
}

/// The contents of control messages are their fields, with every id and every peer in
/// its place.
pub proof fn law_contents_of_control_messages(
    graft: Graft,
    peer: PeerInfo,
    prune: Prune,
    ihave: IHave,
    iwant: IWant,
    idontwant: IDontWant,
)
    ensures
        graft@ == graft.topic_hash@,
        peer@ == option_view(peer.peer_id),
        prune@.topic_hash == prune.topic_hash@,
        prune@.peers == seq_view(prune.peers@),
        prune@.backoff == prune.backoff,
        ihave@.topic_hash == ihave.topic_hash@,
        ihave@.message_ids == seq_view(ihave.message_ids@),
        iwant@ == seq_view(iwant.message_ids@),
        idontwant@ == seq_view(idontwant.message_ids@),
{
}

/// The contents of a received control message are those of what it is.
pub proof fn law_contents_of_received_control(control: ControlAction)
    ensures
        match control {
            ControlAction::IHave(ihave) => control@ == ControlActionView::IHave(ihave@),
            ControlAction::IWant(iwant) => control@ == ControlActionView::IWant(iwant@),
            ControlAction::Graft(graft) => control@ == ControlActionView::Graft(graft@),
            ControlAction::Prune(prune) => control@ == ControlActionView::Prune(prune@),
            ControlAction::IDontWant(idontwant) => control@ == ControlActionView::IDontWant(
                idontwant@,
            ),
            ControlAction::Extensions(extensions) => control@ == ControlActionView::Extensions(
                extensions,
            ),
        },
{
}

/// The contents of an RPC are those of what it is.
pub proof fn law_contents_of_an_rpc(rpc: RpcOut)
    ensures
        match rpc {
            RpcOut::Publish { message_id, message } => rpc@ == (RpcOutView::Publish {
                message_id: message_id@,
                message: message@,
            }),
            RpcOut::PartialMessage(partial) => rpc@ == RpcOutView::PartialMessage(partial@),
            RpcOut::Subscribe { topic, requests_partial, supports_partial } => rpc@
                == (RpcOutView::Subscribe { topic: topic@, requests_partial, supports_partial }),
            RpcOut::SubscribeMany(topics) => rpc@ matches RpcOutView::SubscribeMany(views)
                && views.len() == topics@.len() && (forall|i: int|
                0 <= i < views.len() ==> #[trigger] views[i] == (
                    topics@[i].0@,
                    topics@[i].1,
                    topics@[i].2,
                )),
            RpcOut::Unsubscribe(topic) => rpc@ == RpcOutView::Unsubscribe(topic@),
            RpcOut::Graft(graft) => rpc@ == RpcOutView::Graft(graft@),
            RpcOut::Prune(prune) => rpc@ == RpcOutView::Prune(prune@),
            RpcOut::IHave(ihave) => rpc@ == RpcOutView::IHave(ihave@),
            RpcOut::IWant(iwant) => rpc@ == RpcOutView::IWant(iwant@),
            RpcOut::IDontWant(idontwant) => rpc@ == RpcOutView::IDontWant(idontwant@),
            RpcOut::Extensions(extensions) => rpc@ == RpcOutView::Extensions(extensions),
            RpcOut::TestExtension => rpc@ == RpcOutView::TestExtension,
        },
{
    if let RpcOut::SubscribeMany(topics) = rpc {
        assert forall|i: int| 0 <= i < topics@.len() implies #[trigger] topics_view(topics@)[i] == (
            topics@[i].0@,
            topics@[i].1,
            topics@[i].2,
        ) by {}
    }
}

/// An RPC is of the control class exactly if it is neither a published nor a partial
/// message.
pub proof fn law_control_class(rpc: RpcOutView)
    ensures
        rpc.is_control() <==> match rpc {
            RpcOutView::Publish { .. } => false,
            RpcOutView::PartialMessage(_) => false,
            RpcOutView::Subscribe { .. } => true,
            RpcOutView::SubscribeMany(_) => true,
            RpcOutView::Unsubscribe(_) => true,
            RpcOutView::Graft(_) => true,
            RpcOutView::Prune(_) => true,
            RpcOutView::IHave(_) => true,
            RpcOutView::IWant(_) => true,
            RpcOutView::IDontWant(_) => true,
            RpcOutView::Extensions(_) => true,
            RpcOutView::TestExtension => true,
        },
{
}

/// The contents of an attribution are the topic, or the topic of every id.
pub proof fn law_contents_of_an_attribution(
    topic: &TopicHash,
    map: &KeyedMap<MessageId, TopicHash>,
    id: Seq<u8>,
)
    ensures
        Attribution::Untopiced@ == AttributionView::Untopiced,
        Attribution::Topic(topic)@ == AttributionView::Topic(topic@),
        Attribution::PerMessage(map)@ == AttributionView::PerMessage(id_topics(map@)),
        id_topics(map@).contains_key(id) <==> map@.contains_key(id),
        map@.contains_key(id) ==> id_topics(map@)[id] == map@[id]@,
        Attribution::Untopiced.wf(),
        Attribution::Topic(topic).wf(),
        Attribution::PerMessage(map).wf() <==> map.wf(),
{
}

/// The contents of a contribution are its fields, with every part in its place.
pub proof fn law_contents_of_a_contribution(contribution: Contribution)
    ensures
        match contribution {
            Contribution::Nothing => contribution@ == ContributionView::Nothing,
            Contribution::Data { topic, bytes } => contribution@ == (ContributionView::Data {
                topic: topic@,
                bytes: bytes as nat,
            }),
            Contribution::Partial { topic, body, meta } => contribution@
                == (ContributionView::Partial {
                topic: topic@,
                body: body as nat,
                meta: meta as nat,
            }),
            Contribution::Control { topic, kind, bytes } => contribution@
                == ContributionView::Control(
                PartView { topic: option_view(topic), kind, bytes: bytes as nat },
            ),
            Contribution::Many(parts) => contribution@ matches ContributionView::Many(views)
                && views.len() == parts@.len() && (forall|i: int|
                0 <= i < views.len() ==> #[trigger] views[i] == (PartView {
                    topic: option_view(parts@[i].0),
                    kind: parts@[i].1,
                    bytes: parts@[i].2 as nat,
                })),
        },
{
}

/// The topics that ids were resolved to, each in its place.
pub proof fn law_contents_of_resolved_topics(topics: Seq<Option<TopicHash>>)
    ensures
        topics_seen(topics).len() == topics.len(),
        forall|i: int|
            0 <= i < topics.len() ==> #[trigger] topics_seen(topics)[i] == option_view(topics[i]),
{
}

/// The contents of protobuf messages are their fields.
pub proof fn law_contents_of_protobuf_messages(
    subscription: proto::SubOpts,
    ihave: proto::ControlIHave,
    iwant: proto::ControlIWant,
    graft: proto::ControlGraft,
    peer: proto::PeerInfo,
    prune: proto::ControlPrune,
    idontwant: proto::ControlIDontWant,
    extensions: proto::ControlExtensions,
)
    ensures
        subscription@.subscribe == subscription.subscribe,
        subscription@.topic_id == option_view(subscription.topic_id),
        subscription@.requests_partial == subscription.requests_partial,
        subscription@.supports_partial == subscription.supports_partial,
        ihave@.topic_id == option_view(ihave.topic_id),
        ihave@.message_ids == seq_view(ihave.message_ids@),
        iwant@ == seq_view(iwant.message_ids@),
        graft@ == option_view(graft.topic_id),
        peer@.peer_id == option_view(peer.peer_id),
        peer@.signed_peer_record == option_view(peer.signed_peer_record),
        prune@.topic_id == option_view(prune.topic_id),
        prune@.peers == seq_view(prune.peers@),
        prune@.backoff == prune.backoff,
        idontwant@ == seq_view(idontwant.message_ids@),
        extensions@ == extensions.partial_messages,
{
}

/// The contents of a protobuf RPC and its control messages are their fields.
pub proof fn law_contents_of_a_protobuf_rpc(rpc: proto::Rpc, control: proto::ControlMessage)
    ensures
        rpc@.subscriptions == seq_view(rpc.subscriptions@),
        rpc@.control == option_view(rpc.control),
        rpc@.test_extension == option_view(rpc.test_extension),
        control@.ihave == seq_view(control.ihave@),
        control@.iwant == seq_view(control.iwant@),
        control@.graft == seq_view(control.graft@),
        control@.prune == seq_view(control.prune@),
        control@.idontwant == seq_view(control.idontwant@),
        control@.extensions == option_view(control.extensions),
{
}

// ---------------------------------------------------------------------------
// What is written.
// ---------------------------------------------------------------------------

/// What an announcement is written as: both actions name the topic, and only a
/// subscription says something of partial messages.
pub proof fn law_announcements_are_written(
    topic: Seq<char>,
    requests: bool,
    supports: bool,
    subscription: SubscriptionView,
)
    ensures
        subscribe_view((topic, requests, supports)).subscribe == Some(true),
        subscribe_view((topic, requests, supports)).topic_id == Some(topic),
        subscribe_view((topic, requests, supports)).requests_partial == Some(requests),
        subscribe_view((topic, requests, supports)).supports_partial == Some(supports),
        unsubscribe_view(topic).subscribe == Some(false),
        unsubscribe_view(topic).topic_id == Some(topic),
        unsubscribe_view(topic).requests_partial is None,
        unsubscribe_view(topic).supports_partial is None,
        subscription.action == SubscriptionAction::Subscribe ==> subscription_view(subscription)
            == subscribe_view(
            (
                subscription.topic_hash,
                subscription.options.requests_partial,
                subscription.options.supports_partial,
            ),
        ),
        subscription.action == SubscriptionAction::Unsubscribe ==> subscription_view(subscription)
            == unsubscribe_view(subscription.topic_hash),
{
}

/// What an advertisement and a prune are written as. The record of an offered peer is
/// never written.
pub proof fn law_control_messages_are_written(
    ihave: IHaveView,
    prune: PruneView,
    peer: Option<Seq<u8>>,
)
    ensures
        ihave_view(ihave).topic_id == Some(ihave.topic_hash),
        ihave_view(ihave).message_ids == ihave.message_ids,
        peer_view(peer).peer_id == peer,
        peer_view(peer).signed_peer_record is None,
        prune_view(prune).topic_id == Some(prune.topic_hash),
        prune_view(prune).peers.len() == prune.peers.len(),
        forall|i: int|
            0 <= i < prune.peers.len() ==> #[trigger] prune_view(prune).peers[i] == peer_view(
                prune.peers[i],
            ),
        prune_view(prune).backoff == prune.backoff,
{
}

/// What each RPC of the control class is written as: announcements as subscriptions, and
/// control messages in the field of their kind. Every other field is empty.
pub proof fn law_rpcs_are_written(rpc: RpcOutView)
    requires
        !(rpc is Publish),
        !(rpc is PartialMessage),
    ensures
        ({
            let written = protobuf(rpc);
            let subscriptions = written.subscriptions;
            &&& match rpc {
                RpcOutView::Subscribe { topic, requests_partial, supports_partial } => subscriptions
                    == seq![subscribe_view((topic, requests_partial, supports_partial))],
                RpcOutView::SubscribeMany(topics) => subscriptions.len() == topics.len() && (
                forall|i: int|
                    0 <= i < topics.len() ==> #[trigger] subscriptions[i] == subscribe_view(
                        topics[i],
                    )),
                RpcOutView::Unsubscribe(topic) => subscriptions == seq![unsubscribe_view(topic)],
                _ => subscriptions.len() == 0,
            }
            &&& match rpc {
                RpcOutView::Subscribe { .. } => written.control is None,
                RpcOutView::SubscribeMany(_) => written.control is None,
                RpcOutView::Unsubscribe(_) => written.control is None,
                RpcOutView::TestExtension => written.control is None,
                _ => written.control is Some,
            }
            &&& written.test_extension is Some <==> rpc is TestExtension
            &&& written.control matches Some(control) ==> {
                &&& control.graft == match rpc {
                    RpcOutView::Graft(topic) => seq![Some(topic)],
                    _ => Seq::empty(),
                }
                &&& control.prune == match rpc {
                    RpcOutView::Prune(prune) => seq![prune_view(prune)],
                    _ => Seq::empty(),
                }
                &&& control.ihave == match rpc {
                    RpcOutView::IHave(ihave) => seq![ihave_view(ihave)],
                    _ => Seq::empty(),
                }
                &&& control.iwant == match rpc {
                    RpcOutView::IWant(ids) => seq![ids],
                    _ => Seq::empty(),
                }
                &&& control.idontwant == match rpc {
                    RpcOutView::IDontWant(ids) => seq![ids],
                    _ => Seq::empty(),
                }
                &&& control.extensions == match rpc {
                    RpcOutView::Extensions(extensions) => Some(extensions.partial_messages),
                    _ => None,
                }
            }
        }),
{
}

} // verus!
