//! How RPCs and control messages are written as protobuf messages.
use crate::proto::{
    ControlExtensions, ControlGraft, ControlIDontWant, ControlIHave, ControlIHaveView, ControlIWant,
    ControlMessage, ControlMessageView, ControlPrune, ControlPruneView, PeerInfo, PeerInfoView, Rpc,
    RpcView, SubOpts, SubOptsView, TestExtension, WireMessage,
};
use crate::types::{
    clone_bytes, clone_control, seq_view, topic_view, Graft, IHave, IHaveView, MessageId, Prune,
    PruneView, RawMessage, RawMessageView, RpcOut, RpcOutView, Subscription, SubscriptionAction,
    SubscriptionView, TopicHash,
};
use crate::wire::{
    bytes_len, delimited_len, len_delimited_field_len, optional_bytes_len, string_len,
};
use vstd::prelude::*;

verus! {

/// The message that announces a subscription.
pub open spec fn subscribe_view(entry: (Seq<char>, bool, bool)) -> SubOptsView {
    SubOptsView {
        subscribe: Some(true),
        topic_id: Some(entry.0),
        requests_partial: Some(entry.1),
        supports_partial: Some(entry.2),
    }
}

/// The message that announces that a topic was left. It says nothing of partial
/// messages.
pub open spec fn unsubscribe_view(topic: Seq<char>) -> SubOptsView {
    SubOptsView {
        subscribe: Some(false),
        topic_id: Some(topic),
        requests_partial: None,
        supports_partial: None,
    }
}

/// The message that a received announcement came as.
pub open spec fn subscription_view(subscription: SubscriptionView) -> SubOptsView {
    match subscription.action {
        SubscriptionAction::Subscribe => subscribe_view(
            (
                subscription.topic_hash,
                subscription.options.requests_partial,
                subscription.options.supports_partial,
            ),
        ),
        SubscriptionAction::Unsubscribe => unsubscribe_view(subscription.topic_hash),
    }
}

/// The message that advertises messages.
pub open spec fn ihave_view(ihave: IHaveView) -> ControlIHaveView {
    ControlIHaveView { topic_id: Some(ihave.topic_hash), message_ids: ihave.message_ids }
}

/// The message that offers a peer. Its record is never sent.
pub open spec fn peer_view(peer: Option<Seq<u8>>) -> PeerInfoView {
    PeerInfoView { peer_id: peer, signed_peer_record: None }
}

/// The message that asks to leave a mesh.
pub open spec fn prune_view(prune: PruneView) -> ControlPruneView {
    ControlPruneView {
        topic_id: Some(prune.topic_hash),
        peers: prune.peers.map_values(|peer: Option<Seq<u8>>| peer_view(peer)),
        backoff: prune.backoff,
    }
}

/// A message without any control messages.
pub open spec fn no_control() -> ControlMessageView {
    ControlMessageView {
        ihave: Seq::empty(),
        iwant: Seq::empty(),
        graft: Seq::empty(),
        prune: Seq::empty(),
        idontwant: Seq::empty(),
        extensions: None,
    }
}

/// An RPC that carries subscriptions alone.
pub open spec fn subscriptions_rpc(subscriptions: Seq<SubOptsView>) -> RpcView {
    RpcView { subscriptions, control: None, test_extension: None }
}

/// An RPC that carries control messages alone.
pub open spec fn control_rpc(control: ControlMessageView) -> RpcView {
    RpcView { subscriptions: Seq::empty(), control: Some(control), test_extension: None }
}

/// The protobuf message that a control-class RPC is sent as.
pub open spec fn protobuf(rpc: RpcOutView) -> RpcView
    recommends
        rpc.is_control(),
{
    match rpc {
        RpcOutView::Subscribe { topic, requests_partial, supports_partial } => subscriptions_rpc(
            seq![subscribe_view((topic, requests_partial, supports_partial))],
        ),
        RpcOutView::SubscribeMany(topics) => subscriptions_rpc(
            topics.map_values(|entry: (Seq<char>, bool, bool)| subscribe_view(entry)),
        ),
        RpcOutView::Unsubscribe(topic) => subscriptions_rpc(seq![unsubscribe_view(topic)]),
        RpcOutView::Graft(topic) => control_rpc(
            ControlMessageView { graft: seq![Some(topic)], ..no_control() },
        ),
        RpcOutView::Prune(prune) => control_rpc(
            ControlMessageView { prune: seq![prune_view(prune)], ..no_control() },
        ),
        RpcOutView::IHave(ihave) => control_rpc(
            ControlMessageView { ihave: seq![ihave_view(ihave)], ..no_control() },
        ),
        RpcOutView::IWant(message_ids) => control_rpc(
            ControlMessageView { iwant: seq![message_ids], ..no_control() },
        ),
        RpcOutView::IDontWant(message_ids) => control_rpc(
            ControlMessageView { idontwant: seq![message_ids], ..no_control() },
        ),
        RpcOutView::Extensions(extensions) => control_rpc(
            ControlMessageView { extensions: Some(extensions.partial_messages), ..no_control() },
        ),
        RpcOutView::TestExtension => RpcView {
            subscriptions: Seq::empty(),
            control: None,
            test_extension: Some(()),
        },
        _ => subscriptions_rpc(Seq::empty()),
    }
}

/// Encoded size of a control-class RPC. The payload-carrying RPCs are not measured
/// this way, and count for nothing here.
pub open spec fn control_len(rpc: RpcOutView) -> nat {
    if rpc.is_control() {
        Rpc::wire_len(protobuf(rpc))
    } else {
        0
    }
}

/// Encoded size of a published message: a topic, and up to five fields of bytes.
pub open spec fn message_len(message: RawMessageView) -> nat {
    optional_bytes_len(1, message.source) + bytes_len(2, message.data) + (
    match message.sequence_number {
        Some(_) => delimited_len(3, 8),
        None => 0,
    }) + string_len(4, message.topic) + optional_bytes_len(5, message.signature)
        + optional_bytes_len(6, message.key)
}

/// The bytes of message ids.
fn id_bytes(message_ids: &Vec<MessageId>) -> (bytes: Vec<Vec<u8>>)
    ensures
        seq_view(bytes@) == seq_view(message_ids@),
{
    let mut bytes: Vec<Vec<u8>> = Vec::with_capacity(message_ids.len());
    let mut i: usize = 0;
    while i < message_ids.len()
        invariant
            i <= message_ids@.len(),
            bytes@.len() == i,
            forall|j: int| 0 <= j < i ==> (#[trigger] bytes@[j])@ == message_ids@[j]@,
        decreases message_ids@.len() - i,
    {
        bytes.push(clone_bytes(&message_ids[i].0));
        i = i + 1;
    }
    assert(seq_view(bytes@) =~= seq_view(message_ids@));
    bytes
}

/// The message that announces a subscription.
pub fn subscribe_message(
    topic: &TopicHash,
    requests_partial: bool,
    supports_partial: bool,
) -> (message: SubOpts)
    ensures
        message@ == subscribe_view((topic@, requests_partial, supports_partial)),
{
    SubOpts {
        subscribe: Some(true),
        topic_id: Some(topic.clone().into_string()),
        requests_partial: Some(requests_partial),
        supports_partial: Some(supports_partial),
    }
}

/// The message that a received announcement came as.
pub fn subscription_message(subscription: &Subscription) -> (message: SubOpts)
    ensures
        message@ == subscription_view(subscription@),
{
    let subscribe: bool = matches!(subscription.action, SubscriptionAction::Subscribe);
    SubOpts {
        subscribe: Some(subscribe),
        topic_id: Some(subscription.topic_hash.clone().into_string()),
        requests_partial: if subscribe {
            Some(subscription.options.requests_partial)
        } else {
            None
        },
        supports_partial: if subscribe {
            Some(subscription.options.supports_partial)
        } else {
            None
        },
    }
}

/// The message that advertises messages.
pub fn ihave_message(ihave: &IHave) -> (message: ControlIHave)
    ensures
        message@ == ihave_view(ihave@),
{
    ControlIHave {
        topic_id: Some(ihave.topic_hash.clone().into_string()),
        message_ids: id_bytes(&ihave.message_ids),
    }
}

/// The message that asks to join a mesh.
pub fn graft_message(graft: &Graft) -> (message: ControlGraft)
    ensures
        message@ == Some(graft@),
{
    ControlGraft { topic_id: Some(graft.topic_hash.clone().into_string()) }
}

/// The message that asks to leave a mesh.
pub fn prune_message(prune: &Prune) -> (message: ControlPrune)
    ensures
        message@ == prune_view(prune@),
{
    let mut peers: Vec<PeerInfo> = Vec::with_capacity(prune.peers.len());
    let mut i: usize = 0;
    while i < prune.peers.len()
        invariant
            i <= prune.peers@.len(),
            peers@.len() == i,
            forall|j: int| 0 <= j < i ==> (#[trigger] peers@[j])@ == peer_view(prune.peers@[j]@),
        decreases prune.peers@.len() - i,
    {
        let peer_id: Option<Vec<u8>> = match &prune.peers[i].peer_id {
            Some(id) => Some(id.to_bytes()),
            None => None,
        };
        peers.push(PeerInfo { peer_id, signed_peer_record: None });
        i = i + 1;
    }
    assert(seq_view(peers@) =~= prune_view(prune@).peers);
    ControlPrune {
        topic_id: Some(prune.topic_hash.clone().into_string()),
        peers,
        backoff: prune.backoff,
    }
}

/// A message without any control messages.
fn empty_control() -> (message: ControlMessage)
    ensures
        message@ == no_control(),
{
    let message = ControlMessage {
        ihave: Vec::new(),
        iwant: Vec::new(),
        graft: Vec::new(),
        prune: Vec::new(),
        idontwant: Vec::new(),
        extensions: None,
    };
    assert(seq_view(message.ihave@) =~= no_control().ihave);
    assert(seq_view(message.iwant@) =~= no_control().iwant);
    assert(seq_view(message.graft@) =~= no_control().graft);
    assert(seq_view(message.prune@) =~= no_control().prune);
    assert(seq_view(message.idontwant@) =~= no_control().idontwant);
    message
}

/// A vector with one element.
fn single<T: View>(value: T) -> (values: Vec<T>)
    ensures
        seq_view(values@) == seq![value@],
{
    let mut values: Vec<T> = Vec::with_capacity(1);
    values.push(value);
    assert(seq_view(values@) =~= seq![value@]);
    values
}

/// An RPC that carries subscriptions alone.
fn subscriptions_only(subscriptions: Vec<SubOpts>) -> (rpc: Rpc)
    ensures
        rpc@ == subscriptions_rpc(seq_view(subscriptions@)),
{
    Rpc { subscriptions, control: None, test_extension: None }
}

/// An RPC that carries control messages alone.
fn control_only(control: ControlMessage) -> (rpc: Rpc)
    ensures
        rpc@ == control_rpc(control@),
{
    let rpc = Rpc { subscriptions: Vec::new(), control: Some(control), test_extension: None };
    assert(seq_view(rpc.subscriptions@) =~= Seq::<SubOptsView>::empty());
    rpc
}

impl RpcOut {
    /// The protobuf message that a control-class RPC is sent as.
    pub fn into_protobuf(self) -> (rpc: Rpc)
        requires
            self@.is_control(),
        ensures
            rpc@ == protobuf(self@),
    {
        match self {
            RpcOut::Subscribe { topic, requests_partial, supports_partial } => subscriptions_only(
                single(subscribe_message(&topic, requests_partial, supports_partial)),
            ),
            RpcOut::SubscribeMany(topics) => {
                let mut subscriptions: Vec<SubOpts> = Vec::with_capacity(topics.len());
                let mut i: usize = 0;
                while i < topics.len()
                    invariant
                        i <= topics@.len(),
                        subscriptions@.len() == i,
                        forall|j: int|
                            0 <= j < i ==> (#[trigger] subscriptions@[j])@ == subscribe_view(
                                topic_view(topics@[j]),
                            ),
                    decreases topics@.len() - i,
                {
                    subscriptions.push(
                        subscribe_message(&topics[i].0, topics[i].1, topics[i].2),
                    );
                    i = i + 1;
                }
                assert(seq_view(subscriptions@) =~= protobuf(self@).subscriptions);
                subscriptions_only(subscriptions)
            },
            RpcOut::Unsubscribe(topic) => subscriptions_only(
                single(
                    SubOpts {
                        subscribe: Some(false),
                        topic_id: Some(topic.into_string()),
                        requests_partial: None,
                        supports_partial: None,
                    },
                ),
            ),
            RpcOut::Graft(graft) => control_only(
                ControlMessage { graft: single(graft_message(&graft)), ..empty_control() },
            ),
            RpcOut::Prune(prune) => control_only(
                ControlMessage { prune: single(prune_message(&prune)), ..empty_control() },
            ),
            RpcOut::IHave(ihave) => control_only(
                ControlMessage { ihave: single(ihave_message(&ihave)), ..empty_control() },
            ),
            RpcOut::IWant(iwant) => control_only(
                ControlMessage {
                    iwant: single(ControlIWant { message_ids: id_bytes(&iwant.message_ids) }),
                    ..empty_control()
                },
            ),
            RpcOut::IDontWant(idontwant) => control_only(
                ControlMessage {
                    idontwant: single(
                        ControlIDontWant { message_ids: id_bytes(&idontwant.message_ids) },
                    ),
                    ..empty_control()
                },
            ),
            RpcOut::Extensions(extensions) => control_only(
                ControlMessage {
                    extensions: Some(
                        ControlExtensions { partial_messages: extensions.partial_messages },
                    ),
                    ..empty_control()
                },
            ),
            RpcOut::TestExtension => {
                let rpc = Rpc {
                    subscriptions: Vec::new(),
                    control: None,
                    test_extension: Some(TestExtension {  }),
                };
                assert(seq_view(rpc.subscriptions@) =~= Seq::<SubOptsView>::empty());
                rpc
            },
            RpcOut::Publish { .. } | RpcOut::PartialMessage(_) => subscriptions_only(Vec::new()),
        }
    }
}

/// Exact protobuf-encoded size of an outbound RPC of the control class.
///
/// Control RPCs are small, so cloning them to measure is cheap. Published and
/// partial messages are not cloned: their size is taken from the payload directly,
/// which is what is attributed anyway.
pub fn control_encoded_len(rpc: &RpcOut) -> (len: usize)
    requires
        control_len(rpc@) <= usize::MAX,
    ensures
        len == control_len(rpc@),
{
    match clone_control(rpc) {
        Some(copy) => copy.into_protobuf().encoded_size(),
        None => 0,
    }
}

/// Protobuf-encoded size of a published message, without building the protobuf
/// message.
///
/// The message is six length-delimited fields at tags 1 to 6, so the size follows
/// directly from the field lengths. A sequence number is sent as eight bytes.
pub fn message_encoded_len(message: &RawMessage) -> (len: usize)
    requires
        message_len(message@) <= usize::MAX,
    ensures
        len == message_len(message@),
{
    let mut len: usize = len_delimited_field_len(message.topic.as_str().as_bytes().len());
    if let Some(from) = &message.source {
        len = len + len_delimited_field_len(from.to_bytes().len());
    }
    len = len + len_delimited_field_len(message.data.len());
    if message.sequence_number.is_some() {
        len = len + len_delimited_field_len(8);
    }
    if let Some(signature) = &message.signature {
        len = len + len_delimited_field_len(signature.len());
    }
    if let Some(key) = &message.key {
        len = len + len_delimited_field_len(key.len());
    }
    len
}

} // verus!
