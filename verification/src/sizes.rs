//! How sizes on the wire relate to what is measured: which lengths take how many bytes,
//! and what each field of a message adds, whatever the others hold.
use crate::convert::{control_len, message_len};
use crate::inbound::{control_received, id_received, subscription_received};
use crate::outbound::{payload_len, PartView};
use crate::proto::{
    message_share, repeated_len, ControlExtensions, ControlGraft, ControlIDontWant, ControlIHave,
    ControlIHaveView, ControlIWant, ControlMessage, ControlMessageView, ControlPrune,
    ControlPruneView, PeerInfo, PeerInfoView, Rpc, RpcView, SubOpts, SubOptsView, TestExtension,
    WireMessage,
};
use crate::counters::ControlKind;
use crate::sums::{lemma_seq_sum_pointwise, lemma_seq_sum_single, seq_sum};
use crate::types::{
    ControlActionView, IHaveView, PartialMessageView, PruneView, RawMessageView, RpcOutView,
    SubscriptionAction, SubscriptionView,
};
use crate::wire::{
    bool_len, bytes_len, bytes_share, delimited_len, optional_bool_len, optional_bytes_len,
    optional_string_len, optional_uint64_len, repeated_bytes_len, short_delimited_len, string_len,
    uint64_len, utf8_len, varint_len, MAX_TAG,
};
use vstd::prelude::*;
use vstd::utf8::encode_utf8;

verus! {

/// A payload with the key and the length that stand before it.
pub open spec fn framed(n: nat) -> nat {
    1 + varint_len(n) + n
}

/// A topic in its field.
pub open spec fn framed_topic(topic: Seq<char>) -> nat {
    framed(encode_utf8(topic).len())
}

/// A message id in its field.
pub open spec fn framed_id() -> spec_fn(Seq<u8>) -> nat {
    |id: Seq<u8>| framed(id.len())
}

/// An offered peer in its field, which is empty if the peer has no identity.
pub open spec fn framed_peer() -> spec_fn(Option<Seq<u8>>) -> nat {
    |peer: Option<Seq<u8>>|
        match peer {
            Some(id) => framed(framed(id.len())),
            None => 2,
        }
}

// ---------------------------------------------------------------------------
// Fields.
// ---------------------------------------------------------------------------

/// A varint takes one byte for each seven bits: another seven bits take another byte.
pub proof fn law_varint_takes_a_byte_for_seven_bits(high: nat, low: nat)
    requires
        low < 0x80,
    ensures
        varint_len(low) == 1,
        high > 0 ==> varint_len(high * 0x80 + low) == varint_len(high) + 1,
{
    if high > 0 {
        assert((high * 0x80 + low) / 0x80 == high);
    }
}

/// How many bytes a number takes as a varint.
pub proof fn law_varint_sizes(n: nat)
    requires
        n <= u64::MAX,
    ensures
        varint_len(n) == (if n < 0x80 {
            1
        } else if n < 0x4000 {
            2
        } else if n < 0x20_0000 {
            3
        } else if n < 0x1000_0000 {
            4
        } else if n < 0x8_0000_0000 {
            5
        } else if n < 0x400_0000_0000 {
            6
        } else if n < 0x2_0000_0000_0000 {
            7
        } else if n < 0x100_0000_0000_0000 {
            8
        } else if n < 0x8000_0000_0000_0000 {
            9
        } else {
            10nat
        }),
{
    reveal_with_fuel(varint_len, 11);
}

/// A field with a tag of at most fifteen is its payload, the length of the payload as a
/// varint, and one byte.
pub proof fn law_field_sizes(tag: nat, n: nat, text: Seq<char>, bytes: Seq<u8>, number: u64)
    requires
        1 <= tag <= 15,
    ensures
        delimited_len(tag, n) == 1 + varint_len(n) + n,
        short_delimited_len(n) == 1 + varint_len(n) + n,
        framed(n) == 1 + varint_len(n) + n,
        n < 0x80 ==> delimited_len(tag, n) == n + 2,
        0x80 <= n < 0x4000 ==> delimited_len(tag, n) == n + 3,
        utf8_len(text) == encode_utf8(text).len(),
        string_len(tag, text) == framed(encode_utf8(text).len()),
        bytes_len(tag, bytes) == framed(bytes.len()),
        uint64_len(tag, number) == 1 + varint_len(number as nat),
        bool_len(tag) == 2,
{
    reveal_with_fuel(varint_len, 3);
}

/// An optional field takes nothing without a value, and with one what the value takes.
pub proof fn law_optional_field_sizes(
    tag: nat,
    text: Seq<char>,
    bytes: Seq<u8>,
    number: u64,
    flag: bool,
)
    ensures
        optional_string_len(tag, None) == 0,
        optional_string_len(tag, Some(text)) == string_len(tag, text),
        optional_bytes_len(tag, None) == 0,
        optional_bytes_len(tag, Some(bytes)) == bytes_len(tag, bytes),
        optional_uint64_len(tag, None) == 0,
        optional_uint64_len(tag, Some(number)) == uint64_len(tag, number),
        optional_bool_len(tag, None) == 0,
        optional_bool_len(tag, Some(flag)) == bool_len(tag),
{
}

/// How many bytes the key of a field takes.
pub proof fn law_key_sizes(tag: nat)
    requires
        1 <= tag <= MAX_TAG,
    ensures
        crate::wire::key_len(tag) == (if tag < 16 {
            1
        } else if tag < 2048 {
            2
        } else if tag < 262144 {
            3
        } else if tag < 33554432 {
            4
        } else {
            5nat
        }),
        MAX_TAG == 536870911,
{
    law_varint_sizes(tag * 8);
}

/// One more entry of a repeated field adds its own size.
pub proof fn law_repeated_field_sizes(tag: nat, values: Seq<Seq<u8>>, value: Seq<u8>)
    requires
        1 <= tag <= 15,
    ensures
        repeated_bytes_len(tag, Seq::empty()) == 0,
        repeated_bytes_len(tag, values.push(value)) == repeated_bytes_len(tag, values) + framed(
            value.len(),
        ),
{
    assert(values.push(value).drop_last() =~= values);
}

/// One more message of a repeated field adds its own size in a field.
pub proof fn law_repeated_message_sizes<M: WireMessage>(tag: nat, messages: Seq<M::V>, message: M::V)
    requires
        1 <= tag <= 15,
    ensures
        repeated_len::<M>(tag, Seq::empty()) == 0,
        repeated_len::<M>(tag, messages.push(message)) == repeated_len::<M>(tag, messages)
            + framed(M::wire_len(message)),
{
    assert(messages.push(message).drop_last() =~= messages);
}

proof fn lemma_ids(tag: nat, ids: Seq<Seq<u8>>)
    requires
        1 <= tag <= 15,
    ensures
        repeated_bytes_len(tag, ids) == seq_sum(ids, framed_id()),
{
    lemma_seq_sum_pointwise(ids, bytes_share(tag), ids, framed_id());
}

// ---------------------------------------------------------------------------
// Published and partial messages.
// ---------------------------------------------------------------------------

/// A message with nothing but a topic and data is those two fields.
pub proof fn law_bare_message_size(message: RawMessageView)
    requires
        message.source is None,
        message.sequence_number is None,
        message.signature is None,
        message.key is None,
    ensures
        message_len(message) == framed_topic(message.topic) + framed(message.data.len()),
{
}

/// Setting a field of a message adds the size of that field, whatever the others hold.
/// A sequence number always takes eight bytes, and being validated takes none.
pub proof fn law_each_field_of_a_message_counts(
    message: RawMessageView,
    bytes: Seq<u8>,
    number: u64,
    validated: bool,
)
    ensures
        message.source is None ==> message_len(
            RawMessageView { source: Some(bytes), ..message },
        ) == message_len(message) + framed(bytes.len()),
        message.sequence_number is None ==> message_len(
            RawMessageView { sequence_number: Some(number), ..message },
        ) == message_len(message) + 10,
        message.signature is None ==> message_len(
            RawMessageView { signature: Some(bytes), ..message },
        ) == message_len(message) + framed(bytes.len()),
        message.key is None ==> message_len(RawMessageView { key: Some(bytes), ..message })
            == message_len(message) + framed(bytes.len()),
        message_len(RawMessageView { validated, ..message }) == message_len(message),
{
}

/// Exchanging the data or the topic of a message exchanges the size of that field,
/// whatever the others hold.
pub proof fn law_data_and_topic_of_a_message_count(
    message: RawMessageView,
    data: Seq<u8>,
    topic: Seq<char>,
)
    ensures
        message_len(RawMessageView { data, ..message }) + framed(message.data.len())
            == message_len(message) + framed(data.len()),
        message_len(RawMessageView { topic, ..message }) + framed_topic(message.topic)
            == message_len(message) + framed_topic(topic),
{
}

/// The size of a published message is the sum of the sizes of its fields.
pub proof fn law_message_size_is_of_its_fields(message: RawMessageView)
    ensures
        message_len(message) == framed_topic(message.topic) + framed(message.data.len()) + (
        match message.source {
            Some(source) => framed(source.len()),
            None => 0,
        }) + (if message.sequence_number is Some {
            10nat
        } else {
            0
        }) + (match message.signature {
            Some(signature) => framed(signature.len()),
            None => 0,
        }) + (match message.key {
            Some(key) => framed(key.len()),
            None => 0,
        }),
{
}

/// The size of an optional payload is the number of its bytes.
pub proof fn law_payload_sizes(payload: Seq<u8>)
    ensures
        payload_len(None) == 0,
        payload_len(Some(payload)) == payload.len(),
{
}

// ---------------------------------------------------------------------------
// Protobuf messages.
// ---------------------------------------------------------------------------

/// A subscription is its four fields, each of which counts on its own.
pub proof fn law_subscription_size(message: SubOptsView)
    ensures
        SubOpts::wire_len(message) == (if message.subscribe is Some {
            2nat
        } else {
            0
        }) + (match message.topic_id {
            Some(topic) => framed_topic(topic),
            None => 0,
        }) + (if message.requests_partial is Some {
            2nat
        } else {
            0
        }) + (if message.supports_partial is Some {
            2nat
        } else {
            0
        }),
{
}

/// An advertisement is its topic and its ids; a request or refusal its ids; a graft its
/// topic; extensions their one flag. The test extension is empty.
pub proof fn law_control_part_sizes(
    ihave: ControlIHaveView,
    ids: Seq<Seq<u8>>,
    topic: Option<Seq<char>>,
    flag: Option<bool>,
)
    ensures
        ControlIHave::wire_len(ihave) == (match ihave.topic_id {
            Some(t) => framed_topic(t),
            None => 0,
        }) + seq_sum(ihave.message_ids, framed_id()),
        ControlIWant::wire_len(ids) == seq_sum(ids, framed_id()),
        ControlIDontWant::wire_len(ids) == seq_sum(ids, framed_id()),
        ControlGraft::wire_len(topic) == (match topic {
            Some(t) => framed_topic(t),
            None => 0,
        }),
        ControlExtensions::wire_len(flag) == (if flag is Some {
            2nat
        } else {
            0
        }),
        TestExtension::wire_len(()) == 0,
{
    lemma_ids(2, ihave.message_ids);
    lemma_ids(1, ids);
}

/// An offered peer is its identity and its record, each of which counts on its own.
pub proof fn law_peer_size(peer: PeerInfoView)
    ensures
        PeerInfo::wire_len(peer) == (match peer.peer_id {
            Some(id) => framed(id.len()),
            None => 0,
        }) + (match peer.signed_peer_record {
            Some(record) => framed(record.len()),
            None => 0,
        }),
{
}

/// A prune is its topic, its peers and its backoff, each of which counts on its own.
pub proof fn law_prune_size(prune: ControlPruneView, peer: PeerInfoView, topic: Seq<char>, backoff: u64)
    ensures
        ControlPrune::wire_len(
            ControlPruneView { topic_id: None, peers: Seq::empty(), backoff: None },
        ) == 0,
        prune.topic_id is None ==> ControlPrune::wire_len(
            ControlPruneView { topic_id: Some(topic), ..prune },
        ) == ControlPrune::wire_len(prune) + framed_topic(topic),
        ControlPrune::wire_len(ControlPruneView { peers: prune.peers.push(peer), ..prune })
            == ControlPrune::wire_len(prune) + framed(PeerInfo::wire_len(peer)),
        prune.backoff is None ==> ControlPrune::wire_len(
            ControlPruneView { backoff: Some(backoff), ..prune },
        ) == ControlPrune::wire_len(prune) + 1 + varint_len(backoff as nat),
{
    law_repeated_message_sizes::<PeerInfo>(2, prune.peers, peer);
}

/// Each control message of an RPC adds its own size in a field, whatever the others
/// are.
pub proof fn law_each_control_message_counts(
    message: ControlMessageView,
    ihave: ControlIHaveView,
    ids: Seq<Seq<u8>>,
    topic: Option<Seq<char>>,
    prune: ControlPruneView,
    flag: Option<bool>,
)
    ensures
        ControlMessage::wire_len(
            ControlMessageView {
                ihave: Seq::empty(),
                iwant: Seq::empty(),
                graft: Seq::empty(),
                prune: Seq::empty(),
                idontwant: Seq::empty(),
                extensions: None,
            },
        ) == 0,
        ControlMessage::wire_len(ControlMessageView { ihave: message.ihave.push(ihave), ..message })
            == ControlMessage::wire_len(message) + framed(ControlIHave::wire_len(ihave)),
        ControlMessage::wire_len(ControlMessageView { iwant: message.iwant.push(ids), ..message })
            == ControlMessage::wire_len(message) + framed(ControlIWant::wire_len(ids)),
        ControlMessage::wire_len(ControlMessageView { graft: message.graft.push(topic), ..message })
            == ControlMessage::wire_len(message) + framed(ControlGraft::wire_len(topic)),
        ControlMessage::wire_len(ControlMessageView { prune: message.prune.push(prune), ..message })
            == ControlMessage::wire_len(message) + framed(ControlPrune::wire_len(prune)),
        ControlMessage::wire_len(
            ControlMessageView { idontwant: message.idontwant.push(ids), ..message },
        ) == ControlMessage::wire_len(message) + framed(ControlIDontWant::wire_len(ids)),
        message.extensions is None ==> ControlMessage::wire_len(
            ControlMessageView { extensions: Some(flag), ..message },
        ) == ControlMessage::wire_len(message) + framed(ControlExtensions::wire_len(flag)),
{
    law_repeated_message_sizes::<ControlIHave>(1, message.ihave, ihave);
    law_repeated_message_sizes::<ControlIWant>(2, message.iwant, ids);
    law_repeated_message_sizes::<ControlGraft>(3, message.graft, topic);
    law_repeated_message_sizes::<ControlPrune>(4, message.prune, prune);
    law_repeated_message_sizes::<ControlIDontWant>(5, message.idontwant, ids);
}

/// Each subscription of an RPC adds its own size in a field, its control messages add
/// theirs, and the test extension adds five bytes.
pub proof fn law_each_part_of_an_rpc_counts(
    rpc: RpcView,
    subscription: SubOptsView,
    control: ControlMessageView,
)
    ensures
        Rpc::wire_len(
            RpcView { subscriptions: Seq::empty(), control: None, test_extension: None },
        ) == 0,
        Rpc::wire_len(RpcView { subscriptions: rpc.subscriptions.push(subscription), ..rpc })
            == Rpc::wire_len(rpc) + framed(SubOpts::wire_len(subscription)),
        rpc.control is None ==> Rpc::wire_len(RpcView { control: Some(control), ..rpc })
            == Rpc::wire_len(rpc) + framed(ControlMessage::wire_len(control)),
        rpc.test_extension is None ==> Rpc::wire_len(RpcView { test_extension: Some(()), ..rpc })
            == Rpc::wire_len(rpc) + 5,
{
    law_repeated_message_sizes::<SubOpts>(1, rpc.subscriptions, subscription);
    law_key_sizes(6492434);
}

// ---------------------------------------------------------------------------
// RPCs and received control messages.
// ---------------------------------------------------------------------------

/// The peers of a prune, in their fields.
proof fn lemma_peers(prune: PruneView)
    ensures
        repeated_len::<PeerInfo>(2, crate::convert::prune_view(prune).peers) == seq_sum(
            prune.peers,
            framed_peer(),
        ),
{
    let peers = crate::convert::prune_view(prune).peers;
    assert forall|i: int| 0 <= i < peers.len() implies (message_share::<PeerInfo>(2))(
        #[trigger] peers[i],
    ) == (framed_peer())(prune.peers[i]) by {}
    lemma_seq_sum_pointwise(peers, message_share::<PeerInfo>(2), prune.peers, framed_peer());
}

/// What a received control message takes, from its contents: an advertisement its topic
/// and ids, a graft its topic, a prune its topic, peers and backoff, the extension
/// handshake its flag. Each is in a field of its own.
pub proof fn law_received_control_sizes(
    ihave: IHaveView,
    topic: Seq<char>,
    prune: PruneView,
    extensions: Option<crate::types::Extensions>,
)
    ensures
        control_received(ControlActionView::IHave(ihave))->0.bytes == framed(
            framed_topic(ihave.topic_hash) + seq_sum(ihave.message_ids, framed_id()),
        ),
        control_received(ControlActionView::Graft(topic))->0.bytes == framed(framed_topic(topic)),
        control_received(ControlActionView::Prune(prune))->0.bytes == framed(
            framed_topic(prune.topic_hash) + seq_sum(prune.peers, framed_peer()) + (
            match prune.backoff {
                Some(backoff) => 1 + varint_len(backoff as nat),
                None => 0,
            }),
        ),
        control_received(ControlActionView::Extensions(extensions))->0.bytes == (
        match extensions {
            Some(e) => if e.partial_messages is Some {
                4nat
            } else {
                2
            },
            None => 2,
        }),
{
    lemma_ids(2, ihave.message_ids);
    lemma_peers(prune);
}

/// A received announcement takes its topic, a flag, and two more flags if it subscribes.
pub proof fn law_received_subscription_size(subscription: SubscriptionView)
    ensures
        subscription_received(subscription).bytes == framed(
            framed_topic(subscription.topic_hash) + (if subscription.action
                == SubscriptionAction::Subscribe {
                6nat
            } else {
                2
            }),
        ),
{
}

/// A received id takes its own field.
pub proof fn law_received_id_size(kind: ControlKind, id: Seq<u8>, topic: Option<Seq<char>>)
    ensures
        id_received(kind, id, topic) == (PartView { topic, kind, bytes: framed(id.len()) }),
{
}

/// What each kind of outbound RPC of the control class takes, from its contents. A
/// control message is in a field of the control messages, which are in a field of the
/// RPC.
pub proof fn law_sent_control_sizes(
    topic: Seq<char>,
    requests_partial: bool,
    supports_partial: bool,
    prune: PruneView,
    ihave: IHaveView,
    ids: Seq<Seq<u8>>,
    extensions: crate::types::Extensions,
)
    ensures
        control_len(RpcOutView::Subscribe { topic, requests_partial, supports_partial }) == framed(
            framed_topic(topic) + 6,
        ),
        control_len(RpcOutView::Unsubscribe(topic)) == framed(framed_topic(topic) + 2),
        control_len(RpcOutView::Graft(topic)) == framed(framed(framed_topic(topic))),
        control_len(RpcOutView::Prune(prune)) == framed(
            framed(
                framed_topic(prune.topic_hash) + seq_sum(prune.peers, framed_peer()) + (
                match prune.backoff {
                    Some(backoff) => 1 + varint_len(backoff as nat),
                    None => 0,
                }),
            ),
        ),
        control_len(RpcOutView::IHave(ihave)) == framed(
            framed(framed_topic(ihave.topic_hash) + seq_sum(ihave.message_ids, framed_id())),
        ),
        control_len(RpcOutView::IWant(ids)) == framed(framed(seq_sum(ids, framed_id()))),
        control_len(RpcOutView::IDontWant(ids)) == framed(framed(seq_sum(ids, framed_id()))),
        control_len(RpcOutView::Extensions(extensions)) == (if extensions.partial_messages is Some {
            6nat
        } else {
            4
        }),
        control_len(RpcOutView::TestExtension) == 5,
{
    lemma_ids(1, ids);
    lemma_ids(2, ihave.message_ids);
    lemma_peers(prune);
    law_key_sizes(6492434);
    lemma_seq_sum_single(
        crate::convert::subscribe_view((topic, requests_partial, supports_partial)),
        message_share::<SubOpts>(1),
    );
    lemma_seq_sum_single(crate::convert::unsubscribe_view(topic), message_share::<SubOpts>(1));
    lemma_seq_sum_single(Some(topic), message_share::<ControlGraft>(3));
    lemma_seq_sum_single(crate::convert::prune_view(prune), message_share::<ControlPrune>(4));
    lemma_seq_sum_single(crate::convert::ihave_view(ihave), message_share::<ControlIHave>(1));
    lemma_seq_sum_single(ids, message_share::<ControlIWant>(2));
    lemma_seq_sum_single(ids, message_share::<ControlIDontWant>(5));
}

/// One more subscription adds its own field to a frame of several; a frame of none is
/// empty.
pub proof fn law_each_subscription_of_a_frame_counts(
    topics: Seq<(Seq<char>, bool, bool)>,
    entry: (Seq<char>, bool, bool),
)
    ensures
        control_len(RpcOutView::SubscribeMany(Seq::empty())) == 0,
        control_len(RpcOutView::SubscribeMany(topics.push(entry))) == control_len(
            RpcOutView::SubscribeMany(topics),
        ) + framed(framed_topic(entry.0) + 6),
{
    let messages = crate::convert::protobuf(RpcOutView::SubscribeMany(topics)).subscriptions;
    let more = crate::convert::protobuf(
        RpcOutView::SubscribeMany(topics.push(entry)),
    ).subscriptions;
    assert(more =~= messages.push(crate::convert::subscribe_view(entry)));
    assert(more.drop_last() =~= messages);
    assert(crate::convert::protobuf(
        RpcOutView::SubscribeMany(Seq::empty()),
    ).subscriptions.len() == 0);
}

/// Payload is not measured as control.
pub proof fn law_payload_is_not_measured_as_control(
    message_id: Seq<u8>,
    message: RawMessageView,
    partial: PartialMessageView,
)
    ensures
        control_len(RpcOutView::Publish { message_id, message }) == 0,
        control_len(RpcOutView::PartialMessage(partial)) == 0,
{
}

/// A control message is received as what was sent without the field that held it: the
/// two ends agree on its size.
pub proof fn law_both_ends_agree_on_sizes(
    topic: Seq<char>,
    prune: PruneView,
    ihave: IHaveView,
    extensions: crate::types::Extensions,
    subscription: SubscriptionView,
)
    ensures
        control_len(RpcOutView::Graft(topic)) == framed(
            control_received(ControlActionView::Graft(topic))->0.bytes,
        ),
        control_len(RpcOutView::Prune(prune)) == framed(
            control_received(ControlActionView::Prune(prune))->0.bytes,
        ),
        control_len(RpcOutView::IHave(ihave)) == framed(
            control_received(ControlActionView::IHave(ihave))->0.bytes,
        ),
        control_len(RpcOutView::Extensions(extensions)) == framed(
            control_received(ControlActionView::Extensions(Some(extensions)))->0.bytes,
        ),
        subscription_received(subscription).bytes == control_len(
            if subscription.action == SubscriptionAction::Subscribe {
                RpcOutView::Subscribe {
                    topic: subscription.topic_hash,
                    requests_partial: subscription.options.requests_partial,
                    supports_partial: subscription.options.supports_partial,
                }
            } else {
                RpcOutView::Unsubscribe(subscription.topic_hash)
            },
        ),
{
    law_sent_control_sizes(
        topic,
        subscription.options.requests_partial,
        subscription.options.supports_partial,
        prune,
        ihave,
        Seq::empty(),
        extensions,
    );
    law_sent_control_sizes(
        subscription.topic_hash,
        subscription.options.requests_partial,
        subscription.options.supports_partial,
        prune,
        ihave,
        Seq::empty(),
        extensions,
    );
    law_received_control_sizes(ihave, topic, prune, Some(extensions));
    law_received_subscription_size(subscription);
    reveal_with_fuel(varint_len, 2);
}

} // verus!
