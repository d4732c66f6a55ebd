//! The protobuf messages that control RPCs are sent as, and their sizes.
//!
//! Optional fields without a value and repeated fields without an entry take no
//! space. A message inside another is a length-delimited field.
use crate::sums::{lemma_seq_sum_prefix, lemma_seq_sum_take, seq_sum};
use crate::types::{option_view, seq_view};
use crate::wire::{
    bytes_encoded_len_repeated, delimited_encoded_len, delimited_len, optional_bool_encoded_len,
    optional_bool_len, optional_bytes_encoded_len, optional_bytes_len, optional_string_encoded_len,
    optional_string_len, optional_uint64_encoded_len, optional_uint64_len, repeated_bytes_len,
    MAX_TAG,
};
use vstd::prelude::*;

verus! {

/// The tag of the test extension's message. Experimental extensions use tags that
/// take at least four bytes.
pub const TEST_EXTENSION_TAG: u32 = 6492434;

/// A protobuf message that can be measured.
pub trait WireMessage: View + Sized {
    /// Encoded size of a message with these contents.
    spec fn wire_len(message: Self::V) -> nat;

    /// Encoded size of the message.
    fn encoded_size(&self) -> (len: usize)
        requires
            Self::wire_len(self@) <= usize::MAX,
        ensures
            len == Self::wire_len(self@),
    ;
}

/// Size of a message as an entry of a repeated field.
pub open spec fn message_share<M: WireMessage>(tag: nat) -> spec_fn(M::V) -> nat {
    |message: M::V| delimited_len(tag, M::wire_len(message))
}

/// Size of a repeated field of messages.
pub open spec fn repeated_len<M: WireMessage>(tag: nat, messages: Seq<M::V>) -> nat {
    seq_sum(messages, message_share::<M>(tag))
}

/// Size of an optional field with a message.
pub open spec fn optional_len<M: WireMessage>(tag: nat, message: Option<M::V>) -> nat {
    match message {
        Some(m) => delimited_len(tag, M::wire_len(m)),
        None => 0,
    }
}

/// Size of a repeated field of messages.
fn repeated_encoded_len<M: WireMessage>(tag: u32, messages: &Vec<M>) -> (len: usize)
    requires
        tag <= MAX_TAG,
        repeated_len::<M>(tag as nat, seq_view(messages@)) <= usize::MAX,
    ensures
        len == repeated_len::<M>(tag as nat, seq_view(messages@)),
{
    let ghost views = seq_view(messages@);
    let ghost f = message_share::<M>(tag as nat);
    let mut len: usize = 0;
    let mut i: usize = 0;
    while i < messages.len()
        invariant
            tag <= MAX_TAG,
            i <= messages@.len(),
            views == seq_view(messages@),
            f == message_share::<M>(tag as nat),
            seq_sum(views, f) <= usize::MAX,
            len == seq_sum(views.take(i as int), f),
        decreases messages@.len() - i,
    {
        proof {
            lemma_seq_sum_take(views, i as int, f);
            lemma_seq_sum_prefix(views, i + 1, f);
        }
        len = len + delimited_encoded_len(tag, messages[i].encoded_size());
        i = i + 1;
    }
    assert(views.take(i as int) =~= views);
    len
}

/// Size of an optional field with a message.
fn optional_encoded_len<M: WireMessage>(tag: u32, message: &Option<M>) -> (len: usize)
    requires
        tag <= MAX_TAG,
        optional_len::<M>(tag as nat, option_view(*message)) <= usize::MAX,
    ensures
        len == optional_len::<M>(tag as nat, option_view(*message)),
{
    match message {
        Some(m) => delimited_encoded_len(tag, m.encoded_size()),
        None => 0,
    }
}

/// One subscription or unsubscription.
#[derive(Debug)]
pub struct SubOpts {
    pub subscribe: Option<bool>,
    pub topic_id: Option<String>,
    pub requests_partial: Option<bool>,
    pub supports_partial: Option<bool>,
}

/// The contents of a [`SubOpts`].
pub struct SubOptsView {
    pub subscribe: Option<bool>,
    pub topic_id: Option<Seq<char>>,
    pub requests_partial: Option<bool>,
    pub supports_partial: Option<bool>,
}

impl View for SubOpts {
    type V = SubOptsView;

    open spec fn view(&self) -> SubOptsView {
        SubOptsView {
            subscribe: self.subscribe,
            topic_id: option_view(self.topic_id),
            requests_partial: self.requests_partial,
            supports_partial: self.supports_partial,
        }
    }
}

impl WireMessage for SubOpts {
    open spec fn wire_len(message: SubOptsView) -> nat {
        optional_bool_len(1, message.subscribe) + optional_string_len(2, message.topic_id)
            + optional_bool_len(3, message.requests_partial) + optional_bool_len(
            4,
            message.supports_partial,
        )
    }

    fn encoded_size(&self) -> (len: usize) {
        optional_bool_encoded_len(1, &self.subscribe) + optional_string_encoded_len(
            2,
            &self.topic_id,
        ) + optional_bool_encoded_len(3, &self.requests_partial) + optional_bool_encoded_len(
            4,
            &self.supports_partial,
        )
    }
}

/// Messages advertised on a topic.
#[derive(Debug)]
pub struct ControlIHave {
    pub topic_id: Option<String>,
    pub message_ids: Vec<Vec<u8>>,
}

/// The contents of a [`ControlIHave`].
pub struct ControlIHaveView {
    pub topic_id: Option<Seq<char>>,
    pub message_ids: Seq<Seq<u8>>,
}

impl View for ControlIHave {
    type V = ControlIHaveView;

    open spec fn view(&self) -> ControlIHaveView {
        ControlIHaveView {
            topic_id: option_view(self.topic_id),
            message_ids: seq_view(self.message_ids@),
        }
    }
}

impl WireMessage for ControlIHave {
    open spec fn wire_len(message: ControlIHaveView) -> nat {
        optional_string_len(1, message.topic_id) + repeated_bytes_len(2, message.message_ids)
    }

    fn encoded_size(&self) -> (len: usize) {
        optional_string_encoded_len(1, &self.topic_id) + bytes_encoded_len_repeated(
            2,
            &self.message_ids,
        )
    }
}

/// Messages asked for.
#[derive(Debug)]
pub struct ControlIWant {
    pub message_ids: Vec<Vec<u8>>,
}

impl View for ControlIWant {
    type V = Seq<Seq<u8>>;

    open spec fn view(&self) -> Seq<Seq<u8>> {
        seq_view(self.message_ids@)
    }
}

impl WireMessage for ControlIWant {
    open spec fn wire_len(message: Seq<Seq<u8>>) -> nat {
        repeated_bytes_len(1, message)
    }

    fn encoded_size(&self) -> (len: usize) {
        bytes_encoded_len_repeated(1, &self.message_ids)
    }
}

/// A mesh to be joined.
#[derive(Debug)]
pub struct ControlGraft {
    pub topic_id: Option<String>,
}

impl View for ControlGraft {
    type V = Option<Seq<char>>;

    open spec fn view(&self) -> Option<Seq<char>> {
        option_view(self.topic_id)
    }
}

impl WireMessage for ControlGraft {
    open spec fn wire_len(message: Option<Seq<char>>) -> nat {
        optional_string_len(1, message)
    }

    fn encoded_size(&self) -> (len: usize) {
        optional_string_encoded_len(1, &self.topic_id)
    }
}

/// A peer offered in exchange.
#[derive(Debug)]
pub struct PeerInfo {
    pub peer_id: Option<Vec<u8>>,
    pub signed_peer_record: Option<Vec<u8>>,
}

/// The contents of a [`PeerInfo`].
pub struct PeerInfoView {
    pub peer_id: Option<Seq<u8>>,
    pub signed_peer_record: Option<Seq<u8>>,
}

impl View for PeerInfo {
    type V = PeerInfoView;

    open spec fn view(&self) -> PeerInfoView {
        PeerInfoView {
            peer_id: option_view(self.peer_id),
            signed_peer_record: option_view(self.signed_peer_record),
        }
    }
}

impl WireMessage for PeerInfo {
    open spec fn wire_len(message: PeerInfoView) -> nat {
        optional_bytes_len(1, message.peer_id) + optional_bytes_len(2, message.signed_peer_record)
    }

    fn encoded_size(&self) -> (len: usize) {
        optional_bytes_encoded_len(1, &self.peer_id) + optional_bytes_encoded_len(
            2,
            &self.signed_peer_record,
        )
    }
}

/// A mesh to be left.
#[derive(Debug)]
pub struct ControlPrune {
    pub topic_id: Option<String>,
    pub peers: Vec<PeerInfo>,
    pub backoff: Option<u64>,
}

/// The contents of a [`ControlPrune`].
pub struct ControlPruneView {
    pub topic_id: Option<Seq<char>>,
    pub peers: Seq<PeerInfoView>,
    pub backoff: Option<u64>,
}

impl View for ControlPrune {
    type V = ControlPruneView;

    open spec fn view(&self) -> ControlPruneView {
        ControlPruneView {
            topic_id: option_view(self.topic_id),
            peers: seq_view(self.peers@),
            backoff: self.backoff,
        }
    }
}

impl WireMessage for ControlPrune {
    open spec fn wire_len(message: ControlPruneView) -> nat {
        optional_string_len(1, message.topic_id) + repeated_len::<PeerInfo>(2, message.peers)
            + optional_uint64_len(3, message.backoff)
    }

    fn encoded_size(&self) -> (len: usize) {
        optional_string_encoded_len(1, &self.topic_id) + repeated_encoded_len(2, &self.peers)
            + optional_uint64_encoded_len(3, &self.backoff)
    }
}

/// Messages not wanted.
#[derive(Debug)]
pub struct ControlIDontWant {
    pub message_ids: Vec<Vec<u8>>,
}

impl View for ControlIDontWant {
    type V = Seq<Seq<u8>>;

    open spec fn view(&self) -> Seq<Seq<u8>> {
        seq_view(self.message_ids@)
    }
}

impl WireMessage for ControlIDontWant {
    open spec fn wire_len(message: Seq<Seq<u8>>) -> nat {
        repeated_bytes_len(1, message)
    }

    fn encoded_size(&self) -> (len: usize) {
        bytes_encoded_len_repeated(1, &self.message_ids)
    }
}

/// The extensions that a peer supports.
#[derive(Debug)]
pub struct ControlExtensions {
    pub partial_messages: Option<bool>,
}

impl View for ControlExtensions {
    type V = Option<bool>;

    open spec fn view(&self) -> Option<bool> {
        self.partial_messages
    }
}

impl WireMessage for ControlExtensions {
    open spec fn wire_len(message: Option<bool>) -> nat {
        optional_bool_len(10, message)
    }

    fn encoded_size(&self) -> (len: usize) {
        optional_bool_encoded_len(10, &self.partial_messages)
    }
}

/// The control messages of an RPC.
#[derive(Debug)]
pub struct ControlMessage {
    pub ihave: Vec<ControlIHave>,
    pub iwant: Vec<ControlIWant>,
    pub graft: Vec<ControlGraft>,
    pub prune: Vec<ControlPrune>,
    pub idontwant: Vec<ControlIDontWant>,
    pub extensions: Option<ControlExtensions>,
}

/// The contents of a [`ControlMessage`].
pub struct ControlMessageView {
    pub ihave: Seq<ControlIHaveView>,
    pub iwant: Seq<Seq<Seq<u8>>>,
    pub graft: Seq<Option<Seq<char>>>,
    pub prune: Seq<ControlPruneView>,
    pub idontwant: Seq<Seq<Seq<u8>>>,
    pub extensions: Option<Option<bool>>,
}

impl View for ControlMessage {
    type V = ControlMessageView;

    open spec fn view(&self) -> ControlMessageView {
        ControlMessageView {
            ihave: seq_view(self.ihave@),
            iwant: seq_view(self.iwant@),
            graft: seq_view(self.graft@),
            prune: seq_view(self.prune@),
            idontwant: seq_view(self.idontwant@),
            extensions: option_view(self.extensions),
        }
    }
}

impl WireMessage for ControlMessage {
    open spec fn wire_len(message: ControlMessageView) -> nat {
        repeated_len::<ControlIHave>(1, message.ihave) + repeated_len::<ControlIWant>(
            2,
            message.iwant,
        ) + repeated_len::<ControlGraft>(3, message.graft) + repeated_len::<ControlPrune>(
            4,
            message.prune,
        ) + repeated_len::<ControlIDontWant>(5, message.idontwant) + optional_len::<
            ControlExtensions,
        >(6, message.extensions)
    }

    fn encoded_size(&self) -> (len: usize) {
        repeated_encoded_len(1, &self.ihave) + repeated_encoded_len(2, &self.iwant)
            + repeated_encoded_len(3, &self.graft) + repeated_encoded_len(4, &self.prune)
            + repeated_encoded_len(5, &self.idontwant) + optional_encoded_len(6, &self.extensions)
    }
}

/// The message of the test extension.
#[derive(Debug)]
pub struct TestExtension {}

impl View for TestExtension {
    type V = ();

    open spec fn view(&self) -> () {
        ()
    }
}

impl WireMessage for TestExtension {
    open spec fn wire_len(message: ()) -> nat {
        0
    }

    fn encoded_size(&self) -> (len: usize) {
        0
    }
}

/// An RPC of the control class. Published and partial messages are separate
/// fields, which such an RPC leaves out.
#[derive(Debug)]
pub struct Rpc {
    pub subscriptions: Vec<SubOpts>,
    pub control: Option<ControlMessage>,
    pub test_extension: Option<TestExtension>,
}

/// The contents of an [`Rpc`].
pub struct RpcView {
    pub subscriptions: Seq<SubOptsView>,
    pub control: Option<ControlMessageView>,
    pub test_extension: Option<()>,
}

impl View for Rpc {
    type V = RpcView;

    open spec fn view(&self) -> RpcView {
        RpcView {
            subscriptions: seq_view(self.subscriptions@),
            control: option_view(self.control),
            test_extension: option_view(self.test_extension),
        }
    }
}

impl WireMessage for Rpc {
    open spec fn wire_len(message: RpcView) -> nat {
        repeated_len::<SubOpts>(1, message.subscriptions) + optional_len::<ControlMessage>(
            3,
            message.control,
        ) + optional_len::<TestExtension>(TEST_EXTENSION_TAG as nat, message.test_extension)
    }

    fn encoded_size(&self) -> (len: usize) {
        repeated_encoded_len(1, &self.subscriptions) + optional_encoded_len(3, &self.control)
            + optional_encoded_len(TEST_EXTENSION_TAG, &self.test_extension)
    }
}

} // verus!
