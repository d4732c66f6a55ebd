//! The gossipsub messages that traffic accounting looks at.
use crate::map::Key;
use vstd::prelude::*;
use vstd::slice::slice_to_vec;

verus! {

/// The hash that names a topic on the wire.
#[derive(Debug, PartialEq, Eq, PartialOrd, Ord, Hash)]
pub struct TopicHash {
    hash: String,
}

impl View for TopicHash {
    type V = Seq<char>;

    closed spec fn view(&self) -> Seq<char> {
        self.hash@
    }
}

impl TopicHash {
    /// The topic whose hash is the given string.
    pub fn from_raw(hash: String) -> (topic: TopicHash)
        ensures
            topic@ == hash@,
    {
        TopicHash { hash }
    }

    /// The hash, by value.
    pub fn into_string(self) -> (hash: String)
        ensures
            hash@ == self@,
    {
        self.hash
    }

    /// The hash, by reference.
    pub fn as_str(&self) -> (hash: &str)
        ensures
            hash@ == self@,
    {
        self.hash.as_str()
    }
}

impl Clone for TopicHash {
    fn clone(&self) -> (copy: Self)
        ensures
            copy@ == self@,
    {
        TopicHash { hash: self.hash.clone() }
    }
}

impl Key for TopicHash {
    proof fn clone_keeps_contents(key: Self, copy: Self) {
    }

    fn same(&self, other: &Self) -> (same: bool) {
        self.hash == other.hash
    }
}

/// The identifier of a published message.
#[derive(Debug, PartialEq, Eq, PartialOrd, Ord, Hash)]
pub struct MessageId(pub Vec<u8>);

impl View for MessageId {
    type V = Seq<u8>;

    open spec fn view(&self) -> Seq<u8> {
        self.0@
    }
}

impl MessageId {
    /// The identifier made of the given bytes.
    pub fn new(value: &[u8]) -> (id: MessageId)
        ensures
            id@ == value@,
    {
        MessageId(slice_to_vec(value))
    }
}

impl Clone for MessageId {
    fn clone(&self) -> (copy: Self)
        ensures
            copy@ == self@,
    {
        MessageId(clone_bytes(&self.0))
    }
}

impl Key for MessageId {
    proof fn clone_keeps_contents(key: Self, copy: Self) {
    }

    fn same(&self, other: &Self) -> (same: bool) {
        let same: bool = self.0 == other.0;
        assert(same ==> self@ =~= other@);
        same
    }
}

/// The identity of a peer, as the bytes of its multihash.
#[derive(Debug, PartialEq, Eq, PartialOrd, Ord, Hash)]
pub struct PeerId {
    multihash: Vec<u8>,
}

impl View for PeerId {
    type V = Seq<u8>;

    closed spec fn view(&self) -> Seq<u8> {
        self.multihash@
    }
}

impl PeerId {
    /// The peer whose multihash has the given bytes.
    pub fn from_bytes(multihash: Vec<u8>) -> (peer: PeerId)
        ensures
            peer@ == multihash@,
    {
        PeerId { multihash }
    }

    /// The bytes of the multihash.
    pub fn to_bytes(&self) -> (multihash: Vec<u8>)
        ensures
            multihash@ == self@,
    {
        clone_bytes(&self.multihash)
    }
}

impl Clone for PeerId {
    fn clone(&self) -> (copy: Self)
        ensures
            copy@ == self@,
    {
        PeerId { multihash: clone_bytes(&self.multihash) }
    }
}

/// A copy of a byte vector.
pub(crate) fn clone_bytes(bytes: &Vec<u8>) -> (copy: Vec<u8>)
    ensures
        copy@ == bytes@,
{
    let copy: Vec<u8> = bytes.clone();
    assert(copy@ =~= bytes@);
    copy
}

/// The view of an optional value.
pub open spec fn option_view<T: View>(value: Option<T>) -> Option<T::V> {
    match value {
        Some(inner) => Some(inner@),
        None => None,
    }
}

/// The views of a sequence of values.
pub open spec fn seq_view<T: View>(values: Seq<T>) -> Seq<T::V> {
    values.map_values(|value: T| value@)
}

/// A copy of a vector whose elements clone to their own views.
fn clone_all<T: Clone + View>(values: &Vec<T>) -> (copy: Vec<T>)
    requires
        forall|a: T, b: T| #[trigger] cloned(a, b) ==> a@ == b@,
    ensures
        seq_view(copy@) == seq_view(values@),
{
    let copy: Vec<T> = values.clone();
    assert(seq_view(copy@) =~= seq_view(values@));
    copy
}

/// A published message, as it travels between peers.
#[derive(Debug, PartialEq, Eq, Hash)]
pub struct RawMessage {
    /// The peer that published the message.
    pub source: Option<PeerId>,
    /// The application payload.
    pub data: Vec<u8>,
    /// The sequence number that the source gave the message.
    pub sequence_number: Option<u64>,
    /// The topic the message was published on.
    pub topic: TopicHash,
    /// The signature over the message, if it is signed.
    pub signature: Option<Vec<u8>>,
    /// The public key of the message, if it is signed.
    pub key: Option<Vec<u8>>,
    /// Whether the message has been validated.
    pub validated: bool,
}

/// The contents of a [`RawMessage`].
pub struct RawMessageView {
    pub source: Option<Seq<u8>>,
    pub data: Seq<u8>,
    pub sequence_number: Option<u64>,
    pub topic: Seq<char>,
    pub signature: Option<Seq<u8>>,
    pub key: Option<Seq<u8>>,
    pub validated: bool,
}

impl View for RawMessage {
    type V = RawMessageView;

    open spec fn view(&self) -> RawMessageView {
        RawMessageView {
            source: option_view(self.source),
            data: self.data@,
            sequence_number: self.sequence_number,
            topic: self.topic@,
            signature: option_view(self.signature),
            key: option_view(self.key),
            validated: self.validated,
        }
    }
}

/// A part of a message on a topic: some of its cells, and which cells the
/// sender has and wants.
#[derive(Debug, PartialEq, Eq, Hash)]
pub struct PartialMessage {
    /// The topic the message belongs to.
    pub topic_hash: TopicHash,
    /// The cells themselves.
    pub body: Option<Vec<u8>>,
    /// The bitmaps and headers that go with the cells.
    pub metadata: Option<Vec<u8>>,
}

/// The contents of a [`PartialMessage`].
pub struct PartialMessageView {
    pub topic_hash: Seq<char>,
    pub body: Option<Seq<u8>>,
    pub metadata: Option<Seq<u8>>,
}

impl View for PartialMessage {
    type V = PartialMessageView;

    open spec fn view(&self) -> PartialMessageView {
        PartialMessageView {
            topic_hash: self.topic_hash@,
            body: option_view(self.body),
            metadata: option_view(self.metadata),
        }
    }
}

/// Whether a peer joins or leaves a topic.
#[derive(Debug, Clone, Copy, PartialEq, Eq, Hash, Structural)]
pub enum SubscriptionAction {
    /// The peer wants the messages of the topic.
    Subscribe,
    /// The peer no longer wants them.
    Unsubscribe,
}

/// What a subscriber wants and can do with partial messages.
#[derive(Debug, Clone, Copy, PartialEq, Eq, Hash, Structural)]
pub struct SubscriptionOpts {
    /// The peer asks for partial messages.
    pub requests_partial: bool,
    /// The peer can send partial messages.
    pub supports_partial: bool,
}

impl Default for SubscriptionOpts {
    fn default() -> (opts: Self)
        ensures
            !opts.requests_partial,
            !opts.supports_partial,
    {
        SubscriptionOpts { requests_partial: false, supports_partial: false }
    }
}

/// A subscription announcement received from a peer.
#[derive(Debug, PartialEq, Eq, Hash)]
pub struct Subscription {
    /// Whether the peer joins or leaves.
    pub action: SubscriptionAction,
    /// The topic it joins or leaves.
    pub topic_hash: TopicHash,
    /// What it says of partial messages.
    pub options: SubscriptionOpts,
}

/// The contents of a [`Subscription`].
pub struct SubscriptionView {
    pub action: SubscriptionAction,
    pub topic_hash: Seq<char>,
    pub options: SubscriptionOpts,
}

impl View for Subscription {
    type V = SubscriptionView;

    open spec fn view(&self) -> SubscriptionView {
        SubscriptionView {
            action: self.action,
            topic_hash: self.topic_hash@,
            options: self.options,
        }
    }
}

/// Asks to be added to a peer's mesh for a topic.
#[derive(Debug, PartialEq, Eq, Hash)]
pub struct Graft {
    /// The topic of the mesh.
    pub topic_hash: TopicHash,
}

impl View for Graft {
    type V = Seq<char>;

    open spec fn view(&self) -> Seq<char> {
        self.topic_hash@
    }
}

impl Clone for Graft {
    fn clone(&self) -> (copy: Self)
        ensures
            copy@ == self@,
    {
        Graft { topic_hash: self.topic_hash.clone() }
    }
}

/// A peer offered to a pruned peer in our place.
#[derive(Debug, PartialEq, Eq, Hash)]
pub struct PeerInfo {
    /// The identity of the offered peer.
    pub peer_id: Option<PeerId>,
}

impl View for PeerInfo {
    type V = Option<Seq<u8>>;

    open spec fn view(&self) -> Option<Seq<u8>> {
        option_view(self.peer_id)
    }
}

impl Clone for PeerInfo {
    fn clone(&self) -> (copy: Self)
        ensures
            copy@ == self@,
    {
        PeerInfo {
            peer_id: match &self.peer_id {
                Some(id) => Some(id.clone()),
                None => None,
            },
        }
    }
}

/// Asks to be removed from a peer's mesh for a topic.
#[derive(Debug, PartialEq, Eq, Hash)]
pub struct Prune {
    /// The topic of the mesh.
    pub topic_hash: TopicHash,
    /// Other peers of the topic.
    pub peers: Vec<PeerInfo>,
    /// Seconds to wait before grafting again.
    pub backoff: Option<u64>,
}

/// The contents of a [`Prune`].
pub struct PruneView {
    pub topic_hash: Seq<char>,
    pub peers: Seq<Option<Seq<u8>>>,
    pub backoff: Option<u64>,
}

impl View for Prune {
    type V = PruneView;

    open spec fn view(&self) -> PruneView {
        PruneView {
            topic_hash: self.topic_hash@,
            peers: seq_view(self.peers@),
            backoff: self.backoff,
        }
    }
}

impl Clone for Prune {
    fn clone(&self) -> (copy: Self)
        ensures
            copy@ == self@,
    {
        Prune {
            topic_hash: self.topic_hash.clone(),
            peers: clone_all(&self.peers),
            backoff: self.backoff,
        }
    }
}

/// The sender holds these messages on a topic.
#[derive(Debug, PartialEq, Eq, Hash)]
pub struct IHave {
    /// The topic of the messages.
    pub topic_hash: TopicHash,
    /// The identifiers of the messages.
    pub message_ids: Vec<MessageId>,
}

/// The contents of an [`IHave`].
pub struct IHaveView {
    pub topic_hash: Seq<char>,
    pub message_ids: Seq<Seq<u8>>,
}

impl View for IHave {
    type V = IHaveView;

    open spec fn view(&self) -> IHaveView {
        IHaveView { topic_hash: self.topic_hash@, message_ids: seq_view(self.message_ids@) }
    }
}

impl Clone for IHave {
    fn clone(&self) -> (copy: Self)
        ensures
            copy@ == self@,
    {
        IHave { topic_hash: self.topic_hash.clone(), message_ids: clone_all(&self.message_ids) }
    }
}

/// The sender asks for these messages.
#[derive(Debug, PartialEq, Eq, Hash)]
pub struct IWant {
    /// The identifiers of the messages.
    pub message_ids: Vec<MessageId>,
}

impl View for IWant {
    type V = Seq<Seq<u8>>;

    open spec fn view(&self) -> Seq<Seq<u8>> {
        seq_view(self.message_ids@)
    }
}

impl Clone for IWant {
    fn clone(&self) -> (copy: Self)
        ensures
            copy@ == self@,
    {
        IWant { message_ids: clone_all(&self.message_ids) }
    }
}

/// The sender already has these messages.
#[derive(Debug, PartialEq, Eq, Hash)]
pub struct IDontWant {
    /// The identifiers of the messages.
    pub message_ids: Vec<MessageId>,
}

impl View for IDontWant {
    type V = Seq<Seq<u8>>;

    open spec fn view(&self) -> Seq<Seq<u8>> {
        seq_view(self.message_ids@)
    }
}

impl Clone for IDontWant {
    fn clone(&self) -> (copy: Self)
        ensures
            copy@ == self@,
    {
        IDontWant { message_ids: clone_all(&self.message_ids) }
    }
}

/// The protocol extensions that a peer supports.
#[derive(Debug, Clone, Copy, PartialEq, Eq, Hash)]
pub struct Extensions {
    /// Whether the peer supports partial messages.
    pub partial_messages: Option<bool>,
}

/// A control message received from a peer.
#[derive(Debug, PartialEq, Eq, Hash)]
pub enum ControlAction {
    /// The peer advertises messages.
    IHave(IHave),
    /// The peer asks for messages.
    IWant(IWant),
    /// The peer asks to be added to our mesh.
    Graft(Graft),
    /// The peer asks to be removed from our mesh.
    Prune(Prune),
    /// The peer already has messages.
    IDontWant(IDontWant),
    /// The peer told which extensions it supports.
    Extensions(Option<Extensions>),
}

/// The contents of a [`ControlAction`].
pub enum ControlActionView {
    IHave(IHaveView),
    IWant(Seq<Seq<u8>>),
    Graft(Seq<char>),
    Prune(PruneView),
    IDontWant(Seq<Seq<u8>>),
    Extensions(Option<Extensions>),
}

impl View for ControlAction {
    type V = ControlActionView;

    open spec fn view(&self) -> ControlActionView {
        match self {
            ControlAction::IHave(ihave) => ControlActionView::IHave(ihave@),
            ControlAction::IWant(iwant) => ControlActionView::IWant(iwant@),
            ControlAction::Graft(graft) => ControlActionView::Graft(graft@),
            ControlAction::Prune(prune) => ControlActionView::Prune(prune@),
            ControlAction::IDontWant(idontwant) => ControlActionView::IDontWant(idontwant@),
            ControlAction::Extensions(extensions) => ControlActionView::Extensions(*extensions),
        }
    }
}

/// An RPC to be sent to a peer.
#[derive(Debug)]
pub enum RpcOut {
    /// A published message, our own or one that we forward.
    Publish {
        /// The identifier of the message.
        message_id: MessageId,
        /// The message.
        message: RawMessage,
    },
    /// A part of a message.
    PartialMessage(PartialMessage),
    /// Announces one subscription.
    Subscribe {
        /// The topic we subscribe to.
        topic: TopicHash,
        /// We ask for partial messages.
        requests_partial: bool,
        /// We can send partial messages.
        supports_partial: bool,
    },
    /// Announces several subscriptions at once: for each its topic, and whether
    /// we ask for partial messages and can send them.
    SubscribeMany(Vec<(TopicHash, bool, bool)>),
    /// Announces that we left a topic.
    Unsubscribe(TopicHash),
    /// Asks to be added to the peer's mesh.
    Graft(Graft),
    /// Asks to be removed from the peer's mesh.
    Prune(Prune),
    /// Advertises messages.
    IHave(IHave),
    /// Asks for messages.
    IWant(IWant),
    /// Tells which messages we already have.
    IDontWant(IDontWant),
    /// Tells which extensions we support.
    Extensions(Extensions),
    /// The message of the test extension, which is empty.
    TestExtension,
}

/// The contents of an [`RpcOut`].
pub enum RpcOutView {
    Publish { message_id: Seq<u8>, message: RawMessageView },
    PartialMessage(PartialMessageView),
    Subscribe { topic: Seq<char>, requests_partial: bool, supports_partial: bool },
    SubscribeMany(Seq<(Seq<char>, bool, bool)>),
    Unsubscribe(Seq<char>),
    Graft(Seq<char>),
    Prune(PruneView),
    IHave(IHaveView),
    IWant(Seq<Seq<u8>>),
    IDontWant(Seq<Seq<u8>>),
    Extensions(Extensions),
    TestExtension,
}

impl View for RpcOut {
    type V = RpcOutView;

    open spec fn view(&self) -> RpcOutView {
        match self {
            RpcOut::Publish { message_id, message } => RpcOutView::Publish {
                message_id: message_id@,
                message: message@,
            },
            RpcOut::PartialMessage(partial) => RpcOutView::PartialMessage(partial@),
            RpcOut::Subscribe { topic, requests_partial, supports_partial } => {
                RpcOutView::Subscribe {
                    topic: topic@,
                    requests_partial: *requests_partial,
                    supports_partial: *supports_partial,
                }
            },
            RpcOut::SubscribeMany(topics) => RpcOutView::SubscribeMany(topics_view(topics@)),
            RpcOut::Unsubscribe(topic) => RpcOutView::Unsubscribe(topic@),
            RpcOut::Graft(graft) => RpcOutView::Graft(graft@),
            RpcOut::Prune(prune) => RpcOutView::Prune(prune@),
            RpcOut::IHave(ihave) => RpcOutView::IHave(ihave@),
            RpcOut::IWant(iwant) => RpcOutView::IWant(iwant@),
            RpcOut::IDontWant(idontwant) => RpcOutView::IDontWant(idontwant@),
            RpcOut::Extensions(extensions) => RpcOutView::Extensions(*extensions),
            RpcOut::TestExtension => RpcOutView::TestExtension,
        }
    }
}

/// The view of one subscription of a batch.
pub open spec fn topic_view(entry: (TopicHash, bool, bool)) -> (Seq<char>, bool, bool) {
    (entry.0@, entry.1, entry.2)
}

/// The view of a batch of subscriptions.
pub open spec fn topics_view(topics: Seq<(TopicHash, bool, bool)>) -> Seq<
    (Seq<char>, bool, bool),
> {
    topics.map_values(|entry: (TopicHash, bool, bool)| topic_view(entry))
}

impl RpcOutView {
    /// Whether the RPC is of the control class: it carries no payload.
    pub open spec fn is_control(self) -> bool {
        !(self is Publish) && !(self is PartialMessage)
    }
}

/// Clones a control-class [`RpcOut`]. Returns `None` for the payload-carrying
/// variants, which must never be cloned.
pub fn clone_control(rpc: &RpcOut) -> (copy: Option<RpcOut>)
    ensures
        copy is Some <==> rpc@.is_control(),
        copy matches Some(c) ==> c@ == rpc@,
{
    match rpc {
        RpcOut::Subscribe { topic, requests_partial, supports_partial } => Some(
            RpcOut::Subscribe {
                topic: topic.clone(),
                requests_partial: *requests_partial,
                supports_partial: *supports_partial,
            },
        ),
        RpcOut::SubscribeMany(topics) => Some(RpcOut::SubscribeMany(clone_topics(topics))),
        RpcOut::Unsubscribe(topic) => Some(RpcOut::Unsubscribe(topic.clone())),
        RpcOut::Graft(graft) => Some(RpcOut::Graft(graft.clone())),
        RpcOut::Prune(prune) => Some(RpcOut::Prune(prune.clone())),
        RpcOut::IHave(ihave) => Some(RpcOut::IHave(ihave.clone())),
        RpcOut::IWant(iwant) => Some(RpcOut::IWant(iwant.clone())),
        RpcOut::IDontWant(idontwant) => Some(RpcOut::IDontWant(idontwant.clone())),
        RpcOut::Extensions(extensions) => Some(RpcOut::Extensions(*extensions)),
        RpcOut::TestExtension => Some(RpcOut::TestExtension),
        RpcOut::Publish { .. } => None,
        RpcOut::PartialMessage(_) => None,
    }
}

/// A copy of a batch of subscriptions.
fn clone_topics(topics: &Vec<(TopicHash, bool, bool)>) -> (copy: Vec<(TopicHash, bool, bool)>)
    ensures
        topics_view(copy@) == topics_view(topics@),
{
    let mut copy: Vec<(TopicHash, bool, bool)> = Vec::with_capacity(topics.len());
    let mut i: usize = 0;
    while i < topics.len()
        invariant
            i <= topics@.len(),
            copy@.len() == i,
            forall|j: int| 0 <= j < i ==> topic_view(#[trigger] copy@[j]) == topic_view(topics@[j]),
        decreases topics@.len() - i,
    {
        copy.push((topics[i].0.clone(), topics[i].1, topics[i].2));
        i = i + 1;
    }
    assert(topics_view(copy@) =~= topics_view(topics@));
    copy
}

} // verus!
