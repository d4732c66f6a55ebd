//! Sizes on the wire, against hand-counted values and against what prost writes.
use gossip_traffic::convert::{control_encoded_len, message_encoded_len};
use gossip_traffic::types::clone_control;
use gossip_traffic::wire::len_delimited_field_len;
use gossip_traffic::{
    Extensions, Graft, IDontWant, IHave, IWant, MessageId, PartialMessage, PeerId, PeerInfo, Prune,
    RawMessage, RpcOut, TopicHash,
};

fn topic(name: &str) -> TopicHash {
    TopicHash::from_raw(name.to_string())
}

/// A field that holds an encoded message.
fn field(tag: u32, message: &Vec<u8>) -> Vec<u8> {
    let mut out = Vec::new();
    prost::encoding::bytes::encode(tag, message, &mut out);
    out
}

fn string_field(tag: u32, value: &str) -> Vec<u8> {
    let mut out = Vec::new();
    prost::encoding::string::encode(tag, &value.to_string(), &mut out);
    out
}

fn bool_field(tag: u32, value: bool) -> Vec<u8> {
    let mut out = Vec::new();
    prost::encoding::bool::encode(tag, &value, &mut out);
    out
}

fn sub_opts(name: &str, requests: bool, supports: bool) -> Vec<u8> {
    [
        bool_field(1, true),
        string_field(2, name),
        bool_field(3, requests),
        bool_field(4, supports),
    ]
    .concat()
}

fn message() -> RawMessage {
    RawMessage {
        source: Some(PeerId::from_bytes(vec![1u8; 38])),
        data: vec![2u8; 300],
        sequence_number: Some(7),
        topic: topic("blocks"),
        signature: Some(vec![3u8; 64]),
        key: Some(vec![4u8; 36]),
        validated: true,
    }
}

#[test]
fn field_length_at_varint_boundaries() {
    assert_eq!(len_delimited_field_len(0), 2);
    assert_eq!(len_delimited_field_len(127), 129);
    assert_eq!(len_delimited_field_len(128), 131);
    assert_eq!(len_delimited_field_len(16383), 16386);
    assert_eq!(len_delimited_field_len(16384), 16388);
    assert_eq!(len_delimited_field_len(2097151), 2097155);
    assert_eq!(len_delimited_field_len(2097152), 2097157);
}

#[test]
fn message_with_every_field() {
    // 8 for the topic, 40 for the source, 303 for the data, 10 for the sequence number,
    // 66 for the signature and 38 for the key.
    assert_eq!(message_encoded_len(&message()), 8 + 40 + 303 + 10 + 66 + 38);
}

#[test]
fn message_size_is_what_prost_writes() {
    let mut out = Vec::new();
    prost::encoding::bytes::encode(1, &vec![1u8; 38], &mut out);
    prost::encoding::bytes::encode(2, &vec![2u8; 300], &mut out);
    prost::encoding::bytes::encode(3, &7u64.to_be_bytes().to_vec(), &mut out);
    prost::encoding::string::encode(4, &"blocks".to_string(), &mut out);
    prost::encoding::bytes::encode(5, &vec![3u8; 64], &mut out);
    prost::encoding::bytes::encode(6, &vec![4u8; 36], &mut out);
    assert_eq!(message_encoded_len(&message()), out.len());
}

#[test]
fn message_with_nothing_but_empty_data() {
    let message = RawMessage {
        source: None,
        data: vec![],
        sequence_number: None,
        topic: topic(""),
        signature: None,
        key: None,
        validated: false,
    };
    // The topic and the data are written though they are empty.
    assert_eq!(message_encoded_len(&message), 4);
}

#[test]
fn topics_are_measured_in_utf8_bytes() {
    let graft = RpcOut::Graft(Graft { topic_hash: topic("\u{e9}\u{20ac}") });
    // Five bytes of topic in a field, in a GRAFT, in the control messages.
    assert_eq!(control_encoded_len(&graft), 5 + 2 + 2 + 2);
}

#[test]
fn subscribe_size() {
    let rpc = RpcOut::Subscribe {
        topic: topic("topic1"),
        requests_partial: true,
        supports_partial: false,
    };
    assert_eq!(control_encoded_len(&rpc), 16);
    assert_eq!(control_encoded_len(&rpc), field(1, &sub_opts("topic1", true, false)).len());
}

#[test]
fn unsubscribe_says_nothing_of_partial_messages() {
    let rpc = RpcOut::Unsubscribe(topic("topic1"));
    assert_eq!(control_encoded_len(&rpc), 12);
    let opts = [bool_field(1, false), string_field(2, "topic1")].concat();
    assert_eq!(control_encoded_len(&rpc), field(1, &opts).len());
}

#[test]
fn subscribe_many_size() {
    let rpc = RpcOut::SubscribeMany(vec![
        (topic("a"), true, true),
        (topic("long-topic-name"), false, true),
    ]);
    let expected = field(1, &sub_opts("a", true, true)).len()
        + field(1, &sub_opts("long-topic-name", false, true)).len();
    assert_eq!(control_encoded_len(&rpc), expected);
    assert_eq!(control_encoded_len(&RpcOut::SubscribeMany(vec![])), 0);
}

#[test]
fn graft_size() {
    let rpc = RpcOut::Graft(Graft { topic_hash: topic("topic1") });
    assert_eq!(control_encoded_len(&rpc), 12);
    let expected = field(3, &field(3, &string_field(1, "topic1")));
    assert_eq!(control_encoded_len(&rpc), expected.len());
}

#[test]
fn prune_size() {
    let rpc = RpcOut::Prune(Prune {
        topic_hash: topic("topic1"),
        peers: vec![
            PeerInfo { peer_id: Some(PeerId::from_bytes(vec![9u8; 38])) },
            PeerInfo { peer_id: None },
        ],
        backoff: Some(300),
    });
    let mut prune = string_field(1, "topic1");
    let mut id = Vec::new();
    prost::encoding::bytes::encode(1, &vec![9u8; 38], &mut id);
    prune.extend(field(2, &id));
    prune.extend(field(2, &Vec::new()));
    prost::encoding::uint64::encode(3, &300u64, &mut prune);
    assert_eq!(prune.len(), 8 + 42 + 2 + 3);
    assert_eq!(control_encoded_len(&rpc), field(3, &field(4, &prune)).len());
}

#[test]
fn backoff_grows_with_its_value() {
    let prune = |backoff| {
        control_encoded_len(&RpcOut::Prune(Prune {
            topic_hash: topic("t"),
            peers: vec![],
            backoff,
        }))
    };
    assert_eq!(prune(None), 7);
    assert_eq!(prune(Some(0)), 9);
    assert_eq!(prune(Some(127)), 9);
    assert_eq!(prune(Some(128)), 10);
    assert_eq!(prune(Some(u64::MAX)), 18);
}

#[test]
fn ihave_size() {
    let rpc = RpcOut::IHave(IHave {
        topic_hash: topic("topic1"),
        message_ids: vec![MessageId::new(b"abcdefgh"), MessageId::new(b"")],
    });
    let mut ihave = string_field(1, "topic1");
    prost::encoding::bytes::encode_repeated(2, &[b"abcdefgh".to_vec(), vec![]], &mut ihave);
    assert_eq!(ihave.len(), 8 + 10 + 2);
    assert_eq!(control_encoded_len(&rpc), field(3, &field(1, &ihave)).len());
}

#[test]
fn iwant_and_idontwant_sizes() {
    let ids = vec![MessageId::new(&[1u8; 20]), MessageId::new(&[2u8; 200])];
    let iwant = RpcOut::IWant(IWant { message_ids: ids.clone() });
    let idontwant = RpcOut::IDontWant(IDontWant { message_ids: ids });
    // 22 and 203 bytes of ids, and three bytes around them at each of two levels.
    assert_eq!(control_encoded_len(&iwant), 22 + 203 + 3 + 3);
    assert_eq!(control_encoded_len(&idontwant), 22 + 203 + 3 + 3);
}

#[test]
fn extension_sizes() {
    let unset = RpcOut::Extensions(Extensions { partial_messages: None });
    let set = RpcOut::Extensions(Extensions { partial_messages: Some(false) });
    assert_eq!(control_encoded_len(&unset), 4);
    assert_eq!(control_encoded_len(&set), 6);
    assert_eq!(control_encoded_len(&set), field(3, &field(6, &bool_field(10, false))).len());
    // The test extension has a key of four bytes and no contents.
    assert_eq!(control_encoded_len(&RpcOut::TestExtension), 5);
    assert_eq!(control_encoded_len(&RpcOut::TestExtension), field(6492434, &Vec::new()).len());
}

#[test]
fn payload_rpcs_are_neither_cloned_nor_measured_as_control() {
    let publish = RpcOut::Publish { message_id: MessageId::new(b"id"), message: message() };
    let partial = RpcOut::PartialMessage(PartialMessage {
        topic_hash: topic("t"),
        body: Some(vec![0u8; 10]),
        metadata: None,
    });
    assert!(clone_control(&publish).is_none());
    assert!(clone_control(&partial).is_none());
    assert_eq!(control_encoded_len(&publish), 0);
    assert_eq!(control_encoded_len(&partial), 0);
}

#[test]
fn control_rpcs_are_cloned() {
    let graft = RpcOut::Graft(Graft { topic_hash: topic("topic1") });
    assert!(matches!(
        clone_control(&graft),
        Some(RpcOut::Graft(copy)) if copy.topic_hash == topic("topic1")
    ));
    let many = RpcOut::SubscribeMany(vec![(topic("a"), true, false)]);
    assert!(matches!(
        clone_control(&many),
        Some(RpcOut::SubscribeMany(copy)) if copy == vec![(topic("a"), true, false)]
    ));
}
