//! Counters, classification and the laws of accounting, on concrete values.
use gossip_traffic::convert::{control_encoded_len, message_encoded_len};
use gossip_traffic::outbound::classify_id_batch;
use gossip_traffic::{
    account_inbound_control, account_inbound_id_batch, account_inbound_message,
    account_inbound_partial, account_inbound_subscription, account_outbound_dropped, classify_outbound, Attribution,
    Contribution, ControlAction, ControlKind, DirectionalTraffic, Extensions, GossipTrafficStats,
    Graft, IDontWant, IHave, IWant, KeyedMap, MessageId, PartialMessage, PeerId, PeerInfo, Prune,
    RawMessage, RpcOut, Subscription, SubscriptionAction, SubscriptionOpts, TopicHash,
    TrafficCounters,
};

fn topic(name: &str) -> TopicHash {
    TopicHash::from_raw(name.to_string())
}

fn publish(name: &str, len: usize) -> RpcOut {
    RpcOut::Publish {
        message_id: MessageId::new(b"id"),
        message: RawMessage {
            source: None,
            data: vec![0u8; len],
            sequence_number: Some(1),
            topic: topic(name),
            signature: None,
            key: None,
            validated: true,
        },
    }
}

fn send(stats: &mut GossipTrafficStats, rpc: &RpcOut) {
    classify_outbound(rpc, Attribution::Untopiced).apply_tx(stats);
}

fn unresolved(_: &MessageId) -> Option<TopicHash> {
    None
}

/// The parts of a contribution that spans several topics.
fn parts(contribution: Contribution) -> Vec<(Option<TopicHash>, ControlKind, usize)> {
    match contribution {
        Contribution::Many(parts) => parts,
        other => panic!("not a batch: {:?}", other),
    }
}

#[test]
fn kinds_are_numbered_in_order() {
    assert_eq!(ControlKind::COUNT, 7);
    for (i, kind) in ControlKind::ALL.iter().enumerate() {
        assert_eq!(kind.index(), i);
        assert_eq!(ControlKind::ALL[kind.index()], *kind);
    }
}

#[test]
fn kinds_have_distinct_labels() {
    let labels: Vec<&str> = ControlKind::ALL.iter().map(|kind| kind.as_str()).collect();
    assert_eq!(
        labels,
        vec!["ihave", "iwant", "graft", "prune", "idontwant", "subscription", "extensions"]
    );
}

#[test]
fn counters_start_at_zero() {
    let counters = TrafficCounters::default();
    assert_eq!(counters.total_bytes(), 0);
    assert_eq!(counters.control_msgs_total(), 0);
    assert_eq!(DirectionalTraffic::default().rx, counters);
}

#[test]
fn counters_add_and_subtract() {
    let mut counters = TrafficCounters::default();
    counters.add_data(100);
    counters.add_data(20);
    counters.add_meta(7);
    counters.add_control(ControlKind::Prune, 5);
    counters.add_control(ControlKind::Prune, 6);
    counters.add_control(ControlKind::IHave, 1);
    assert_eq!((counters.data_bytes, counters.data_msgs), (120, 2));
    assert_eq!((counters.meta_bytes, counters.meta_msgs), (7, 1));
    assert_eq!(counters.control_bytes, [1, 0, 0, 11, 0, 0, 0]);
    assert_eq!(counters.control_msgs, [1, 0, 0, 2, 0, 0, 0]);
    assert_eq!(counters.control_bytes_total(), 12);
    assert_eq!(counters.control_msgs_total(), 3);
    assert_eq!(counters.total_bytes(), 139);
    counters.sub_data(20);
    assert_eq!((counters.data_bytes, counters.data_msgs), (100, 1));
}

#[test]
fn counters_saturate() {
    let mut counters = TrafficCounters::default();
    counters.sub_data(1);
    assert_eq!((counters.data_bytes, counters.data_msgs), (0, 0));
    counters.data_bytes = u64::MAX - 1;
    counters.data_msgs = u64::MAX;
    counters.add_data(5);
    assert_eq!((counters.data_bytes, counters.data_msgs), (u64::MAX, u64::MAX));
    counters.meta_bytes = u64::MAX;
    counters.add_meta(1);
    assert_eq!(counters.meta_bytes, u64::MAX);
    counters.control_bytes[1] = u64::MAX;
    counters.control_msgs[1] = u64::MAX;
    counters.add_control(ControlKind::IWant, 1);
    assert_eq!(counters.control_bytes[1], u64::MAX);
    assert_eq!(counters.control_msgs[1], u64::MAX);
    assert_eq!(counters.total_bytes(), u64::MAX);
}

#[test]
fn counters_compare_by_value() {
    let mut one = TrafficCounters::default();
    let mut other = TrafficCounters::default();
    assert!(one == other);
    one.add_control(ControlKind::Extensions, 3);
    assert!(one != other);
    other.add_control(ControlKind::Extensions, 3);
    assert!(one == other);
    other.add_data(0);
    assert!(one != other);
}

#[test]
fn maps_keep_one_value_for_a_key() {
    let mut map: KeyedMap<MessageId, TopicHash> = KeyedMap::new();
    assert_eq!(map.len(), 0);
    assert_eq!(map.insert(MessageId::new(b"a"), topic("x")), None);
    assert_eq!(map.insert(MessageId::new(b"b"), topic("y")), None);
    assert_eq!(map.insert(MessageId::new(b"a"), topic("z")), Some(topic("x")));
    assert_eq!(map.len(), 2);
    assert_eq!(map.get(&MessageId::new(b"a")), Some(&topic("z")));
    assert_eq!(map.get(&MessageId::new(b"c")), None);
    assert!(map.contains_key(&MessageId::new(b"b")));
    if let Some(value) = map.get_mut(&MessageId::new(b"b")) {
        *value = topic("w");
    }
    assert_eq!(map.values(), vec![&topic("z"), &topic("w")]);
    assert_eq!(map.value_at(1), &topic("w"));
    assert_eq!(map.key_at(1), &MessageId::new(b"b"));
    assert!(map.get_mut(&MessageId::new(b"c")).is_none());
}

#[test]
fn an_entry_is_made_when_a_topic_is_first_seen() {
    let mut stats = GossipTrafficStats::new();
    assert!(stats.per_topic.get(&topic("a")).is_none());
    stats.tx_mut(&topic("a")).add_data(3);
    stats.rx_mut(&topic("a")).add_meta(4);
    assert_eq!(stats.per_topic.len(), 1);
    let traffic = stats.per_topic.get(&topic("a")).unwrap();
    assert_eq!(traffic.tx.data_bytes, 3);
    assert_eq!(traffic.rx.meta_bytes, 4);
    assert_eq!(traffic.tx.meta_bytes, 0);
}

#[test]
fn totals_sum_every_topic_and_the_untopiced_bucket() {
    let mut stats = GossipTrafficStats::new();
    stats.tx_mut(&topic("a")).add_data(10);
    stats.tx_mut(&topic("b")).add_data(20);
    stats.tx_mut(&topic("b")).add_control(ControlKind::Graft, 5);
    stats.untopiced.tx.add_control(ControlKind::Graft, 7);
    stats.rx_mut(&topic("a")).add_meta(100);
    let tx = stats.total_tx();
    assert_eq!((tx.data_bytes, tx.data_msgs), (30, 2));
    assert_eq!(tx.control_bytes, [0, 0, 12, 0, 0, 0, 0]);
    assert_eq!(tx.control_msgs, [0, 0, 2, 0, 0, 0, 0]);
    assert_eq!(tx.total_bytes(), 42);
    let rx = stats.total_rx();
    assert_eq!((rx.meta_bytes, rx.meta_msgs), (100, 1));
    assert_eq!(rx.total_bytes(), 100);
}

#[test]
fn totals_saturate() {
    let mut stats = GossipTrafficStats::new();
    stats.tx_mut(&topic("a")).data_bytes = u64::MAX;
    stats.tx_mut(&topic("b")).data_bytes = 1;
    stats.tx_mut(&topic("b")).control_bytes[6] = u64::MAX;
    stats.untopiced.tx.control_bytes[6] = 2;
    assert_eq!(stats.total_tx().data_bytes, u64::MAX);
    assert_eq!(stats.total_tx().control_bytes[6], u64::MAX);
}

#[test]
fn snapshots_are_equal_whatever_the_order_of_topics() {
    let mut one = GossipTrafficStats::new();
    one.tx_mut(&topic("a")).add_data(1);
    one.tx_mut(&topic("b")).add_data(2);
    let mut other = GossipTrafficStats::new();
    other.tx_mut(&topic("b")).add_data(2);
    assert!(one != other);
    other.tx_mut(&topic("a")).add_data(1);
    assert!(one == other);
    let copy = one.clone();
    one.untopiced.rx.add_data(0);
    assert!(copy == other);
    assert!(one != copy);
}

#[test]
fn publish_is_charged_its_encoded_size() {
    let rpc = publish("topic1", 512);
    match classify_outbound(&rpc, Attribution::Untopiced) {
        Contribution::Data { topic: t, bytes } => {
            assert_eq!(t, topic("topic1"));
            // 515 of data, 10 of sequence number and 8 of topic.
            assert_eq!(bytes, 533);
        }
        other => panic!("not data: {:?}", other),
    }
}

#[test]
fn partial_messages_are_split_into_body_and_metadata() {
    let mut stats = GossipTrafficStats::new();
    let rpc = RpcOut::PartialMessage(PartialMessage {
        topic_hash: topic("cells"),
        body: Some(vec![0u8; 40]),
        metadata: Some(vec![0u8; 3]),
    });
    send(&mut stats, &rpc);
    let tx = stats.per_topic.get(&topic("cells")).unwrap().tx;
    assert_eq!((tx.data_bytes, tx.data_msgs, tx.meta_bytes, tx.meta_msgs), (40, 1, 3, 1));
}

#[test]
fn an_empty_part_is_not_counted_as_sent_but_is_as_received() {
    let partial = PartialMessage {
        topic_hash: topic("cells"),
        body: Some(vec![]),
        metadata: None,
    };
    let mut stats = GossipTrafficStats::new();
    account_inbound_partial(&mut stats, &partial);
    send(&mut stats, &RpcOut::PartialMessage(partial));
    let traffic = stats.per_topic.get(&topic("cells")).unwrap();
    assert_eq!((traffic.rx.data_bytes, traffic.rx.data_msgs), (0, 1));
    assert_eq!((traffic.tx.data_bytes, traffic.tx.data_msgs), (0, 0));
    assert_eq!((traffic.rx.meta_msgs, traffic.tx.meta_msgs), (0, 0));
}

#[test]
fn inbound_partial_counts_body_and_metadata() {
    let mut stats = GossipTrafficStats::new();
    let partial = PartialMessage {
        topic_hash: topic("cells"),
        body: Some(vec![1u8; 9]),
        metadata: Some(vec![1u8; 2]),
    };
    account_inbound_partial(&mut stats, &partial);
    let rx = stats.per_topic.get(&topic("cells")).unwrap().rx;
    assert_eq!((rx.data_bytes, rx.data_msgs, rx.meta_bytes, rx.meta_msgs), (9, 1, 2, 1));
}

#[test]
fn every_byte_of_a_control_frame_is_charged() {
    let ids = || vec![MessageId::new(b"one"), MessageId::new(b"two"), MessageId::new(b"three")];
    let mut map = KeyedMap::new();
    map.insert(MessageId::new(b"one"), topic("a"));
    map.insert(MessageId::new(b"three"), topic("b"));
    let rpcs = vec![
        RpcOut::Subscribe { topic: topic("a"), requests_partial: true, supports_partial: true },
        RpcOut::SubscribeMany(vec![(topic("a"), true, false), (topic("bcd"), false, false)]),
        RpcOut::SubscribeMany(vec![]),
        RpcOut::Unsubscribe(topic("a")),
        RpcOut::Graft(Graft { topic_hash: topic("a") }),
        RpcOut::Prune(Prune { topic_hash: topic("a"), peers: vec![], backoff: Some(60) }),
        RpcOut::IHave(IHave { topic_hash: topic("a"), message_ids: ids() }),
        RpcOut::IWant(IWant { message_ids: ids() }),
        RpcOut::IWant(IWant { message_ids: vec![] }),
        RpcOut::IDontWant(IDontWant { message_ids: ids() }),
        RpcOut::Extensions(Extensions { partial_messages: Some(true) }),
        RpcOut::TestExtension,
    ];
    for rpc in &rpcs {
        let frame = control_encoded_len(rpc) as u64;
        let known = topic("known");
        for attribution in
            [Attribution::Untopiced, Attribution::Topic(&known), Attribution::PerMessage(&map)]
        {
            let mut stats = GossipTrafficStats::new();
            classify_outbound(rpc, attribution).apply_tx(&mut stats);
            let total = stats.total_tx();
            assert_eq!(total.control_bytes_total(), frame);
            assert_eq!(total.total_bytes(), frame);
            assert_eq!(stats.total_rx().total_bytes(), 0);
        }
    }
}

#[test]
fn subscriptions_are_charged_one_by_one() {
    let rpc = RpcOut::SubscribeMany(vec![(topic("a"), true, false), (topic("bcd"), true, true)]);
    let parts = parts(classify_outbound(&rpc, Attribution::Untopiced));
    assert_eq!(
        parts,
        vec![
            (Some(topic("a")), ControlKind::Subscription, 11),
            (Some(topic("bcd")), ControlKind::Subscription, 13),
        ]
    );
    assert_eq!(control_encoded_len(&rpc), 24);
}

#[test]
fn ids_are_charged_to_their_topics() {
    let mut map = KeyedMap::new();
    map.insert(MessageId::new(b"1"), topic("x"));
    map.insert(MessageId::new(b"22"), topic("y"));
    map.insert(MessageId::new(b"333"), topic("x"));
    let ids = vec![
        MessageId::new(b"22"),
        MessageId::new(b"1"),
        MessageId::new(b"unknown"),
        MessageId::new(b"333"),
    ];
    let rpc = RpcOut::IWant(IWant { message_ids: ids });
    // 4 + 3 + 9 + 5 bytes of ids, and two bytes of framing at each of two levels.
    assert_eq!(control_encoded_len(&rpc), 25);
    let parts = parts(classify_outbound(&rpc, Attribution::PerMessage(&map)));
    assert_eq!(
        parts,
        vec![
            (Some(topic("y")), ControlKind::IWant, 4),
            (Some(topic("x")), ControlKind::IWant, 8),
            (None, ControlKind::IWant, 13),
        ]
    );
}

#[test]
fn a_batch_without_residual_has_no_untopiced_part() {
    let mut map = KeyedMap::new();
    map.insert(MessageId::new(b"1"), topic("x"));
    let ids = vec![MessageId::new(b"1")];
    let exact =
        parts(classify_id_batch(ControlKind::IDontWant, 3, &ids, Attribution::PerMessage(&map)));
    assert_eq!(exact, vec![(Some(topic("x")), ControlKind::IDontWant, 3)]);
    // A frame that is smaller than its ids leaves nothing over.
    let short =
        parts(classify_id_batch(ControlKind::IDontWant, 1, &ids, Attribution::PerMessage(&map)));
    assert_eq!(short, vec![(Some(topic("x")), ControlKind::IDontWant, 3)]);
}

#[test]
fn a_batch_without_ids_has_one_part() {
    let map: KeyedMap<MessageId, TopicHash> = KeyedMap::new();
    let empty =
        parts(classify_id_batch(ControlKind::IWant, 0, &[], Attribution::PerMessage(&map)));
    assert_eq!(empty, vec![(None, ControlKind::IWant, 0)]);
}

#[test]
fn a_known_topic_gets_the_whole_batch() {
    let rpc = RpcOut::IDontWant(IDontWant { message_ids: vec![MessageId::new(b"id")] });
    let known = topic("known");
    match classify_outbound(&rpc, Attribution::Topic(&known)) {
        Contribution::Control { topic: t, kind, bytes } => {
            assert_eq!((t, kind, bytes), (Some(known.clone()), ControlKind::IDontWant, 8));
        }
        other => panic!("not control: {:?}", other),
    }
    match classify_outbound(&rpc, Attribution::Untopiced) {
        Contribution::Control { topic: t, kind, bytes } => {
            assert_eq!((t, kind, bytes), (None, ControlKind::IDontWant, 8));
        }
        other => panic!("not control: {:?}", other),
    }
}

#[test]
fn an_rpc_that_names_its_topic_ignores_the_attribution() {
    let rpc = RpcOut::Graft(Graft { topic_hash: topic("mesh") });
    let other = topic("other");
    let mut one = GossipTrafficStats::new();
    classify_outbound(&rpc, Attribution::Untopiced).apply_tx(&mut one);
    let mut two = GossipTrafficStats::new();
    classify_outbound(&rpc, Attribution::Topic(&other)).apply_tx(&mut two);
    assert!(one == two);
    assert_eq!(one.per_topic.get(&topic("mesh")).unwrap().tx.control_bytes[2], 10);
}

#[test]
fn control_touches_only_the_topic_it_names() {
    let mut stats = GossipTrafficStats::new();
    stats.tx_mut(&topic("other")).add_data(1);
    stats.untopiced.tx.add_data(2);
    let before = stats.clone();
    send(&mut stats, &RpcOut::Unsubscribe(topic("mine")));
    let graft = ControlAction::Graft(Graft { topic_hash: topic("mine") });
    account_inbound_control(&mut stats, &graft, unresolved);
    assert_eq!(stats.per_topic.get(&topic("other")), before.per_topic.get(&topic("other")));
    assert_eq!(stats.untopiced, before.untopiced);
    let mine = stats.per_topic.get(&topic("mine")).unwrap();
    assert_eq!((mine.tx.total_bytes(), mine.rx.total_bytes()), (10, 8));
}

#[test]
fn extensions_are_untopiced() {
    let mut stats = GossipTrafficStats::new();
    send(&mut stats, &RpcOut::Extensions(Extensions { partial_messages: Some(true) }));
    send(&mut stats, &RpcOut::TestExtension);
    assert_eq!(stats.per_topic.len(), 0);
    assert_eq!(stats.untopiced.tx.control_bytes[6], 11);
    assert_eq!(stats.untopiced.tx.control_msgs[6], 2);
}

#[test]
fn nothing_contributes_nothing() {
    let mut stats = GossipTrafficStats::new();
    Contribution::default().apply_tx(&mut stats);
    assert!(stats == GossipTrafficStats::new());
}

#[test]
fn a_drop_undoes_a_publish() {
    let mut stats = GossipTrafficStats::new();
    send(&mut stats, &publish("topic1", 64));
    let before = stats.clone();
    let rpc = publish("topic1", 1024);
    send(&mut stats, &rpc);
    assert_eq!(stats.per_topic.get(&topic("topic1")).unwrap().tx.data_msgs, 2);
    account_outbound_dropped(&mut stats, &rpc);
    assert!(stats == before);
}

#[test]
fn only_publishes_are_taken_back() {
    let mut stats = GossipTrafficStats::new();
    let rpc = RpcOut::Graft(Graft { topic_hash: topic("mesh") });
    send(&mut stats, &rpc);
    let before = stats.clone();
    account_outbound_dropped(&mut stats, &rpc);
    assert!(stats == before);
}

#[test]
fn a_drop_of_something_never_sent_stops_at_zero() {
    let mut stats = GossipTrafficStats::new();
    account_outbound_dropped(&mut stats, &publish("topic1", 10));
    let tx = stats.per_topic.get(&topic("topic1")).unwrap().tx;
    assert_eq!((tx.data_bytes, tx.data_msgs), (0, 0));
}

#[test]
fn inbound_messages_are_charged_their_encoded_size() {
    let message = RawMessage {
        source: Some(PeerId::from_bytes(vec![1u8; 38])),
        data: vec![0u8; 100],
        sequence_number: Some(3),
        topic: topic("topic1"),
        signature: None,
        key: None,
        validated: false,
    };
    let mut stats = GossipTrafficStats::new();
    account_inbound_message(&mut stats, &message);
    let traffic = stats.per_topic.get(&topic("topic1")).unwrap();
    assert_eq!(message_encoded_len(&message), 160);
    assert_eq!((traffic.rx.data_bytes, traffic.rx.data_msgs), (160, 1));
    assert_eq!(traffic.tx.total_bytes(), 0);
}

#[test]
fn inbound_subscriptions_and_unsubscriptions() {
    let mut stats = GossipTrafficStats::new();
    let mut subscription = Subscription {
        action: SubscriptionAction::Subscribe,
        topic_hash: topic("topic1"),
        options: SubscriptionOpts { requests_partial: true, supports_partial: false },
    };
    account_inbound_subscription(&mut stats, &subscription);
    assert_eq!(stats.per_topic.get(&topic("topic1")).unwrap().rx.control_bytes[5], 16);
    subscription.action = SubscriptionAction::Unsubscribe;
    account_inbound_subscription(&mut stats, &subscription);
    let rx = stats.per_topic.get(&topic("topic1")).unwrap().rx;
    assert_eq!((rx.control_bytes[5], rx.control_msgs[5]), (28, 2));
}

#[test]
fn inbound_control_sizes() {
    let mut stats = GossipTrafficStats::new();
    let ihave = ControlAction::IHave(IHave {
        topic_hash: topic("t"),
        message_ids: vec![MessageId::new(b"abcdefgh"), MessageId::new(b"ijklmnop")],
    });
    let graft = ControlAction::Graft(Graft { topic_hash: topic("t") });
    let prune = ControlAction::Prune(Prune {
        topic_hash: topic("t"),
        peers: vec![PeerInfo { peer_id: Some(PeerId::from_bytes(vec![1u8; 38])) }],
        backoff: Some(60),
    });
    account_inbound_control(&mut stats, &ihave, unresolved);
    account_inbound_control(&mut stats, &graft, unresolved);
    account_inbound_control(&mut stats, &prune, unresolved);
    let rx = stats.per_topic.get(&topic("t")).unwrap().rx;
    // IHAVE: 3 of topic and 10 for each id. GRAFT: 3 of topic. PRUNE: 3 of topic, 42 of
    // peer and 2 of backoff. Each in a field of two more bytes.
    assert_eq!(rx.control_bytes, [25, 0, 5, 49, 0, 0, 0]);
    assert_eq!(rx.control_msgs, [1, 0, 1, 1, 0, 0, 0]);
    assert_eq!(rx.data_bytes, 0);
}

#[test]
fn inbound_extensions_are_untopiced() {
    let mut stats = GossipTrafficStats::new();
    let told = ControlAction::Extensions(Some(Extensions { partial_messages: Some(true) }));
    let untold = ControlAction::Extensions(None);
    account_inbound_control(&mut stats, &told, unresolved);
    account_inbound_control(&mut stats, &untold, unresolved);
    assert_eq!(stats.per_topic.len(), 0);
    assert_eq!(stats.untopiced.rx.control_bytes[6], 6);
    assert_eq!(stats.untopiced.rx.control_msgs[6], 2);
}

#[test]
fn inbound_ids_are_resolved_one_by_one() {
    let mut stats = GossipTrafficStats::new();
    let control = ControlAction::IWant(IWant {
        message_ids: vec![
            MessageId::new(b"in-a"),
            MessageId::new(b"nowhere"),
            MessageId::new(b"in-b!"),
            MessageId::new(b"in-a"),
        ],
    });
    account_inbound_control(&mut stats, &control, |id: &MessageId| {
        if *id == MessageId::new(b"in-a") {
            Some(topic("a"))
        } else if *id == MessageId::new(b"in-b!") {
            Some(topic("b"))
        } else {
            None
        }
    });
    assert_eq!(stats.per_topic.get(&topic("a")).unwrap().rx.control_bytes[1], 12);
    assert_eq!(stats.per_topic.get(&topic("a")).unwrap().rx.control_msgs[1], 2);
    assert_eq!(stats.per_topic.get(&topic("b")).unwrap().rx.control_bytes[1], 7);
    assert_eq!(stats.untopiced.rx.control_bytes[1], 9);
    // Every byte of the ids is counted.
    assert_eq!(stats.total_rx().total_bytes(), 28);
}

#[test]
fn unresolved_ids_touch_no_topic() {
    let mut stats = GossipTrafficStats::new();
    let control = ControlAction::IDontWant(IDontWant {
        message_ids: vec![MessageId::new(b"x"), MessageId::new(b"y")],
    });
    account_inbound_control(&mut stats, &control, unresolved);
    assert_eq!(stats.per_topic.len(), 0);
    assert_eq!(stats.untopiced.rx.control_bytes[4], 6);
    assert_eq!(stats.untopiced.rx.control_msgs[4], 2);
}

/// The topic of an id that starts with its letter.
fn by_letter(id: &MessageId) -> Option<TopicHash> {
    match id.0.first() {
        Some(b'a') => Some(topic("a")),
        Some(b'b') => Some(topic("b")),
        _ => None,
    }
}

fn some_ids() -> Vec<MessageId> {
    vec![
        MessageId::new(b"a1"),
        MessageId::new(b"none"),
        MessageId::new(b"b12345"),
        MessageId::new(b"a1"),
        MessageId::new(b""),
    ]
}

#[test]
fn a_batch_books_as_its_halves_in_turn() {
    let ids = some_ids();
    for cut in 0..=ids.len() {
        let mut together = GossipTrafficStats::new();
        account_inbound_id_batch(&mut together, ControlKind::IWant, &ids, by_letter);
        let mut in_turn = GossipTrafficStats::new();
        account_inbound_id_batch(&mut in_turn, ControlKind::IWant, &ids[..cut], by_letter);
        account_inbound_id_batch(&mut in_turn, ControlKind::IWant, &ids[cut..], by_letter);
        assert!(together == in_turn);
    }
}

#[test]
fn an_empty_batch_changes_nothing() {
    let mut stats = GossipTrafficStats::new();
    stats.rx_mut(&topic("a")).add_data(4);
    let before = stats.clone();
    account_inbound_id_batch(&mut stats, ControlKind::IDontWant, &[], by_letter);
    assert!(stats == before);
}

#[test]
fn the_order_of_received_ids_does_not_matter() {
    let mut ids = some_ids();
    let mut forward = GossipTrafficStats::new();
    account_inbound_id_batch(&mut forward, ControlKind::IWant, &ids, by_letter);
    ids.reverse();
    let mut backward = GossipTrafficStats::new();
    account_inbound_id_batch(&mut backward, ControlKind::IWant, &ids, by_letter);
    assert!(forward == backward);
}

#[test]
fn received_control_commutes() {
    let graft = ControlAction::Graft(Graft { topic_hash: topic("a") });
    let prune = ControlAction::Prune(Prune {
        topic_hash: topic("a"),
        peers: vec![],
        backoff: None,
    });
    let mut one = GossipTrafficStats::new();
    account_inbound_control(&mut one, &graft, unresolved);
    account_inbound_control(&mut one, &prune, unresolved);
    let mut other = GossipTrafficStats::new();
    account_inbound_control(&mut other, &prune, unresolved);
    account_inbound_control(&mut other, &graft, unresolved);
    assert!(one == other);
}

#[test]
fn each_bucket_gets_its_own_ids() {
    let mut stats = GossipTrafficStats::new();
    stats.untopiced.rx.add_control(ControlKind::IWant, 100);
    account_inbound_id_batch(&mut stats, ControlKind::IWant, &some_ids(), by_letter);
    let a = stats.per_topic.get(&topic("a")).unwrap().rx;
    let b = stats.per_topic.get(&topic("b")).unwrap().rx;
    assert_eq!((a.control_bytes[1], a.control_msgs[1]), (8, 2));
    assert_eq!((b.control_bytes[1], b.control_msgs[1]), (8, 1));
    let untopiced = stats.untopiced.rx;
    assert_eq!((untopiced.control_bytes[1], untopiced.control_msgs[1]), (108, 3));
    assert_eq!(stats.per_topic.len(), 2);
}

#[test]
fn each_topic_gets_its_own_ids_when_sent() {
    let mut map = KeyedMap::new();
    map.insert(MessageId::new(b"1"), topic("x"));
    map.insert(MessageId::new(b"22"), topic("y"));
    map.insert(MessageId::new(b"333"), topic("x"));
    let rpc = RpcOut::IDontWant(IDontWant {
        message_ids: vec![
            MessageId::new(b"1"),
            MessageId::new(b"22"),
            MessageId::new(b"333"),
            MessageId::new(b"4444"),
        ],
    });
    let mut stats = GossipTrafficStats::new();
    classify_outbound(&rpc, Attribution::PerMessage(&map)).apply_tx(&mut stats);
    let x = stats.per_topic.get(&topic("x")).unwrap().tx;
    let y = stats.per_topic.get(&topic("y")).unwrap().tx;
    assert_eq!((x.control_bytes[4], x.control_msgs[4]), (8, 1));
    assert_eq!((y.control_bytes[4], y.control_msgs[4]), (4, 1));
    // The unknown id takes six bytes, and the framing four.
    let untopiced = stats.untopiced.tx;
    assert_eq!((untopiced.control_bytes[4], untopiced.control_msgs[4]), (10, 1));
}

#[test]
fn parts_for_one_topic_add_up() {
    let rpc = RpcOut::SubscribeMany(vec![
        (topic("a"), true, true),
        (topic("b"), true, true),
        (topic("a"), false, false),
    ]);
    let mut stats = GossipTrafficStats::new();
    send(&mut stats, &rpc);
    let a = stats.per_topic.get(&topic("a")).unwrap().tx;
    assert_eq!((a.control_bytes[5], a.control_msgs[5]), (22, 2));
}

#[test]
fn sending_keeps_the_received_total() {
    let mut stats = GossipTrafficStats::new();
    stats.rx_mut(&topic("a")).add_data(9);
    let (tx, rx) = (stats.total_tx(), stats.total_rx());
    send(&mut stats, &publish("b", 30));
    assert!(stats.total_rx() == rx);
    assert!(stats.total_tx().data_bytes > tx.data_bytes);
    account_outbound_dropped(&mut stats, &publish("b", 30));
    assert!(stats.total_rx() == rx);
    assert!(stats.total_tx() == tx);
}

#[test]
fn a_drop_lowers_only_the_payload_that_was_sent() {
    let mut stats = GossipTrafficStats::new();
    send(&mut stats, &publish("topic1", 64));
    send(&mut stats, &RpcOut::Graft(Graft { topic_hash: topic("topic1") }));
    stats.tx_mut(&topic("topic1")).add_meta(5);
    stats.rx_mut(&topic("topic1")).add_data(6);
    stats.tx_mut(&topic("topic2")).add_data(7);
    let before = stats.clone();
    let (tx, rx) = (stats.total_tx(), stats.total_rx());
    account_outbound_dropped(&mut stats, &publish("topic1", 64));
    let old = before.per_topic.get(&topic("topic1")).unwrap();
    let new = stats.per_topic.get(&topic("topic1")).unwrap();
    // 66 of data, 10 of sequence number and 8 of topic.
    assert_eq!((old.tx.data_bytes, old.tx.data_msgs), (84, 1));
    assert_eq!((new.tx.data_bytes, new.tx.data_msgs), (0, 0));
    assert_eq!((new.tx.meta_bytes, new.tx.meta_msgs), (5, 1));
    assert_eq!(new.tx.control_bytes, old.tx.control_bytes);
    assert_eq!(new.rx, old.rx);
    assert_eq!(stats.per_topic.get(&topic("topic2")), before.per_topic.get(&topic("topic2")));
    let after = stats.total_tx();
    assert_eq!((after.data_bytes, after.data_msgs), (tx.data_bytes - 84, tx.data_msgs - 1));
    assert_eq!((after.meta_bytes, after.control_bytes), (tx.meta_bytes, tx.control_bytes));
    assert_eq!(after.control_msgs, tx.control_msgs);
    assert_eq!(stats.total_rx(), rx);
}

#[test]
fn the_volume_of_a_run_is_what_was_sent_less_what_was_dropped() {
    let mut stats = GossipTrafficStats::new();
    let graft = RpcOut::Graft(Graft { topic_hash: topic("b") });
    send(&mut stats, &publish("a", 100));
    send(&mut stats, &graft);
    account_inbound_id_batch(&mut stats, ControlKind::IWant, &some_ids(), by_letter);
    send(&mut stats, &publish("b", 200));
    account_outbound_dropped(&mut stats, &publish("a", 100));
    account_outbound_dropped(&mut stats, &graft);
    send(&mut stats, &publish("a", 300));
    // Publishes of 203 + 10 + 3 and 303 + 10 + 3 bytes, and a GRAFT of 7.
    assert_eq!(stats.total_tx().total_bytes(), 216 + 316 + 7);
    assert_eq!(stats.total_rx().total_bytes(), 24);
    assert_eq!(stats.per_topic.len(), 2);
}

#[test]
fn counters_only_grow() {
    let mut stats = GossipTrafficStats::new();
    let mut last = (0, 0);
    for round in 0..5usize {
        send(&mut stats, &publish("a", round));
        send(&mut stats, &RpcOut::Graft(Graft { topic_hash: topic("b") }));
        let graft = ControlAction::Graft(Graft { topic_hash: topic("a") });
        account_inbound_control(&mut stats, &graft, unresolved);
        let now = (stats.total_tx().total_bytes(), stats.total_rx().total_bytes());
        assert!(now.0 > last.0 && now.1 > last.1);
        last = now;
    }
    assert_eq!(stats.per_topic.len(), 2);
}
