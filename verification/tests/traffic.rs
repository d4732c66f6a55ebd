//! Accounting as a node sees it: peers with bounded send queues, and RPCs that come in
//! and go out.
use gossip_traffic::{
    account_inbound_control, account_inbound_message, account_inbound_subscription,
    account_outbound_dropped, classify_outbound, Attribution, ControlAction, ControlKind,
    GossipTrafficStats, Graft, IDontWant, IHave, KeyedMap, MessageId, PeerId, RawMessage, RpcOut,
    Subscription, SubscriptionAction, SubscriptionOpts, TopicHash,
};

/// A peer with a queue for published messages, which is bounded, and one for control
/// messages, which is not.
struct Peer {
    publishes: Vec<RpcOut>,
    control: Vec<RpcOut>,
}

/// A node that books what its peers are sent and what they send.
struct Node {
    traffic: GossipTrafficStats,
    peers: Vec<Peer>,
    queue_len: usize,
    idontwant_threshold: usize,
    cache: KeyedMap<MessageId, TopicHash>,
}

/// An RPC that a peer sent.
struct RpcIn {
    messages: Vec<RawMessage>,
    subscriptions: Vec<Subscription>,
    control_msgs: Vec<ControlAction>,
}

impl Node {
    fn create_network(
        peer_no: usize,
        topics: &[&str],
        to_subscribe: bool,
        queue_len: usize,
    ) -> (Node, Vec<PeerId>, Vec<TopicHash>) {
        let mut node = Node {
            traffic: GossipTrafficStats::default(),
            peers: Vec::new(),
            queue_len,
            idontwant_threshold: 1000,
            cache: KeyedMap::new(),
        };
        let topics: Vec<TopicHash> =
            topics.iter().map(|t| TopicHash::from_raw(t.to_string())).collect();
        let mut ids = Vec::new();
        for p in 0..peer_no {
            node.peers.push(Peer { publishes: Vec::new(), control: Vec::new() });
            ids.push(PeerId::from_bytes(vec![p as u8; 38]));
            if to_subscribe {
                for topic in &topics {
                    let subscribe = RpcOut::Subscribe {
                        topic: topic.clone(),
                        requests_partial: false,
                        supports_partial: false,
                    };
                    node.send(p, subscribe, Attribution::Untopiced);
                    let graft = RpcOut::Graft(Graft { topic_hash: topic.clone() });
                    node.send(p, graft, Attribution::Untopiced);
                }
            }
        }
        (node, ids, topics)
    }

    /// Hands an RPC to the queue of a peer, and books it if the queue accepts it.
    fn send(&mut self, peer: usize, rpc: RpcOut, attribution: Attribution<'_>) -> bool {
        let contribution = classify_outbound(&rpc, attribution);
        let queue_len = self.queue_len;
        let queues = &mut self.peers[peer];
        if matches!(rpc, RpcOut::Publish { .. }) {
            if queues.publishes.len() >= queue_len {
                return false;
            }
            queues.publishes.push(rpc);
        } else {
            queues.control.push(rpc);
        }
        contribution.apply_tx(&mut self.traffic);
        true
    }

    /// Publishes to every peer. Succeeds if some peer's queue took the message.
    fn publish(&mut self, topic: &TopicHash, data: Vec<u8>) -> Result<(), ()> {
        let mut sent = 0;
        for p in 0..self.peers.len() {
            let rpc = RpcOut::Publish {
                message_id: MessageId::new(b"published"),
                message: RawMessage {
                    source: None,
                    data: data.clone(),
                    sequence_number: Some(0),
                    topic: topic.clone(),
                    signature: None,
                    key: None,
                    validated: true,
                },
            };
            if self.send(p, rpc, Attribution::Untopiced) {
                sent += 1;
            }
        }
        if sent > 0 {
            Ok(())
        } else {
            Err(())
        }
    }

    fn on_rpc(&mut self, rpc: RpcIn) {
        for message in &rpc.messages {
            account_inbound_message(&mut self.traffic, message);
        }
        for subscription in &rpc.subscriptions {
            account_inbound_subscription(&mut self.traffic, subscription);
        }
        for control in &rpc.control_msgs {
            let cache = &self.cache;
            account_inbound_control(&mut self.traffic, control, |id| cache.get(id).cloned());
        }
    }

    /// Tells the mesh not to send a large message that we now have.
    fn handle_received_message(&mut self, message: RawMessage) {
        if message.data.len() > self.idontwant_threshold {
            for p in 0..self.peers.len() {
                let rpc =
                    RpcOut::IDontWant(IDontWant { message_ids: vec![MessageId::new(b"large")] });
                self.send(p, rpc, Attribution::Topic(&message.topic));
            }
        }
    }

    fn on_dropped(&mut self, rpc: RpcOut) {
        account_outbound_dropped(&mut self.traffic, &rpc);
    }
}

/// A published message is booked as data on its own topic, and nothing else.
#[test]
fn test_traffic_publish_is_data_on_its_topic() {
    let (mut gs, _peers, topics) = Node::create_network(3, &["topic1", "topic2"], true, 100);

    gs.publish(&topics[0], vec![7u8; 512]).expect("publish should succeed");

    let published =
        gs.traffic.per_topic.get(&topics[0]).expect("published topic should be tracked");

    // Fanned out to every mesh peer, so the payload is counted once per peer.
    assert!(published.tx.data_msgs >= 1);
    assert!(
        published.tx.data_bytes >= 512 * published.tx.data_msgs,
        "each copy should carry at least the payload"
    );
    assert_eq!(
        published.tx.control_bytes[ControlKind::IHave.index()],
        0,
        "publishing must not be booked as control"
    );

    // The other topic saw no data.
    let other = gs.traffic.per_topic.get(&topics[1]);
    assert_eq!(other.map_or(0, |t| t.tx.data_bytes), 0);
}

/// GRAFT/PRUNE/IHAVE are booked as control against the topic they name, kept
/// separate from payload.
#[test]
fn test_traffic_control_is_attributed_per_topic() {
    let (mut gs, _peers, topics) = Node::create_network(1, &["topic1"], true, 100);

    let before = gs
        .traffic
        .per_topic
        .get(&topics[0])
        .map_or(0, |t| t.rx.control_bytes[ControlKind::Graft.index()]);

    gs.on_rpc(RpcIn {
        messages: vec![],
        subscriptions: vec![],
        control_msgs: vec![ControlAction::Graft(Graft { topic_hash: topics[0].clone() })],
    });

    let after = gs.traffic.per_topic.get(&topics[0]).unwrap();
    assert!(
        after.rx.control_bytes[ControlKind::Graft.index()] > before,
        "inbound GRAFT should be booked as control on its topic"
    );
    assert_eq!(after.rx.data_bytes, 0, "control must not be counted as payload");
}

/// An inbound IHAVE names its topic, so its bytes are attributable even though it
/// carries only message ids.
#[test]
fn test_traffic_inbound_ihave_attributed() {
    let (mut gs, _peers, topics) = Node::create_network(1, &["topic1"], true, 100);

    gs.on_rpc(RpcIn {
        messages: vec![],
        subscriptions: vec![],
        control_msgs: vec![ControlAction::IHave(IHave {
            topic_hash: topics[0].clone(),
            message_ids: vec![MessageId::new(b"abcdefgh"), MessageId::new(b"ijklmnop")],
        })],
    });

    let counters = &gs.traffic.per_topic.get(&topics[0]).unwrap().rx;
    assert!(counters.control_bytes[ControlKind::IHave.index()] >= 16);
    assert_eq!(counters.control_msgs[ControlKind::IHave.index()], 1);
}

/// An inbound IDONTWANT carries no topic; with nothing in the message cache to
/// resolve its ids, it lands in the untopiced bucket rather than being dropped.
#[test]
fn test_traffic_unresolvable_idontwant_is_untopiced() {
    let (mut gs, _peers, _topics) = Node::create_network(1, &["topic1"], true, 100);

    let before = gs.traffic.untopiced.rx.control_bytes[ControlKind::IDontWant.index()];

    gs.on_rpc(RpcIn {
        messages: vec![],
        subscriptions: vec![],
        control_msgs: vec![ControlAction::IDontWant(IDontWant {
            message_ids: vec![MessageId::new(b"not-in-cache")],
        })],
    });

    assert!(
        gs.traffic.untopiced.rx.control_bytes[ControlKind::IDontWant.index()] > before,
        "an unattributable IDONTWANT should still be counted, as untopiced"
    );
}

/// An outbound IDONTWANT triggered by a received message is attributed to that
/// message's topic, even though the wire format cannot express it.
#[test]
fn test_traffic_outbound_idontwant_attributed_to_topic() {
    let (mut gs, peers, topics) = Node::create_network(5, &["topic1"], true, 100);
    gs.idontwant_threshold = 100;

    let message = RawMessage {
        source: Some(peers[1].clone()),
        data: vec![12u8; 1024],
        sequence_number: Some(0),
        topic: topics[0].clone(),
        signature: None,
        key: None,
        validated: true,
    };
    gs.handle_received_message(message);

    let counters = &gs.traffic.per_topic.get(&topics[0]).unwrap().tx;
    assert!(
        counters.control_bytes[ControlKind::IDontWant.index()] > 0,
        "outbound IDONTWANT should be attributed to the message's topic"
    );
    assert_eq!(
        gs.traffic.untopiced.tx.control_bytes[ControlKind::IDontWant.index()],
        0,
        "the topic is known at the call site, so nothing should be untopiced"
    );
}

/// Inbound subscriptions are control traffic on the topic they name.
#[test]
fn test_traffic_inbound_subscription_is_control() {
    let (mut gs, _peers, _topics) = Node::create_network(1, &[], false, 100);

    let topic = TopicHash::from_raw("subscribed-topic".to_string());
    gs.on_rpc(RpcIn {
        messages: vec![],
        subscriptions: vec![Subscription {
            action: SubscriptionAction::Subscribe,
            topic_hash: topic.clone(),
            options: SubscriptionOpts::default(),
        }],
        control_msgs: vec![],
    });

    let counters = &gs.traffic.per_topic.get(&topic).unwrap().rx;
    assert!(counters.control_bytes[ControlKind::Subscription.index()] > 0);
    assert_eq!(counters.data_bytes, 0);
}

/// An inbound published message is booked as received payload on its topic.
#[test]
fn test_traffic_inbound_message_is_data() {
    let (mut gs, peers, topics) = Node::create_network(1, &["topic1"], true, 100);

    gs.on_rpc(RpcIn {
        messages: vec![RawMessage {
            source: Some(peers[0].clone()),
            data: vec![3u8; 2048],
            sequence_number: Some(1),
            topic: topics[0].clone(),
            signature: None,
            key: None,
            validated: true,
        }],
        subscriptions: vec![],
        control_msgs: vec![],
    });

    let counters = &gs.traffic.per_topic.get(&topics[0]).unwrap().rx;
    assert!(counters.data_bytes >= 2048, "received payload should be booked as data");
    assert_eq!(counters.data_msgs, 1);
    assert_eq!(counters.control_bytes_total(), 0);
}

/// `total_bytes` must equal payload + partial metadata + every control kind, so a
/// breakdown always reconciles against the total.
#[test]
fn test_traffic_totals_reconcile() {
    let (mut gs, _peers, topics) = Node::create_network(3, &["topic1"], true, 100);

    gs.publish(&topics[0], vec![1u8; 256]).expect("publish should succeed");
    gs.on_rpc(RpcIn {
        messages: vec![],
        subscriptions: vec![],
        control_msgs: vec![ControlAction::IHave(IHave {
            topic_hash: topics[0].clone(),
            message_ids: vec![MessageId::new(b"12345678")],
        })],
    });

    for counters in gs
        .traffic
        .per_topic
        .values()
        .into_iter()
        .flat_map(|t| [&t.tx, &t.rx])
        .chain([&gs.traffic.untopiced.tx, &gs.traffic.untopiced.rx])
    {
        assert_eq!(
            counters.total_bytes(),
            counters.data_bytes + counters.meta_bytes + counters.control_bytes_total(),
            "total must be the sum of its parts"
        );
    }

    let total_tx = gs.traffic.total_tx();
    let summed_tx: u64 =
        gs.traffic.per_topic.values().into_iter().map(|t| t.tx.total_bytes()).sum::<u64>()
            + gs.traffic.untopiced.tx.total_bytes();
    assert_eq!(
        total_tx.total_bytes(),
        summed_tx,
        "total_tx should aggregate every topic plus untopiced"
    );
}

/// Bytes are only booked once the send queue accepts the RPC, so a full queue must
/// not inflate the counters.
#[test]
fn test_traffic_excludes_queue_full_send() {
    let (mut gs, _peers, topics) = Node::create_network(1, &["topic1"], true, 1);

    // Publish more than the queue can hold; the surplus is rejected.
    for _ in 0..8 {
        let _ = gs.publish(&topics[0], vec![9u8; 1024]);
    }

    let counters = &gs.traffic.per_topic.get(&topics[0]).unwrap().tx;
    assert!(
        counters.data_msgs <= 2,
        "only RPCs the queue accepted should be counted, got {}",
        counters.data_msgs
    );
}

/// A publish dropped in the queue on timeout is un-booked, so enqueue-time accounting
/// still reports the right volume.
#[test]
fn test_traffic_dropped_publish_is_subtracted() {
    let (mut gs, _peers, topics) = Node::create_network(1, &["topic1"], true, 100);

    gs.publish(&topics[0], vec![5u8; 1024]).expect("publish should succeed");
    let after_publish = gs.traffic.per_topic.get(&topics[0]).unwrap().tx;
    assert!(after_publish.data_bytes > 0);

    let dropped = RpcOut::Publish {
        message_id: MessageId::new(b"dropped"),
        message: RawMessage {
            source: None,
            data: vec![5u8; 1024],
            sequence_number: Some(0),
            topic: topics[0].clone(),
            signature: None,
            key: None,
            validated: true,
        },
    };
    gs.on_dropped(dropped);

    let after_drop = gs.traffic.per_topic.get(&topics[0]).unwrap().tx;
    assert!(
        after_drop.data_bytes < after_publish.data_bytes,
        "a dropped publish should give its bytes back"
    );
    assert_eq!(after_drop.data_msgs, after_publish.data_msgs - 1);
}
