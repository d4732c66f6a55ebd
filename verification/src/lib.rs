//! Per-topic gossipsub traffic accounting, split by direction and by data/control
//! class.
//!
//! It lets an embedding application attribute every byte that gossipsub puts on, or
//! takes off, the wire to a topic and a class, including the control messages
//! (GRAFT/PRUNE/IHAVE/IWANT/IDONTWANT/subscriptions) that the application never sees.
//!
//! # Semantics
//!
//! - **Byte counts are protobuf payload bytes.** Length-prefix framing and transport
//!   overhead are not included.
//! - **Outbound is counted at enqueue time**, when an RPC is accepted into a peer's
//!   send queue: measure with [`classify_outbound`], commit with
//!   [`Contribution::apply_tx`]. RPCs that the queue rejects are never committed, and
//!   publishes later dropped on timeout are subtracted again with
//!   [`account_outbound_dropped`].
//! - **Inbound is counted at decode time.**
//!
//! # Topic attribution
//!
//! IWANT, IDONTWANT and the extension handshake carry no topic on the wire. Outbound,
//! the topic is supplied by the call site as an [`Attribution`]. Inbound, it can only be
//! recovered by resolving message ids; whatever cannot be resolved is booked to
//! [`GossipTrafficStats::untopiced`], as is the extension handshake.
//!
//! # What is proved
//!
//! [`rules`], [`sizes`], [`contents`] and [`results`] state what each operation does to
//! each counter, what each field takes on the wire, what the views hold, and what callers
//! get. [`laws`], [`batch_laws`] and [`runs`] state what holds of the accounting as a
//! whole, of batches, and over any number of calls.
pub mod batch_laws;
pub mod contents;
pub mod convert;
pub mod counters;
pub mod inbound;
pub mod laws;
pub mod map;
pub mod outbound;
pub mod proto;
pub mod results;
pub mod rules;
pub mod runs;
pub mod sizes;
pub mod stats;
pub mod sums;
pub mod types;
pub mod wire;

pub use counters::{ControlKind, DirectionalTraffic, TrafficCounters};
pub use inbound::{
    account_inbound_control, account_inbound_id_batch, account_inbound_message,
    account_inbound_partial, account_inbound_subscription,
};
pub use map::KeyedMap;
pub use outbound::{account_outbound_dropped, classify_outbound, Attribution, Contribution};
pub use stats::GossipTrafficStats;
pub use types::{
    ControlAction, Extensions, Graft, IDontWant, IHave, IWant, MessageId, PartialMessage, PeerId,
    PeerInfo, Prune, RawMessage, RpcOut, Subscription, SubscriptionAction, SubscriptionOpts,
    TopicHash,
};
