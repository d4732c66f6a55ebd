# gossip_traffic

Per-topic accounting of gossipsub traffic, split by direction and by class: payload,
partial-message metadata, and control messages by kind. It is verified with Verus; the
sizes on the wire come from prost.

## Use

- Sending: measure an RPC with `classify_outbound` before it goes into a send queue, and
  commit the result with `Contribution::apply_tx` once the queue has accepted it. A publish
  that is dropped later is taken back with `account_outbound_dropped`.
- Receiving: book what was decoded with `account_inbound_message`,
  `account_inbound_subscription`, `account_inbound_partial` and `account_inbound_control`.
- Reading: `GossipTrafficStats` holds the counters per topic and an untopiced bucket;
  `total_tx` and `total_rx` sum them.

## Layout

| Module | Contents |
| --- | --- |
| `counters` | control kinds, and the counters of one topic |
| `stats` | the statistics of a node |
| `outbound` | classifying, committing and taking back what is sent |
| `inbound` | booking what is received |
| `convert` | RPCs as protobuf messages, and their sizes |
| `proto` | the protobuf messages |
| `wire` | sizes of protobuf fields, and what is relied on of prost |
| `types` | the gossipsub messages that are looked at |
| `map` | a map with distinct keys |
| `sums` | sums over sequences and maps |
| `laws` | what holds of the accounting as a whole |
| `batch_laws` | what holds of batches of ids and of frames in parts |
| `runs` | what holds over any number of calls |

## What is not proved

Every function with a body of its own is verified, except for these:

- Two wrappers in `wire`, `bytes_encoded_len` and `bytes_encoded_len_repeated`, each of
  which does nothing but call a function of `prost::encoding`. What they state is relied
  on, as is what `wire` states of five more functions of `prost::encoding`.
- The impls that `derive` writes (`Debug`, `Hash`, and for some types `Clone`, `PartialEq`,
  `Eq`, `PartialOrd` and `Ord`). No contract speaks of what they do, but for the copies of
  `Copy` types.

Verus and its standard library are relied on too.
