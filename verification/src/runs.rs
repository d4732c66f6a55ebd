//! What holds over any number of calls: snapshots of the statistics may lie many calls
//! apart.
use crate::convert::message_len;
use crate::counters::{ControlKind, Counter, Side};
use crate::laws::{
    batch_volume, corrected_by_drops, grown, law_drop_gives_bytes_back, law_drop_touches_one_topic,
    law_growth_composes, law_growth_shows_in_the_totals, law_received_control_adds_its_bytes,
    law_received_control_only_grows, law_received_ids_are_charged_in_full,
    law_received_ids_only_grow, law_received_message_adds_its_bytes, law_received_message_is_data,
    law_received_partial_adds_its_bytes, law_received_partial_is_payload, law_send_adds_its_bytes,
    law_send_only_grows, law_total_of_each_counter, lemma_sum_covered, totals_grown,
};
use crate::outbound::{payload_len, ContributionView, PartView};
use crate::stats::StatsView;
use crate::sums::seq_sum;
use crate::types::{PartialMessageView, RawMessageView, RpcOutView};
use vstd::prelude::*;

verus! {

/// One call that books something.
pub enum Step {
    /// A contribution is committed as sent.
    Sent(ContributionView),
    /// An RPC that was committed is dropped.
    Dropped(RpcOutView),
    /// A published message is received.
    Message(RawMessageView),
    /// A partial message is received.
    Partial(PartialMessageView),
    /// A subscription or a control message that is booked as a whole is received.
    Control(PartView),
    /// A batch of ids is received, each with its topic, if it resolves to one.
    Ids { kind: ControlKind, ids: Seq<Seq<u8>>, topics: Seq<Option<Seq<char>>> },
}

impl Step {
    /// Each id of a batch has a place for its topic.
    pub open spec fn valid(self) -> bool {
        self matches Step::Ids { ids, topics, .. } ==> topics.len() == ids.len()
    }

    /// The bytes that are booked as sent.
    pub open spec fn sent_len(self) -> nat {
        match self {
            Step::Sent(contribution) => contribution.volume(),
            _ => 0,
        }
    }

    /// The bytes that are taken back.
    pub open spec fn dropped_len(self) -> nat {
        match self {
            Step::Dropped(RpcOutView::Publish { message, .. }) => message_len(message),
            _ => 0,
        }
    }

    /// The bytes that are booked as received.
    pub open spec fn received_len(self) -> nat {
        match self {
            Step::Message(message) => message_len(message),
            Step::Partial(partial) => payload_len(partial.body) + payload_len(partial.metadata),
            Step::Control(part) => part.bytes,
            Step::Ids { ids, .. } => batch_volume(ids),
            _ => 0,
        }
    }
}

impl StatsView {
    /// These statistics after one call.
    pub open spec fn step(self, step: Step) -> StatsView {
        match step {
            Step::Sent(contribution) => self.send(contribution),
            Step::Dropped(rpc) => self.unsend(rpc),
            Step::Message(message) => self.receive_message(message),
            Step::Partial(partial) => self.receive_partial(partial),
            Step::Control(part) => self.receive_control(part),
            Step::Ids { kind, ids, topics } => self.receive_ids(kind, ids, topics),
        }
    }

    /// These statistics after a run of calls.
    pub open spec fn run(self, steps: Seq<Step>) -> StatsView
        decreases steps.len(),
    {
        if steps.len() == 0 {
            self
        } else {
            self.run(steps.drop_last()).step(steps.last())
        }
    }

    /// The counters can hold what a call books, and what it takes back is there.
    pub open spec fn holds(self, step: Step) -> bool {
        match step {
            Step::Sent(_) => self.volume(Side::Tx) + step.sent_len() <= u64::MAX,
            Step::Dropped(RpcOutView::Publish { message, .. }) => self.topic(
                message.topic,
            ).tx.data_bytes >= message_len(message),
            Step::Dropped(_) => true,
            _ => self.volume(Side::Rx) + step.received_len() <= u64::MAX,
        }
    }

    /// The counters can hold what each call of a run books, and what each takes back is
    /// there.
    pub open spec fn holds_run(self, steps: Seq<Step>) -> bool
        decreases steps.len(),
    {
        steps.len() > 0 ==> self.holds_run(steps.drop_last()) && self.run(
            steps.drop_last(),
        ).holds(steps.last())
    }
}

/// No topic is forgotten, and no counter has gone down but those that drops correct.
pub open spec fn grown_bar_drops(before: StatsView, after: StatsView) -> bool {
    &&& forall|topic: Seq<char>| #[trigger]
        before.per_topic.contains_key(topic) ==> after.per_topic.contains_key(topic)
    &&& forall|topic: Option<Seq<char>>, side: Side, counter: Counter|
        !corrected_by_drops(side, counter) ==> #[trigger] before.bucket(topic).side(side).get(
            counter,
        ) <= after.bucket(topic).side(side).get(counter)
}

/// No counter of the totals has gone down but those that drops correct.
pub open spec fn totals_grown_bar_drops(before: StatsView, after: StatsView) -> bool {
    forall|side: Side, counter: Counter|
        !corrected_by_drops(side, counter) ==> #[trigger] before.total(side).get(counter)
            <= after.total(side).get(counter)
}

/// Growth bar drops composes.
pub proof fn law_growth_bar_drops_composes(
    before: StatsView,
    middle: StatsView,
    after: StatsView,
)
    requires
        grown_bar_drops(before, middle),
        grown_bar_drops(middle, after),
    ensures
        grown_bar_drops(before, after),
{
    assert forall|topic: Option<Seq<char>>, side: Side, counter: Counter| !corrected_by_drops(
        side,
        counter,
    ) implies #[trigger] before.bucket(topic).side(side).get(counter) <= after.bucket(topic).side(
        side,
    ).get(counter) by {
        assert(before.bucket(topic).side(side).get(counter) <= middle.bucket(topic).side(side).get(
            counter,
        ));
    }
}

/// Growth bar drops in every bucket shows in the totals.
pub proof fn law_growth_bar_drops_shows_in_the_totals(before: StatsView, after: StatsView)
    requires
        before.valid(),
        after.valid(),
        grown_bar_drops(before, after),
    ensures
        totals_grown_bar_drops(before, after),
{
    assert forall|side: Side, counter: Counter| !corrected_by_drops(
        side,
        counter,
    ) implies #[trigger] before.total(side).get(counter) <= after.total(side).get(counter) by {
        assert forall|topic: Option<Seq<char>>| #[trigger]
            before.bucket(topic).side(side).get(counter) <= after.bucket(topic).side(side).get(
            counter,
        ) by {}
        lemma_sum_covered(before, after, side, counter);
        law_total_of_each_counter(before, side, counter);
        law_total_of_each_counter(after, side, counter);
    }
}

/// One call keeps the statistics valid and lowers nothing but what a drop corrects.
proof fn lemma_step_grows(stats: StatsView, step: Step)
    requires
        stats.valid(),
        step.valid(),
    ensures
        stats.step(step).valid(),
        grown_bar_drops(stats, stats.step(step)),
        !(step is Dropped) ==> grown(stats, stats.step(step)),
{
    let after = stats.step(step);
    match step {
        Step::Sent(contribution) => {
            law_send_only_grows(stats, contribution);
        },
        Step::Dropped(rpc) => {
            if let RpcOutView::Publish { message_id, message } = rpc {
                law_drop_touches_one_topic(stats, message_id, message);
                assert forall|topic: Option<Seq<char>>, side: Side, counter: Counter|
                    !corrected_by_drops(side, counter) implies #[trigger] stats.bucket(topic).side(
                    side,
                ).get(counter) <= after.bucket(topic).side(side).get(counter) by {
                    assert(topic != Some(message.topic) ==> after.bucket(topic) == stats.bucket(
                        topic,
                    ));
                }
            }
        },
        Step::Message(message) => {
            law_received_message_is_data(stats, message);
        },
        Step::Partial(partial) => {
            law_received_partial_is_payload(stats, partial);
        },
        Step::Control(part) => {
            law_received_control_only_grows(stats, part);
        },
        Step::Ids { kind, ids, topics } => {
            law_received_ids_only_grow(stats, kind, ids, topics);
        },
    }
}

/// Counters only ever grow, bar the dropped-publish correction: over any run of calls
/// no topic is forgotten, and no counter of a topic, of the untopiced bucket or of the
/// totals goes down but the payload that was sent. Without a drop in the run, none
/// goes down at all.
pub proof fn law_run_only_grows_bar_drops(stats: StatsView, steps: Seq<Step>)
    requires
        stats.valid(),
        forall|i: int| 0 <= i < steps.len() ==> (#[trigger] steps[i]).valid(),
    ensures
        stats.run(steps).valid(),
        grown_bar_drops(stats, stats.run(steps)),
        totals_grown_bar_drops(stats, stats.run(steps)),
        (forall|i: int| 0 <= i < steps.len() ==> !(#[trigger] steps[i] is Dropped)) ==> grown(
            stats,
            stats.run(steps),
        ) && totals_grown(stats, stats.run(steps)),
    decreases steps.len(),
{
    let after = stats.run(steps);
    if steps.len() > 0 {
        let seen = steps.drop_last();
        let middle = stats.run(seen);
        let last = steps[steps.len() - 1];
        assert forall|i: int| 0 <= i < seen.len() implies (#[trigger] seen[i]).valid() by {
            assert(steps[i].valid());
        }
        law_run_only_grows_bar_drops(stats, seen);
        assert(last.valid());
        lemma_step_grows(middle, last);
        law_growth_bar_drops_composes(stats, middle, after);
        if forall|i: int| 0 <= i < steps.len() ==> !(#[trigger] steps[i] is Dropped) {
            assert forall|i: int| 0 <= i < seen.len() implies !(#[trigger] seen[i] is Dropped) by {
                assert(!(steps[i] is Dropped));
            }
            assert(!(last is Dropped));
            law_growth_composes(stats, middle, after);
        }
    }
    law_growth_bar_drops_shows_in_the_totals(stats, after);
    if forall|i: int| 0 <= i < steps.len() ==> !(#[trigger] steps[i] is Dropped) {
        law_growth_shows_in_the_totals(stats, after);
    }
}

/// The bytes that a run books as sent.
pub open spec fn run_sent(steps: Seq<Step>) -> nat {
    seq_sum(steps, |step: Step| step.sent_len())
}

/// The bytes that a run takes back.
pub open spec fn run_dropped(steps: Seq<Step>) -> nat {
    seq_sum(steps, |step: Step| step.dropped_len())
}

/// The bytes that a run books as received.
pub open spec fn run_received(steps: Seq<Step>) -> nat {
    seq_sum(steps, |step: Step| step.received_len())
}

/// The volume stays accurate over any run of calls: what was sent is what was committed
/// less what was dropped, and what was received is every byte that came in, as long as
/// the counters can hold it and only what was booked is dropped.
pub proof fn law_volume_is_accurate(stats: StatsView, steps: Seq<Step>)
    requires
        stats.valid(),
        forall|i: int| 0 <= i < steps.len() ==> (#[trigger] steps[i]).valid(),
        stats.holds_run(steps),
    ensures
        stats.run(steps).volume(Side::Tx) + run_dropped(steps) == stats.volume(Side::Tx) + run_sent(
            steps,
        ),
        stats.run(steps).volume(Side::Rx) == stats.volume(Side::Rx) + run_received(steps),
    decreases steps.len(),
{
    if steps.len() > 0 {
        let seen = steps.drop_last();
        let middle = stats.run(seen);
        let last = steps[steps.len() - 1];
        assert forall|i: int| 0 <= i < seen.len() implies (#[trigger] seen[i]).valid() by {
            assert(steps[i].valid());
        }
        law_volume_is_accurate(stats, seen);
        law_run_only_grows_bar_drops(stats, seen);
        assert(last.valid());
        match last {
            Step::Sent(contribution) => {
                law_send_adds_its_bytes(middle, contribution);
            },
            Step::Dropped(rpc) => {
                if let RpcOutView::Publish { message_id, message } = rpc {
                    law_drop_gives_bytes_back(middle, message_id, message);
                }
            },
            Step::Message(message) => {
                law_received_message_adds_its_bytes(middle, message);
            },
            Step::Partial(partial) => {
                law_received_partial_adds_its_bytes(middle, partial);
            },
            Step::Control(part) => {
                law_received_control_adds_its_bytes(middle, part);
            },
            Step::Ids { kind, ids, topics } => {
                law_received_ids_are_charged_in_full(middle, kind, ids, topics);
            },
        }
    }
}

} // verus!
