use vstd::prelude::*;
use crate::experiments::{AsyncExperiments, InterProcessSync};
use crate::sender::{sender_script, sent_flags, lemma_sender_script_shape};

verus! {

/// What one poll of a channel gave the receiver.
#[derive(Debug, Clone, Copy, PartialEq, Eq, Structural)]
pub enum PollOutcome {
    /// A message arrived; `kill` is its kill flag.
    Message { kill: bool },
    /// Nothing has arrived yet.
    Empty,
    /// The channel reported an error or was closed.
    Failed,
}

/// How a receiver treats a failed poll.
#[derive(Debug, Clone, Copy, PartialEq, Eq, Structural)]
pub enum FailurePolicy {
    /// End the experiment without a report.
    StopQuietly,
    /// Report the failure and end the experiment.
    ReportAndStop,
    /// Ignore the failure and poll again.
    KeepPolling,
}

/// What a receiver does after one poll.
#[derive(Debug, Clone, Copy, PartialEq, Eq, Structural)]
pub enum ReceiverAction {
    /// Record the latency of the message that arrived.
    RecordLatency,
    /// The experiment is over: the kill message arrived, or the channel
    /// ended and nothing is to be reported.
    Stop,
    /// Report that receiving failed, and end the experiment.
    ReportAndStop,
    /// Poll the channel again.
    PollAgain,
}

/// The failure policy of the receiver of an asynchronous experiment:
/// the tokio receiver ends quietly when its channel closes, the others
/// report the failure.
pub open spec fn async_policy_of(e: AsyncExperiments) -> FailurePolicy {
    match e {
        AsyncExperiments::Tokio => FailurePolicy::StopQuietly,
        _ => FailurePolicy::ReportAndStop,
    }
}

/// The failure policy of the receiver of a busy-spinning experiment:
/// only kanal reports a failure and stops; the others keep spinning.
pub open spec fn busy_policy_of(e: InterProcessSync) -> FailurePolicy {
    match e {
        InterProcessSync::Kanal => FailurePolicy::ReportAndStop,
        _ => FailurePolicy::KeepPolling,
    }
}

/// What a receiver with `policy` does after a poll gave `outcome`.
pub open spec fn receiver_decision(policy: FailurePolicy, outcome: PollOutcome) -> ReceiverAction {
    match outcome {
        PollOutcome::Message { kill } => if kill {
            ReceiverAction::Stop
        } else {
            ReceiverAction::RecordLatency
        },
        PollOutcome::Empty => ReceiverAction::PollAgain,
        PollOutcome::Failed => match policy {
            FailurePolicy::StopQuietly => ReceiverAction::Stop,
            FailurePolicy::ReportAndStop => ReceiverAction::ReportAndStop,
            FailurePolicy::KeepPolling => ReceiverAction::PollAgain,
        },
    }
}

/// The failure policy of the receiver of an asynchronous experiment.
pub fn async_failure_policy(e: AsyncExperiments) -> (p: FailurePolicy)
    ensures
        p == async_policy_of(e),
{
    match e {
        AsyncExperiments::Tokio => FailurePolicy::StopQuietly,
        _ => FailurePolicy::ReportAndStop,
    }
}

/// The failure policy of the receiver of a busy-spinning experiment.
pub fn busy_failure_policy(e: InterProcessSync) -> (p: FailurePolicy)
    ensures
        p == busy_policy_of(e),
{
    match e {
        InterProcessSync::Kanal => FailurePolicy::ReportAndStop,
        _ => FailurePolicy::KeepPolling,
    }
}

/// What a receiver does after a poll.
pub fn next_receiver_action(policy: FailurePolicy, outcome: PollOutcome) -> (a: ReceiverAction)
    ensures
        a == receiver_decision(policy, outcome),
{
    match outcome {
        PollOutcome::Message { kill } => if kill {
            ReceiverAction::Stop
        } else {
            ReceiverAction::RecordLatency
        },
        PollOutcome::Empty => ReceiverAction::PollAgain,
        PollOutcome::Failed => match policy {
            FailurePolicy::StopQuietly => ReceiverAction::Stop,
            FailurePolicy::ReportAndStop => ReceiverAction::ReportAndStop,
            FailurePolicy::KeepPolling => ReceiverAction::PollAgain,
        },
    }
}

/// A receiver with `policy` that sees the poll outcomes `outs` in order:
/// how many latencies it records, and the action that ended the
/// experiment, if one did.
pub open spec fn receiver_run(policy: FailurePolicy, outs: Seq<PollOutcome>) -> (nat, Option<ReceiverAction>)
    decreases outs.len(),
{
    if outs.len() == 0 {
        (0, None)
    } else {
        match receiver_decision(policy, outs[0]) {
            ReceiverAction::RecordLatency => {
                let rest = receiver_run(policy, outs.drop_first());
                (rest.0 + 1, rest.1)
            },
            ReceiverAction::PollAgain => receiver_run(policy, outs.drop_first()),
            a => (0, Some(a)),
        }
    }
}

/// The messages among the poll outcomes `outs`, in order.
pub open spec fn messages_of(outs: Seq<PollOutcome>) -> Seq<PollOutcome>
    decreases outs.len(),
{
    if outs.len() == 0 {
        Seq::empty()
    } else if outs[0] is Message {
        seq![outs[0]] + messages_of(outs.drop_first())
    } else {
        messages_of(outs.drop_first())
    }
}

/// The poll outcomes of a receiver that gets the messages with the kill
/// flags `flags`, in order, with no idle or failed poll between them.
pub open spec fn delivered(flags: Seq<bool>) -> Seq<PollOutcome> {
    flags.map_values(|kill: bool| PollOutcome::Message { kill })
}

/// Messages without the kill flag at the front of what a receiver sees
/// each add one recorded latency to whatever the rest gives.
proof fn lemma_records_leading_samples(policy: FailurePolicy, k: nat, rest: Seq<PollOutcome>)
    ensures
        receiver_run(policy, Seq::new(k, |i: int| PollOutcome::Message { kill: false }) + rest)
            == (k + receiver_run(policy, rest).0, receiver_run(policy, rest).1),
    decreases k,
{
    let outs = Seq::new(k, |i: int| PollOutcome::Message { kill: false }) + rest;
    if k > 0 {
        lemma_records_leading_samples(policy, (k - 1) as nat, rest);
        assert(outs.drop_first() =~= Seq::new((k - 1) as nat, |i: int| PollOutcome::Message { kill: false })
            + rest);
        assert(outs[0] == PollOutcome::Message { kill: false });
    } else {
        assert(outs =~= rest);
    }
}

/// A receiver records one latency for each message before the first
/// kill message, stops there, and never looks at what comes after it.
pub proof fn lemma_receiver_stops_at_kill(policy: FailurePolicy, k: nat, rest: Seq<PollOutcome>)
    ensures
        receiver_run(
            policy,
            Seq::new(k, |i: int| PollOutcome::Message { kill: false }) + (seq![PollOutcome::Message { kill: true }]
                + rest),
        ) == (k, Some(ReceiverAction::Stop)),
{
    let tail = seq![PollOutcome::Message { kill: true }] + rest;
    lemma_records_leading_samples(policy, k, tail);
    assert(tail[0] == PollOutcome::Message { kill: true });
}

/// A receiver that does not ignore failures ends the experiment at the
/// first failed poll, keeping the latencies recorded before it: the
/// tokio receiver quietly, the others with a report.
pub proof fn lemma_receiver_ends_at_failure(policy: FailurePolicy, k: nat, rest: Seq<PollOutcome>)
    requires
        policy != FailurePolicy::KeepPolling,
    ensures
        receiver_run(
            policy,
            Seq::new(k, |i: int| PollOutcome::Message { kill: false }) + (seq![PollOutcome::Failed] + rest),
        ) == (k, Some(
            if policy == FailurePolicy::StopQuietly {
                ReceiverAction::Stop
            } else {
                ReceiverAction::ReportAndStop
            },
        )),
{
    let tail = seq![PollOutcome::Failed] + rest;
    lemma_records_leading_samples(policy, k, tail);
    assert(tail[0] == PollOutcome::Failed);
}

/// A busy-spinning receiver that ignores failures acts on the messages
/// alone: idle and failed polls between them change nothing.
pub proof fn lemma_polling_receiver_ignores_idle_polls(outs: Seq<PollOutcome>)
    ensures
        receiver_run(FailurePolicy::KeepPolling, outs) == receiver_run(FailurePolicy::KeepPolling, messages_of(outs)),
    decreases outs.len(),
{
    if outs.len() > 0 {
        lemma_polling_receiver_ignores_idle_polls(outs.drop_first());
        if outs[0] is Message {
            let m = messages_of(outs);
            assert(m =~= seq![outs[0]] + messages_of(outs.drop_first()));
            assert(m[0] == outs[0]);
            assert(m.drop_first() =~= messages_of(outs.drop_first()));
        }
    } else {
        assert(messages_of(outs) =~= Seq::<PollOutcome>::empty());
    }
}

/// Whatever its failure policy, a receiver that gets in order the
/// messages a sender sends for `n` samples records exactly `n`
/// latencies and stops at the kill message.
pub proof fn lemma_every_sample_recorded(policy: FailurePolicy, n: nat)
    ensures
        receiver_run(policy, delivered(sent_flags(sender_script(n)))) == (n, Some(ReceiverAction::Stop)),
{
    lemma_sender_script_shape(n);
    let d = delivered(sent_flags(sender_script(n)));
    assert(d =~= Seq::new(n, |i: int| PollOutcome::Message { kill: false }) + (seq![
        PollOutcome::Message { kill: true },
    ] + Seq::<PollOutcome>::empty()));
    lemma_receiver_stops_at_kill(policy, n, Seq::empty());
}

/// A busy-spinning receiver that ignores failures records exactly `n`
/// latencies and stops at the kill message, however many idle or failed
/// polls come between the messages of a sender of `n` samples.
pub proof fn lemma_polling_receiver_records_every_sample(outs: Seq<PollOutcome>, n: nat)
    requires
        messages_of(outs) == delivered(sent_flags(sender_script(n))),
    ensures
        receiver_run(FailurePolicy::KeepPolling, outs) == (n, Some(ReceiverAction::Stop)),
{
    lemma_polling_receiver_ignores_idle_polls(outs);
    lemma_every_sample_recorded(FailurePolicy::KeepPolling, n);
}

} // verus!
