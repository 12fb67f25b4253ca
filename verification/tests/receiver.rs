use channel_bench::experiments::{async_experiments, busy_experiments, AsyncExperiments, InterProcessSync};
use channel_bench::receiver::{
    async_failure_policy, busy_failure_policy, next_receiver_action, FailurePolicy, PollOutcome, ReceiverAction,
};
use channel_bench::sender::{SenderAction, SenderPlan};

/// Feeds `outs` to a receiver; returns the recorded count and the ending action.
fn run(policy: FailurePolicy, outs: &[PollOutcome]) -> (usize, Option<ReceiverAction>) {
    let mut recorded = 0;
    for o in outs {
        match next_receiver_action(policy, *o) {
            ReceiverAction::RecordLatency => recorded += 1,
            ReceiverAction::PollAgain => {}
            a => return (recorded, Some(a)),
        }
    }
    (recorded, None)
}

fn sent_messages(sample_size: i64) -> Vec<PollOutcome> {
    let mut plan = SenderPlan::new(sample_size);
    let mut out = Vec::new();
    while !plan.is_finished() {
        if let SenderAction::Send { kill } = plan.action() {
            out.push(PollOutcome::Message { kill });
        }
        plan.advance();
    }
    out
}

#[test]
fn decisions() {
    for p in [FailurePolicy::StopQuietly, FailurePolicy::ReportAndStop, FailurePolicy::KeepPolling] {
        assert_eq!(next_receiver_action(p, PollOutcome::Message { kill: false }), ReceiverAction::RecordLatency);
        assert_eq!(next_receiver_action(p, PollOutcome::Message { kill: true }), ReceiverAction::Stop);
        assert_eq!(next_receiver_action(p, PollOutcome::Empty), ReceiverAction::PollAgain);
    }
    assert_eq!(next_receiver_action(FailurePolicy::StopQuietly, PollOutcome::Failed), ReceiverAction::Stop);
    assert_eq!(
        next_receiver_action(FailurePolicy::ReportAndStop, PollOutcome::Failed),
        ReceiverAction::ReportAndStop
    );
    assert_eq!(next_receiver_action(FailurePolicy::KeepPolling, PollOutcome::Failed), ReceiverAction::PollAgain);
}

#[test]
fn policies() {
    for e in async_experiments() {
        let expected = if e == AsyncExperiments::Tokio {
            FailurePolicy::StopQuietly
        } else {
            FailurePolicy::ReportAndStop
        };
        assert_eq!(async_failure_policy(e), expected);
    }
    for e in busy_experiments() {
        let expected = if e == InterProcessSync::Kanal {
            FailurePolicy::ReportAndStop
        } else {
            FailurePolicy::KeepPolling
        };
        assert_eq!(busy_failure_policy(e), expected);
    }
}

#[test]
fn every_sample_is_recorded() {
    for p in [FailurePolicy::StopQuietly, FailurePolicy::ReportAndStop, FailurePolicy::KeepPolling] {
        assert_eq!(run(p, &sent_messages(7)), (7, Some(ReceiverAction::Stop)));
        assert_eq!(run(p, &sent_messages(0)), (0, Some(ReceiverAction::Stop)));
    }
}

#[test]
fn polling_receiver_ignores_idle_polls() {
    let mut outs = Vec::new();
    for m in sent_messages(3) {
        outs.push(PollOutcome::Empty);
        outs.push(PollOutcome::Failed);
        outs.push(m);
    }
    assert_eq!(run(FailurePolicy::KeepPolling, &outs), (3, Some(ReceiverAction::Stop)));
}

#[test]
fn nothing_after_kill_is_seen() {
    let mut outs = sent_messages(2);
    outs.push(PollOutcome::Message { kill: false });
    outs.push(PollOutcome::Failed);
    assert_eq!(run(FailurePolicy::ReportAndStop, &outs), (2, Some(ReceiverAction::Stop)));
}

#[test]
fn failure_ends_reporting_receiver() {
    let outs = [
        PollOutcome::Message { kill: false },
        PollOutcome::Failed,
        PollOutcome::Message { kill: false },
    ];
    assert_eq!(run(FailurePolicy::ReportAndStop, &outs), (1, Some(ReceiverAction::ReportAndStop)));
    assert_eq!(run(FailurePolicy::StopQuietly, &outs), (1, Some(ReceiverAction::Stop)));
    assert_eq!(run(FailurePolicy::KeepPolling, &outs), (2, None));
}
