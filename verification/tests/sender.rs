use channel_bench::sender::{SenderAction, SenderPlan};

fn run_plan(sample_size: i64) -> Vec<SenderAction> {
    let mut plan = SenderPlan::new(sample_size);
    let mut actions = Vec::new();
    while !plan.is_finished() {
        actions.push(plan.action());
        plan.advance();
    }
    assert_eq!(plan.action(), SenderAction::Finish);
    actions
}

#[test]
fn sender_script_for_two_samples() {
    assert_eq!(
        run_plan(2),
        vec![
            SenderAction::Send { kill: false },
            SenderAction::RecordLatency,
            SenderAction::Pause,
            SenderAction::Send { kill: false },
            SenderAction::RecordLatency,
            SenderAction::Pause,
            SenderAction::Send { kill: true },
        ]
    );
}

#[test]
fn sender_with_no_samples_only_kills() {
    assert_eq!(run_plan(0), vec![SenderAction::Send { kill: true }]);
}

#[test]
fn negative_sample_size_sends_no_samples() {
    assert_eq!(run_plan(-5), vec![SenderAction::Send { kill: true }]);
}

#[test]
fn sender_sends_each_sample_then_one_kill() {
    let actions = run_plan(100);
    assert_eq!(actions.len(), 3 * 100 + 1);
    let sends: Vec<bool> = actions
        .iter()
        .filter_map(|a| match a {
            SenderAction::Send { kill } => Some(*kill),
            _ => None,
        })
        .collect();
    assert_eq!(sends.len(), 101);
    assert!(sends[..100].iter().all(|k| !k));
    assert!(sends[100]);
}

#[test]
fn finished_plan_stays_finished() {
    let mut plan = SenderPlan::new(1);
    for _ in 0..4 {
        plan.advance();
    }
    assert!(plan.is_finished());
    plan.advance();
    assert!(plan.is_finished());
    assert_eq!(plan.action(), SenderAction::Finish);
}
