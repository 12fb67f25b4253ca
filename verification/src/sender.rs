use vstd::prelude::*;

verus! {

/// What a sender does next during one experiment.
#[derive(Debug, Clone, Copy, PartialEq, Eq, Structural)]
pub enum SenderAction {
    /// Send one message with the current payload; `kill` tells the
    /// receiver that this is the last message of the experiment.
    Send { kill: bool },
    /// Record how long the send that just happened took.
    RecordLatency,
    /// Wait one millisecond before the next send.
    Pause,
    /// The experiment is over for this sender.
    Finish,
}

#[derive(Debug, Clone, Copy, PartialEq, Eq, Structural)]
enum Stage {
    Sending,
    Recording,
    Pausing,
    Killing,
    Finished,
}

/// The number of timed messages an experiment sends for a requested
/// sample size: a negative size sends none.
pub open spec fn sample_count(sample_size: i64) -> nat {
    if sample_size > 0 {
        sample_size as nat
    } else {
        0
    }
}

/// The action at position `i` of the script for `n` samples.
pub open spec fn script_action(n: nat, i: int) -> SenderAction {
    if 0 <= i < 3 * n {
        if i % 3 == 0 {
            SenderAction::Send { kill: false }
        } else if i % 3 == 1 {
            SenderAction::RecordLatency
        } else {
            SenderAction::Pause
        }
    } else if i == 3 * n {
        SenderAction::Send { kill: true }
    } else {
        SenderAction::Finish
    }
}

/// Everything a sender does for `n` samples, in order: `n` rounds of
/// send, record, pause, then the kill message.
pub open spec fn sender_script(n: nat) -> Seq<SenderAction> {
    Seq::new(3 * n + 1, |i: int| script_action(n, i))
}

/// Round `k` of the script for `n` samples: the three actions that
/// start at position `3 * k`.
pub open spec fn script_round(n: nat, k: int) -> Seq<SenderAction> {
    sender_script(n).subrange(3 * k, 3 * k + 3)
}

/// The kill flags of the messages that a sequence of actions sends, in order.
pub open spec fn sent_flags(actions: Seq<SenderAction>) -> Seq<bool>
    decreases actions.len(),
{
    if actions.len() == 0 {
        Seq::empty()
    } else {
        let rest = sent_flags(actions.drop_last());
        match actions.last() {
            SenderAction::Send { kill } => rest.push(kill),
            _ => rest,
        }
    }
}

/// The timed messages that the first `m` actions of a script send: one
/// non-kill message per started round.
proof fn lemma_sent_flags_prefix(n: nat, m: nat)
    requires
        m <= 3 * n,
    ensures
        sent_flags(sender_script(n).take(m as int)) =~= Seq::new((m + 2) / 3, |j: int| false),
    decreases m,
{
    let s = sender_script(n);
    if m > 0 {
        lemma_sent_flags_prefix(n, (m - 1) as nat);
        assert(s.take(m as int).drop_last() =~= s.take(m - 1));
        assert(s.take(m as int).last() == script_action(n, m - 1));
    } else {
        assert(s.take(0) =~= Seq::<SenderAction>::empty());
    }
}

/// What a sender does in one experiment of `n` samples: it sends `n`
/// messages without the kill flag and then exactly one with it, last;
/// the script is `n` rounds of send, record latency and pause, followed
/// by the kill message.
pub proof fn lemma_sender_script_shape(n: nat)
    ensures
        sender_script(n).len() == 3 * n + 1,
        sender_script(n).last() == (SenderAction::Send { kill: true }),
        forall|i: int|
            0 <= i < sender_script(n).len() ==> (#[trigger] sender_script(n)[i] == (SenderAction::Send { kill: true })
                <==> i == 3 * n),
        forall|k: int|
            0 <= k < n ==> #[trigger] script_round(n, k) =~= seq![
                SenderAction::Send { kill: false },
                SenderAction::RecordLatency,
                SenderAction::Pause,
            ],
        sent_flags(sender_script(n)) =~= Seq::new(n + 1, |j: int| j == n),
{
    lemma_script_sends(n);
    lemma_script_kill_last(n);
    lemma_script_rounds(n);
}

proof fn lemma_script_kill_last(n: nat)
    ensures
        sender_script(n).last() == (SenderAction::Send { kill: true }),
        forall|i: int|
            0 <= i < sender_script(n).len() ==> (#[trigger] sender_script(n)[i] == (SenderAction::Send { kill: true })
                <==> i == 3 * n),
{
    let s = sender_script(n);
    assert(s.last() == script_action(n, (3 * n) as int));
    assert forall|i: int| 0 <= i < s.len() implies (#[trigger] s[i] == (SenderAction::Send { kill: true })
        <==> i == 3 * n) by {
        assert(s[i] == script_action(n, i));
    }
}

proof fn lemma_script_rounds(n: nat)
    ensures
        forall|k: int|
            0 <= k < n ==> #[trigger] script_round(n, k) =~= seq![
                SenderAction::Send { kill: false },
                SenderAction::RecordLatency,
                SenderAction::Pause,
            ],
{
    assert forall|k: int| 0 <= k < n implies #[trigger] script_round(n, k) =~= seq![
        SenderAction::Send { kill: false },
        SenderAction::RecordLatency,
        SenderAction::Pause,
    ] by {
        let s = sender_script(n);
        assert(s[3 * k] == script_action(n, 3 * k));
        assert(s[3 * k + 1] == script_action(n, 3 * k + 1));
        assert(s[3 * k + 2] == script_action(n, 3 * k + 2));
    }
}

/// A plan takes the actions of its script in order: at every position
/// up to the kill message the plan's action is the script's, and after
/// it the plan only finishes.
pub proof fn lemma_plan_follows_script(n: nat, i: int)
    requires
        0 <= i,
    ensures
        i < sender_script(n).len() ==> script_action(n, i) == sender_script(n)[i],
        i >= sender_script(n).len() ==> script_action(n, i) == SenderAction::Finish,
{
}

/// Every requested sample is sent: a positive sample size gives exactly
/// that many timed messages, followed by the one kill message, and a
/// size of zero or less gives only the kill message.
pub proof fn lemma_every_requested_sample_sent(sample_size: i64)
    ensures
        sample_size > 0 ==> sample_count(sample_size) == sample_size,
        sample_size <= 0 ==> sample_count(sample_size) == 0,
        sample_size > 0 ==> sent_flags(sender_script(sample_count(sample_size))).len() == sample_size + 1,
        sample_size > 0 ==> forall|j: int|
            0 <= j < sample_size ==> !#[trigger] sent_flags(sender_script(sample_count(sample_size)))[j],
        sample_size > 0 ==> sent_flags(sender_script(sample_count(sample_size)))[sample_size as int],
        sender_script(sample_count(sample_size)).len() == 3 * (if sample_size > 0 { sample_size as int } else { 0 }) + 1,
{
    lemma_sender_script_shape(sample_count(sample_size));
}

/// The messages of a whole script: `n` without the kill flag, then one with it.
proof fn lemma_script_sends(n: nat)
    ensures
        sent_flags(sender_script(n)) =~= Seq::new(n + 1, |j: int| j == n),
{
    let s = sender_script(n);
    lemma_sent_flags_prefix(n, 3 * n);
    assert(s.take((3 * n + 1) as int) =~= s);
    assert(s.drop_last() =~= s.take((3 * n) as int));
    assert((3 * n + 2) / 3 == n);
    assert(s.last() == script_action(n, (3 * n) as int));
}

/// The sender side of one experiment: a plan that walks through
/// `sender_script(samples)` one action at a time.
pub struct SenderPlan {
    samples: u64,
    sent: u64,
    stage: Stage,
}

impl SenderPlan {
    #[verifier::type_invariant]
    spec fn well_formed(self) -> bool {
        match self.stage {
            Stage::Sending => self.sent < self.samples,
            Stage::Recording | Stage::Pausing => 1 <= self.sent <= self.samples,
            Stage::Killing | Stage::Finished => self.sent == self.samples,
        }
    }

    /// The number of timed messages this plan sends.
    pub closed spec fn samples(self) -> nat {
        self.samples as nat
    }

    /// How many actions of the script have been taken.
    pub closed spec fn position(self) -> nat {
        match self.stage {
            Stage::Sending => (3 * self.sent) as nat,
            Stage::Recording => (3 * self.sent - 2) as nat,
            Stage::Pausing => (3 * self.sent - 1) as nat,
            Stage::Killing => (3 * self.samples) as nat,
            Stage::Finished => (3 * self.samples + 1) as nat,
        }
    }

    /// A plan for one experiment of `sample_size` samples, at the start
    /// of its script.
    pub fn new(sample_size: i64) -> (plan: SenderPlan)
        ensures
            plan.samples() == sample_count(sample_size),
            sample_size > 0 ==> plan.samples() == sample_size,
            sample_size <= 0 ==> plan.samples() == 0,
            plan.position() == 0,
    {
        let samples: u64 = if sample_size > 0 {
            sample_size as u64
        } else {
            0
        };
        let stage = if samples > 0 {
            Stage::Sending
        } else {
            Stage::Killing
        };
        SenderPlan { samples, sent: 0, stage }
    }

    /// The action at the current position of the script, or `Finish`
    /// once the whole script has been taken.
    pub fn action(&self) -> (a: SenderAction)
        ensures
            a == script_action(self.samples(), self.position() as int),
    {
        proof {
            use_type_invariant(self);
        }
        match self.stage {
            Stage::Sending => SenderAction::Send { kill: false },
            Stage::Recording => SenderAction::RecordLatency,
            Stage::Pausing => SenderAction::Pause,
            Stage::Killing => SenderAction::Send { kill: true },
            Stage::Finished => SenderAction::Finish,
        }
    }

    /// Whether the whole script has been taken.
    pub fn is_finished(&self) -> (b: bool)
        ensures
            b == (self.position() == 3 * self.samples() + 1),
    {
        proof {
            use_type_invariant(self);
        }
        match self.stage {
            Stage::Finished => true,
            _ => false,
        }
    }

    /// Moves past the current action; a finished plan stays finished.
    pub fn advance(&mut self)
        ensures
            final(self).samples() == old(self).samples(),
            final(self).position() == if old(self).position() <= 3 * old(self).samples() {
                old(self).position() + 1
            } else {
                old(self).position()
            },
    {
        proof {
            use_type_invariant(&*self);
        }
        match self.stage {
            Stage::Sending => {
                *self = SenderPlan { samples: self.samples, sent: self.sent + 1, stage: Stage::Recording };
            },
            Stage::Recording => {
                self.stage = Stage::Pausing;
            },
            Stage::Pausing => {
                if self.sent < self.samples {
                    self.stage = Stage::Sending;
                } else {
                    self.stage = Stage::Killing;
                }
            },
            Stage::Killing => {
                self.stage = Stage::Finished;
            },
            Stage::Finished => {},
        }
    }
}

} // verus!
