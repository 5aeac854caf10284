//! The decisions taken while the API is still preparing a reply: a request that is answered
//! with 202 Accepted is tried again after a delay that doubles each time, up to a limit.
use vstd::prelude::*;
use vstd::arithmetic::power2::{pow2, lemma2_to64};

verus! {

/// The most times a request is sent again after an Accepted reply.
pub const MAX_RETRIES: u32 = 4;

/// The delay before the first retry, in milliseconds.
pub const BASE_DELAY_MILLIS: u64 = 200;

/// The delay before retry number `k`, counted from 0: 200 ms doubled `k` times.
pub open spec fn backoff_millis(k: nat) -> nat {
    200 * pow2(k)
}

/// What to do after a reply has come back.
#[derive(Clone, Copy, Debug, PartialEq, Eq, Structural)]
pub enum RetryStep {
    /// Wait this many milliseconds, then send the request again.
    Wait(u64),
    /// Stop: the data was still not ready after this many attempts in all.
    GiveUp(u32),
    /// The reply is final; hand it on.
    Done,
}

/// The count of retries made so far for one request.
#[derive(Clone, Copy, Debug, PartialEq, Eq, Structural)]
pub struct RetryState {
    retries: u32,
}

/// The step taken after a reply, given the retries made so far and whether the reply was
/// 202 Accepted.
pub open spec fn retry_step_spec(retries: nat, accepted: bool) -> RetryStep {
    if !accepted {
        RetryStep::Done
    } else if retries >= 4 {
        RetryStep::GiveUp((retries + 1) as u32)
    } else {
        RetryStep::Wait(backoff_millis(retries) as u64)
    }
}

impl RetryState {
    /// The number of retries made so far.
    pub closed spec fn retries(&self) -> nat {
        self.retries as nat
    }

    /// The state is well formed: at most four retries are ever made.
    pub closed spec fn wf(&self) -> bool {
        self.retries <= 4
    }

    /// The state of a request that has not been retried yet.
    pub fn new() -> (s: RetryState)
        ensures
            s.retries() == 0,
            s.wf(),
    {
        RetryState { retries: 0 }
    }

    /// Decides what follows a reply, and counts the retry when there is one.
    pub fn on_reply(&mut self, accepted: bool) -> (step: RetryStep)
        requires
            old(self).wf(),
        ensures
            final(self).wf(),
            step == retry_step_spec(old(self).retries(), accepted),
            step matches RetryStep::Wait(_) ==> final(self).retries() == old(self).retries() + 1,
            !(step is Wait) ==> final(self).retries() == old(self).retries(),
    {
        proof {
            lemma2_to64();
        }
        if !accepted {
            return RetryStep::Done;
        }
        if self.retries >= MAX_RETRIES {
            return RetryStep::GiveUp(self.retries + 1);
        }
        let delay: u64 = match self.retries {
            0 => 200,
            1 => 400,
            2 => 800,
            _ => 1600,
        };
        self.retries = self.retries + 1;
        RetryStep::Wait(delay)
    }
}

/// The steps taken for a run of replies, from a request that has been retried `retries` times.
pub open spec fn retry_run(retries: nat, accepted: Seq<bool>) -> Seq<RetryStep>
    decreases accepted.len(),
{
    if accepted.len() == 0 {
        seq![]
    } else {
        let step = retry_step_spec(retries, accepted[0]);
        let next = if step is Wait { retries + 1 } else { retries };
        seq![step] + retry_run(next, accepted.drop_first())
    }
}

/// A request that keeps being answered with Accepted waits 200, 400, 800 and 1600 ms before
/// its four retries, and the fifth Accepted reply ends it with five attempts in all.
pub proof fn law_backoff_schedule()
    ensures
        retry_run(0, seq![true, true, true, true, true]) == seq![
            RetryStep::Wait(200),
            RetryStep::Wait(400),
            RetryStep::Wait(800),
            RetryStep::Wait(1600),
            RetryStep::GiveUp(5),
        ],
{
    lemma2_to64();
    let s = seq![true, true, true, true, true];
    assert(s.drop_first() =~= seq![true, true, true, true]);
    assert(s.drop_first().drop_first() =~= seq![true, true, true]);
    assert(s.drop_first().drop_first().drop_first() =~= seq![true, true]);
    assert(s.drop_first().drop_first().drop_first().drop_first() =~= seq![true]);
    assert(seq![true].drop_first() =~= Seq::<bool>::empty());
    reveal_with_fuel(retry_run, 6);
    assert(retry_run(0, s) =~= seq![
        RetryStep::Wait(200),
        RetryStep::Wait(400),
        RetryStep::Wait(800),
        RetryStep::Wait(1600),
        RetryStep::GiveUp(5),
    ]);
}

/// The number of waits in a run of steps.
pub open spec fn wait_count(steps: Seq<RetryStep>) -> nat
    decreases steps.len(),
{
    if steps.len() == 0 {
        0
    } else {
        (if steps[0] is Wait { 1nat } else { 0nat }) + wait_count(steps.drop_first())
    }
}

/// However the replies come, a request is never sent more than five times: a run of steps
/// from a request retried `retries` times has at most `4 - retries` more waits.
pub proof fn law_at_most_four_waits(accepted: Seq<bool>, retries: nat)
    requires
        retries <= 4,
    ensures
        wait_count(retry_run(retries, accepted)) <= 4 - retries,
    decreases accepted.len(),
{
    if accepted.len() > 0 {
        let step = retry_step_spec(retries, accepted[0]);
        let next = if step is Wait { retries + 1 } else { retries };
        law_at_most_four_waits(accepted.drop_first(), next);
        let rest = retry_run(next, accepted.drop_first());
        let all = retry_run(retries, accepted);
        assert(all == seq![step] + rest);
        assert(all[0] == step);
        assert(all.drop_first() =~= rest);
    }
}

/// Law: a reply that is not 202 Accepted is always final; the first 202 is answered by a wait
/// of 200 ms, each further one by a wait twice as long as the one before, and the fifth is
/// given up, counting five attempts.
pub proof fn law_retry_steps(retries: nat)
    requires
        retries <= 4,
    ensures
        retry_step_spec(retries, false) == RetryStep::Done,
        retry_step_spec(0, true) == RetryStep::Wait(200),
        retries < 3 ==> (retry_step_spec(retries, true) matches RetryStep::Wait(a)
            && retry_step_spec(retries + 1, true) matches RetryStep::Wait(b) && b == 2 * a),
        retry_step_spec(4, true) == RetryStep::GiveUp(5),
{
    lemma2_to64();
    if retries < 3 {
        vstd::arithmetic::power2::lemma_pow2_unfold(retries + 1);
    }
}

} // verus!
