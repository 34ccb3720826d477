use vstd::prelude::*;
use crate::sequence::{Check, Guard, OnFail, Op, Step, spec_code, spec_fails};

verus! {

/// Where a sequence of calls stands.
#[derive(Clone, Copy, Debug, PartialEq, Eq, Structural)]
pub enum RunStatus {
    Running,
    /// Every call was made and none failed.
    Done,
    /// A call failed; the sequence returns this error.
    Failed(i32),
    /// A call failed inside a stage whose error stops the program.
    Aborted(i32),
}

/// What the caller does next.
#[derive(Clone, Copy, Debug, PartialEq, Eq, Structural)]
pub enum Action {
    /// Make this call and report its result.
    Call(Op),
    /// The sequence is over.
    Finished(RunStatus),
}

/// Walks a sequence of calls: hands out each call in turn, judges each
/// reported result, and stops at the first failure.
pub struct Runner {
    pub steps: Vec<Step>,
    pub pos: usize,
    /// What the last encoder query said of its channel.
    pub registered: bool,
    /// The handles of the four OSD regions, as their creation returned them.
    pub handles: Vec<i32>,
    pub status: RunStatus,
}

/// Whether a step is made: guarded steps only after a query that found
/// the channel registered.
pub open spec fn spec_active(s: Step, registered: bool) -> bool {
    s.guard == Guard::Always || registered
}

/// The first step at or after `pos` that is made.
pub open spec fn spec_next_active(steps: Seq<Step>, pos: int, registered: bool) -> int
    decreases steps.len() - pos,
{
    if pos >= steps.len() || pos < 0 {
        pos
    } else if spec_active(steps[pos], registered) {
        pos
    } else {
        spec_next_active(steps, pos + 1, registered)
    }
}

/// The status that a failed step leaves.
pub open spec fn spec_fail_status(s: Step, ret: i32) -> RunStatus {
    match s.on_fail {
        OnFail::Return => RunStatus::Failed(spec_code(s.check, ret)),
        OnFail::Abort => RunStatus::Aborted(spec_code(s.check, ret)),
    }
}

proof fn lemma_next_active_bounds(steps: Seq<Step>, pos: int, registered: bool)
    requires
        0 <= pos <= steps.len(),
    ensures
        pos <= spec_next_active(steps, pos, registered) <= steps.len(),
        spec_next_active(steps, pos, registered) < steps.len() ==> spec_active(
            steps[spec_next_active(steps, pos, registered)],
            registered,
        ),
    decreases steps.len() - pos,
{
    if pos < steps.len() && !spec_active(steps[pos], registered) {
        lemma_next_active_bounds(steps, pos + 1, registered);
    }
}

impl Runner {
    /// The position lies in the sequence and there are four handles.
    pub open spec fn wf(&self) -> bool {
        &&& self.pos <= self.steps.len()
        &&& self.handles.len() == 4
    }

    /// A runner at the start of a sequence.
    pub fn new(steps: Vec<Step>) -> (r: Self)
        ensures
            r.wf(),
            r.steps@ == steps@,
            r.pos == 0,
            r.registered == false,
            r.handles@ == seq![0i32, 0i32, 0i32, 0i32],
            r.status == RunStatus::Running,
    {
        let handles: Vec<i32> = vec![0i32, 0i32, 0i32, 0i32];
        assert(handles@ =~= seq![0i32, 0i32, 0i32, 0i32]);
        Runner { steps, pos: 0, registered: false, handles, status: RunStatus::Running }
    }

    /// The next call to make. A finished runner stays as it is and says how
    /// it finished; a running one skips the steps not made and hands out
    /// the next call, or finishes as done when none is left.
    pub fn next(&mut self) -> (a: Action)
        requires
            old(self).wf(),
        ensures
            final(self).wf(),
            final(self).steps@ == old(self).steps@,
            final(self).registered == old(self).registered,
            final(self).handles@ == old(self).handles@,
            old(self).status != RunStatus::Running ==> {
                &&& final(self).pos == old(self).pos
                &&& final(self).status == old(self).status
                &&& a == Action::Finished(old(self).status)
            },
            old(self).status == RunStatus::Running ==> {
                let p = spec_next_active(old(self).steps@, old(self).pos as int, old(self).registered);
                &&& final(self).pos == p
                &&& p < old(self).steps.len() ==> {
                    &&& final(self).status == RunStatus::Running
                    &&& a == Action::Call(old(self).steps@[p].op)
                }
                &&& p >= old(self).steps.len() ==> {
                    &&& final(self).status == RunStatus::Done
                    &&& a == Action::Finished(RunStatus::Done)
                }
            },
    {
        if self.status != RunStatus::Running {
            return Action::Finished(self.status);
        }
        proof {
            lemma_next_active_bounds(self.steps@, self.pos as int, self.registered);
        }
        while self.pos < self.steps.len() && !(self.steps[self.pos].guard == Guard::Always || self.registered)
            invariant
                self.wf(),
                self.steps@ == old(self).steps@,
                self.registered == old(self).registered,
                self.handles@ == old(self).handles@,
                self.status == RunStatus::Running,
                old(self).pos <= self.pos,
                spec_next_active(self.steps@, self.pos as int, self.registered)
                    == spec_next_active(old(self).steps@, old(self).pos as int, old(self).registered),
            decreases self.steps.len() - self.pos,
        {
            self.pos = self.pos + 1;
        }
        if self.pos < self.steps.len() {
            Action::Call(self.steps[self.pos].op)
        } else {
            self.status = RunStatus::Done;
            Action::Finished(RunStatus::Done)
        }
    }

    /// Reports the result of the current call (`registered` is what an
    /// encoder query found; other calls ignore it). A result that fails the
    /// step's check ends the run with the step's error code: the result
    /// itself for a negative-result check, -1 for a non-zero check. Any
    /// other result moves on; a query records `registered`, and creating
    /// region `slot` records the result as that region's handle.
    pub fn report(&mut self, ret: i32, registered: bool)
        requires
            old(self).wf(),
            old(self).status == RunStatus::Running,
            old(self).pos < old(self).steps.len(),
        ensures
            final(self).wf(),
            final(self).steps@ == old(self).steps@,
            ({
                let s = old(self).steps@[old(self).pos as int];
                if spec_fails(s.check, ret) {
                    &&& final(self).status == spec_fail_status(s, ret)
                    &&& final(self).pos == old(self).pos
                    &&& final(self).registered == old(self).registered
                    &&& final(self).handles@ == old(self).handles@
                } else {
                    &&& final(self).status == RunStatus::Running
                    &&& final(self).pos == old(self).pos + 1
                    &&& final(self).registered == (if s.op is EncQuery { registered } else { old(self).registered })
                    &&& final(self).handles@ == (match s.op {
                        Op::OsdCreateRgn(slot) => if slot < 4 {
                            old(self).handles@.update(slot as int, ret)
                        } else {
                            old(self).handles@
                        },
                        _ => old(self).handles@,
                    })
                }
            }),
    {
        let s = self.steps[self.pos];
        let fails = match s.check {
            Check::Negative => ret < 0,
            Check::NonZero => ret != 0,
            Check::Ignore => false,
        };
        if fails {
            let code = match s.check {
                Check::NonZero => -1i32,
                _ => ret,
            };
            self.status = match s.on_fail {
                OnFail::Return => RunStatus::Failed(code),
                OnFail::Abort => RunStatus::Aborted(code),
            };
            return;
        }
        match s.op {
            Op::EncQuery(_) => {
                self.registered = registered;
            },
            Op::OsdCreateRgn(slot) => {
                if slot < 4 {
                    self.handles.set(slot, ret);
                }
            },
            _ => {},
        }
        self.pos = self.pos + 1;
    }

    /// The handle of OSD region `slot`.
    pub fn handle(&self, slot: usize) -> (h: i32)
        requires
            self.wf(),
            slot < 4,
        ensures
            h == self.handles@[slot as int],
    {
        self.handles[slot]
    }
}

/// The outcome of a sequence when each call made in turn returns the next
/// of `outs` (a result and, for queries, whether the channel is
/// registered); `Running` when the results run out first.
pub open spec fn spec_run(steps: Seq<Step>, pos: int, registered: bool, outs: Seq<(i32, bool)>) -> RunStatus
    decreases outs.len(),
{
    let p = spec_next_active(steps, pos, registered);
    if p >= steps.len() || p < 0 {
        RunStatus::Done
    } else if outs.len() == 0 {
        RunStatus::Running
    } else {
        let s = steps[p];
        let (ret, reg) = outs[0];
        if spec_fails(s.check, ret) {
            spec_fail_status(s, ret)
        } else {
            spec_run(
                steps,
                p + 1,
                if s.op is EncQuery { reg } else { registered },
                outs.drop_first(),
            )
        }
    }
}

/// The calls handed out when each call made returns the next of `outs`:
/// in order, up to and including the first that fails, and none once the
/// results run out.
pub open spec fn spec_calls_made(steps: Seq<Step>, pos: int, registered: bool, outs: Seq<(i32, bool)>) -> Seq<Op>
    decreases outs.len(),
{
    let p = spec_next_active(steps, pos, registered);
    if p >= steps.len() || p < 0 || outs.len() == 0 {
        Seq::empty()
    } else {
        let s = steps[p];
        let (ret, reg) = outs[0];
        if spec_fails(s.check, ret) {
            seq![s.op]
        } else {
            seq![s.op] + spec_calls_made(
                steps,
                p + 1,
                if s.op is EncQuery { reg } else { registered },
                outs.drop_first(),
            )
        }
    }
}

/// Every guarded step from `pos` on comes after a query (or the run starts
/// registered), so that it is made when every query finds its channel
/// registered.
pub open spec fn spec_guards_met(steps: Seq<Step>, pos: int, registered: bool) -> bool
    decreases steps.len() - pos,
{
    if pos < 0 || pos >= steps.len() {
        true
    } else {
        &&& spec_active(steps[pos], registered)
        &&& spec_guards_met(steps, pos + 1, if steps[pos].op is EncQuery { true } else { registered })
    }
}

/// When every call's result passes its step's check and every encoder
/// query finds its channel registered, a sequence whose guarded steps are
/// all met makes every one of its calls, in order, and ends done.
pub proof fn lemma_all_pass_run(steps: Seq<Step>, pos: int, registered: bool, outs: Seq<(i32, bool)>)
    requires
        0 <= pos <= steps.len(),
        outs.len() >= steps.len() - pos,
        forall|k: int| 0 <= k < steps.len() - pos ==> !spec_fails(steps[pos + k].check, (#[trigger] outs[k]).0)
            && outs[k].1,
        spec_guards_met(steps, pos, registered),
    ensures
        spec_run(steps, pos, registered, outs) == RunStatus::Done,
        spec_calls_made(steps, pos, registered, outs) == steps.subrange(pos, steps.len() as int).map_values(|s: Step| s.op),
    decreases steps.len() - pos,
{
    if pos == steps.len() {
        assert(steps.subrange(pos, steps.len() as int).map_values(|s: Step| s.op) =~= Seq::<Op>::empty());
    } else {
        let s = steps[pos];
        assert(spec_next_active(steps, pos, registered) == pos);
        assert(!spec_fails(steps[pos + 0].check, outs[0].0) && outs[0].1);
        let reg2 = if s.op is EncQuery { true } else { registered };
        let rest = outs.drop_first();
        assert forall|k: int| 0 <= k < steps.len() - (pos + 1) implies !spec_fails(
            steps[(pos + 1) + k].check,
            (#[trigger] rest[k]).0,
        ) && rest[k].1 by {
            assert(rest[k] == outs[k + 1]);
            assert((pos + 1) + k == pos + (k + 1));
        }
        lemma_all_pass_run(steps, pos + 1, reg2, rest);
        assert(steps.subrange(pos, steps.len() as int).map_values(|s: Step| s.op) =~= seq![s.op]
            + steps.subrange(pos + 1, steps.len() as int).map_values(|s: Step| s.op));
    }
}

/// A sequence in which no call's check can fail ends done once every call
/// made has returned.
pub proof fn lemma_unchecked_run_completes(steps: Seq<Step>, pos: int, registered: bool, outs: Seq<(i32, bool)>)
    requires
        0 <= pos <= steps.len(),
        forall|k: int| 0 <= k < steps.len() ==> (#[trigger] steps[k]).check == Check::Ignore,
        outs.len() >= steps.len() - pos,
    ensures
        spec_run(steps, pos, registered, outs) == RunStatus::Done,
    decreases outs.len(),
{
    lemma_next_active_bounds(steps, pos, registered);
    let p = spec_next_active(steps, pos, registered);
    if p < steps.len() {
        let s = steps[p];
        let reg2 = if s.op is EncQuery { outs[0].1 } else { registered };
        lemma_unchecked_run_completes(steps, p + 1, reg2, outs.drop_first());
    }
}

/// A run that fails returns the code of the call that failed: with the
/// negative-result check, that call's own (negative) result; with the
/// non-zero check, -1.
pub proof fn lemma_failure_code(steps: Seq<Step>, pos: int, registered: bool, outs: Seq<(i32, bool)>)
    requires
        0 <= pos <= steps.len(),
    ensures
        spec_run(steps, pos, registered, outs) matches RunStatus::Failed(c) ==> (c < 0 && (c == -1
            || exists|k: int| 0 <= k < outs.len() && outs[k].0 == c)),
        spec_run(steps, pos, registered, outs) matches RunStatus::Aborted(c) ==> (c < 0 && (c == -1
            || exists|k: int| 0 <= k < outs.len() && outs[k].0 == c)),
    decreases outs.len(),
{
    lemma_next_active_bounds(steps, pos, registered);
    let p = spec_next_active(steps, pos, registered);
    if p < steps.len() && outs.len() > 0 {
        let s = steps[p];
        let (ret, reg) = outs[0];
        if !spec_fails(s.check, ret) {
            let reg2 = if s.op is EncQuery { reg } else { registered };
            lemma_failure_code(steps, p + 1, reg2, outs.drop_first());
            let r = spec_run(steps, p + 1, reg2, outs.drop_first());
            if let RunStatus::Failed(c) = r {
                if c != -1 {
                    let k = choose|k: int| 0 <= k < outs.drop_first().len() && outs.drop_first()[k].0 == c;
                    assert(outs[k + 1].0 == c);
                }
            }
            if let RunStatus::Aborted(c) = r {
                if c != -1 {
                    let k = choose|k: int| 0 <= k < outs.drop_first().len() && outs.drop_first()[k].0 == c;
                    assert(outs[k + 1].0 == c);
                }
            }
        } else {
            assert(outs[0].0 == ret);
        }
    }
}

/// Replays a sequence against recorded results, one per call made, and
/// returns how it ends, appending to `calls` each call handed out: exactly
/// the outcome that `spec_run` gives and the calls that `spec_calls`
/// lists, so a runner driven call by call behaves as those say.
pub fn replay(steps: Vec<Step>, outs: &Vec<(i32, bool)>, calls: &mut Vec<Op>) -> (st: RunStatus)
    ensures
        st == spec_run(steps@, 0, false, outs@),
        final(calls)@ == old(calls)@ + spec_calls_made(steps@, 0, false, outs@),
{
    let ghost all = steps@;
    let ghost c0 = calls@;
    let mut r = Runner::new(steps);
    let mut i: usize = 0;
    assert(outs@.skip(0) =~= outs@);
    assert(c0 =~= c0 + Seq::<Op>::empty());
    loop
        invariant
            r.wf(),
            r.steps@ == all,
            all == steps@,
            c0 == old(calls)@,
            r.status == RunStatus::Running,
            i <= outs.len(),
            spec_run(all, 0, false, outs@) == spec_run(all, r.pos as int, r.registered, outs@.skip(i as int)),
            c0 + spec_calls_made(all, 0, false, outs@) == calls@ + spec_calls_made(
                all,
                r.pos as int,
                r.registered,
                outs@.skip(i as int),
            ),
        decreases outs.len() - i,
    {
        let ghost pos0 = r.pos as int;
        let ghost reg0 = r.registered;
        let ghost rest = outs@.skip(i as int);
        let ghost target = spec_run(all, pos0, reg0, rest);
        let ghost tcalls = spec_calls_made(all, pos0, reg0, rest);
        let ghost before = calls@;
        proof {
            lemma_next_active_bounds(all, pos0, reg0);
        }
        match r.next() {
            Action::Call(op) => {
                let ghost p = r.pos as int;
                proof {
                    lemma_next_active_bounds(all, p, reg0);
                }
                if i >= outs.len() {
                    assert(rest.len() == 0);
                    assert(target == RunStatus::Running);
                    assert(tcalls =~= Seq::<Op>::empty());
                    assert(calls@ =~= c0 + spec_calls_made(all, 0, false, outs@));
                    return RunStatus::Running;
                }
                let (ret, reg) = outs[i];
                assert(outs@.skip(i as int)[0] == outs@[i as int]);
                assert(outs@.skip(i as int).drop_first() =~= outs@.skip(i + 1));
                calls.push(op);
                r.report(ret, reg);
                i = i + 1;
                if r.status != RunStatus::Running {
                    assert(target == r.status);
                    assert(tcalls == seq![op]);
                    assert(calls@ =~= before + tcalls);
                    assert(calls@ =~= c0 + spec_calls_made(all, 0, false, outs@));
                    return r.status;
                }
                assert(target == spec_run(all, r.pos as int, r.registered, outs@.skip(i as int)));
                assert(tcalls == seq![op] + spec_calls_made(all, r.pos as int, r.registered, outs@.skip(i as int)));
                assert(before + tcalls =~= calls@ + spec_calls_made(all, r.pos as int, r.registered, outs@.skip(i as int)));
            },
            Action::Finished(st) => {
                assert(target == RunStatus::Done);
                assert(tcalls =~= Seq::<Op>::empty());
                assert(calls@ =~= c0 + spec_calls_made(all, 0, false, outs@));
                return st;
            },
        }
    }
}

} // verus!
