//! Executing commands through one uniform interface, with the suspended
//! state of each execution stored inline in its adapter.
use vstd::prelude::*;

use crate::Error;

verus! {

/// The outcome of advancing a suspended execution once.
#[derive(Debug, Clone, Copy, PartialEq, Eq)]
pub enum Step {
    /// The execution suspended again and must be advanced later.
    Pending,
    /// The execution finished with this result.
    Done(Result<(), Error>),
}

/// A command's execution, written as a computation that may suspend.
pub trait CommandExecutor: Sized {
    /// The suspended state of one execution.
    type Task;

    /// Whether starting an execution of `self` may leave the executor as
    /// `new_self` with `task` as the suspended state. An executor that
    /// describes nothing keeps this default, which allows every outcome.
    open spec fn started(&self, new_self: Self, task: Self::Task) -> bool {
        true
    }

    /// Whether advancing `task` once on `self` may leave the executor as
    /// `new_self`, the task as `new_task`, and report `r`. The default allows
    /// every outcome.
    open spec fn resumed(&self, task: Self::Task, new_self: Self, new_task: Self::Task, r: Step) -> bool {
        true
    }

    /// Starts an execution and returns its suspended state.
    fn execute(&mut self) -> (t: Self::Task)
        ensures
            old(self).started(*final(self), t),
    ;

    /// Advances `task` until it finishes or suspends again.
    fn resume(&mut self, task: &mut Self::Task) -> (r: Step)
        ensures
            old(self).resumed(*old(task), *final(self), *final(task), r),
    ;
}

/// An executor whose execution state lives in itself, so that callers can
/// drive it without knowing its concrete type.
pub trait InlineCommandExecutor {
    /// Whether an execution is in flight.
    spec fn in_flight(&self) -> bool;

    /// How many executions have been started.
    spec fn started_count(&self) -> nat;

    /// The step that the latest poll reported, if there was one since the
    /// latest start.
    spec fn last_step(&self) -> Option<Step>;

    /// Whether advancing the execution in flight may report `steps`, one per
    /// poll, in order.
    spec fn may_continue(&self, steps: Seq<Step>) -> bool;

    /// Whether a fresh execution, started now, may report `steps`, one per
    /// poll, in order.
    spec fn may_start(&self, steps: Seq<Step>) -> bool;

    /// Whether an execution is in flight.
    fn is_in_flight(&self) -> (r: bool)
        ensures
            r == self.in_flight(),
    ;

    /// Starts an execution. Only one may be in flight at a time.
    fn begin_execute(&mut self)
        requires
            !old(self).in_flight(),
        ensures
            final(self).in_flight(),
            final(self).started_count() == old(self).started_count() + 1,
            final(self).last_step() is None,
            forall|steps: Seq<Step>| #[trigger] final(self).may_continue(steps) ==> old(self).may_start(steps),
            old(self).may_start(Seq::empty()),
    ;

    /// Advances the execution in flight once; when it finishes, the executor
    /// is idle again.
    fn poll_execute(&mut self) -> (r: Step)
        requires
            old(self).in_flight(),
        ensures
            r is Done <==> !final(self).in_flight(),
            final(self).started_count() == old(self).started_count(),
            final(self).last_step() == Some(r),
            old(self).may_continue(seq![r]),
            forall|steps: Seq<Step>| #[trigger] final(self).may_continue(steps) ==> old(self).may_continue(seq![r] + steps),
    ;
}

/// The uniform entry point over whichever adapter it borrows. With the
/// default parameter every adapter, whatever it wraps, is driven through
/// this one type.
pub struct InlineDynCommandExecutor<'a, E: InlineCommandExecutor + ?Sized = dyn InlineCommandExecutor + 'a> {
    obj: &'a mut E,
}

impl<'a, E: InlineCommandExecutor + ?Sized> InlineDynCommandExecutor<'a, E> {
    /// The borrowed adapter.
    pub closed spec fn adapter(&self) -> &E {
        &*self.obj
    }

    /// The entry point over `obj`.
    pub fn new(obj: &'a mut E) -> (r: Self)
        ensures
            r.adapter() == &*old(obj),
    {
        InlineDynCommandExecutor { obj }
    }

    /// Whether the borrowed adapter has an execution in flight.
    pub open spec fn in_flight(&self) -> bool {
        self.adapter().in_flight()
    }

    /// Whether the borrowed adapter has an execution in flight.
    pub fn is_in_flight(&self) -> (r: bool)
        ensures
            r == self.in_flight(),
    {
        self.obj.is_in_flight()
    }

    /// Starts an execution of the borrowed adapter.
    pub fn execute(&mut self)
        requires
            !old(self).in_flight(),
        ensures
            final(self).in_flight(),
            final(self).adapter().started_count() == old(self).adapter().started_count() + 1,
            final(self).adapter().last_step() is None,
            forall|steps: Seq<Step>| #[trigger] final(self).adapter().may_continue(steps) ==> old(self).adapter().may_start(steps),
            old(self).adapter().may_start(Seq::empty()),
    {
        self.obj.begin_execute();
    }

    /// Advances the execution in flight once.
    pub fn poll(&mut self) -> (r: Step)
        requires
            old(self).in_flight(),
        ensures
            r is Done <==> !final(self).in_flight(),
            final(self).adapter().started_count() == old(self).adapter().started_count(),
            final(self).adapter().last_step() == Some(r),
            old(self).adapter().may_continue(seq![r]),
            forall|steps: Seq<Step>| #[trigger] final(self).adapter().may_continue(steps)
                ==> old(self).adapter().may_continue(seq![r] + steps),
    {
        self.obj.poll_execute()
    }

    /// Starts one execution and advances it at most `max_polls` times, until
    /// it finishes: its result if it finished, else `None` with the execution
    /// still in flight after `max_polls` pending steps. The steps it saw are
    /// ones that a fresh execution of the adapter may report.
    pub fn run(&mut self, max_polls: usize) -> (r: Option<Result<(), Error>>)
        requires
            !old(self).in_flight(),
        ensures
            r is Some <==> !final(self).in_flight(),
            final(self).adapter().started_count() == old(self).adapter().started_count() + 1,
            match r {
                Some(res) => final(self).adapter().last_step() == Some(Step::Done(res)),
                None => max_polls == 0 || final(self).adapter().last_step() == Some(Step::Pending),
            },
            exists|steps: Seq<Step>|
                {
                    &&& #[trigger] old(self).adapter().may_start(steps)
                    &&& steps.len() <= max_polls
                    &&& forall|i: int| 0 <= i < steps.len() - 1 ==> (#[trigger] steps[i]) is Pending
                    &&& match r {
                        Some(res) => steps.len() > 0 && steps.last() == Step::Done(res),
                        None => steps.len() == max_polls && (steps.len() == 0 || steps.last() is Pending),
                    }
                },
    {
        let ghost start: &E = self.adapter();
        self.execute();
        let ghost mut steps: Seq<Step> = Seq::empty();
        let mut n: usize = 0;
        let mut result: Option<Result<(), Error>> = None;
        while n < max_polls && result.is_none()
            invariant
                n <= max_polls,
                steps.len() == n,
                self.adapter().started_count() == start.started_count() + 1,
                forall|rest: Seq<Step>| #[trigger] self.adapter().may_continue(rest) ==> start.may_start(steps + rest),
                start.may_start(steps),
                forall|i: int| 0 <= i < steps.len() - 1 ==> (#[trigger] steps[i]) is Pending,
                match result {
                    Some(res) => steps.len() > 0 && steps.last() == Step::Done(res)
                        && self.adapter().last_step() == Some(Step::Done(res)) && !self.in_flight(),
                    None => self.in_flight() && (n == 0 || (steps.last() is Pending
                        && self.adapter().last_step() == Some(Step::Pending))),
                },
            decreases max_polls - n,
        {
            let ghost prev_steps = steps;
            let r = self.poll();
            proof {
                steps = steps.push(r);
                assert forall|rest: Seq<Step>| #[trigger] self.adapter().may_continue(rest) implies start.may_start(
                    steps + rest,
                ) by {
                    assert(prev_steps + (seq![r] + rest) =~= steps + rest);
                }
                assert(prev_steps + seq![r] =~= steps);
            }
            if let Step::Done(res) = r {
                result = Some(res);
            }
            n = n + 1;
        }
        result
    }
}

/// Whether advancing the suspended execution `slot` of `exec` may report
/// `steps`, one per poll, in order: each is what the executor's `resume`
/// may report, a pending task stays for the next poll, and a finished one is
/// gone.
pub open spec fn executor_may_report<I: CommandExecutor>(exec: I, slot: Option<I::Task>, steps: Seq<Step>) -> bool
    decreases steps.len(),
{
    if steps.len() == 0 {
        true
    } else {
        &&& slot is Some
        &&& exists|n: I, t: I::Task|
            #[trigger] exec.resumed(slot->Some_0, n, t, steps[0]) && executor_may_report(
                n,
                if steps[0] is Pending {
                    Some(t)
                } else {
                    None::<I::Task>
                },
                steps.drop_first(),
            )
    }
}

/// Wraps a concrete executor together with the slot for its suspended state.
pub struct InlineCommandExecutorImpl<I: CommandExecutor> {
    inner_impl: I,
    execute_future: Option<I::Task>,
    runs: Ghost<nat>,
    last: Ghost<Option<Step>>,
}

impl<I: CommandExecutor> InlineCommandExecutorImpl<I> {
    /// The wrapped executor.
    pub closed spec fn inner(&self) -> I {
        self.inner_impl
    }

    /// The suspended execution in the slot, if any.
    pub closed spec fn slot(&self) -> Option<I::Task> {
        self.execute_future
    }

    /// The wrapped executor.
    pub fn executor(&self) -> (r: &I)
        ensures
            *r == self.inner(),
    {
        &self.inner_impl
    }

    /// An idle adapter around `inner_impl`.
    pub fn new(inner_impl: I) -> (r: Self)
        ensures
            r.inner() == inner_impl,
            r.slot() is None,
            r.started_count() == 0,
            r.last_step() is None,
    {
        InlineCommandExecutorImpl { inner_impl, execute_future: None, runs: Ghost(0), last: Ghost(None) }
    }

    /// Starts an execution of the wrapped executor and keeps its suspended
    /// state in the slot, which must be empty.
    pub fn start(&mut self)
        requires
            old(self).slot() is None,
        ensures
            old(self).inner().started(final(self).inner(), final(self).slot()->Some_0),
            final(self).slot() is Some,
            final(self).started_count() == old(self).started_count() + 1,
            final(self).last_step() is None,
    {
        let task = self.inner_impl.execute();
        self.execute_future = Some(task);
        self.runs = Ghost(self.runs@ + 1);
        self.last = Ghost(None);
    }

    /// Advances the suspended execution in the slot once with the wrapped
    /// executor: the task stays in the slot while pending and is dropped when
    /// done.
    pub fn step(&mut self) -> (r: Step)
        requires
            old(self).slot() is Some,
        ensures
            exists|t: I::Task|
                #[trigger] old(self).inner().resumed(old(self).slot()->Some_0, final(self).inner(), t, r)
                    && final(self).slot() == (if r is Pending {
                    Some(t)
                } else {
                    None::<I::Task>
                }),
            final(self).started_count() == old(self).started_count(),
            final(self).last_step() == Some(r),
    {
        let ghost before = *self;
        let mut task = self.execute_future.take().unwrap();
        let r = self.inner_impl.resume(&mut task);
        match r {
            Step::Pending => {
                self.execute_future = Some(task);
            },
            Step::Done(_) => {},
        }
        self.last = Ghost(Some(r));
        assert(before.inner().resumed(before.slot()->Some_0, self.inner(), task, r));
        r
    }
}

impl<I: CommandExecutor> InlineCommandExecutor for InlineCommandExecutorImpl<I> {
    open spec fn in_flight(&self) -> bool {
        self.slot() is Some
    }

    closed spec fn started_count(&self) -> nat {
        self.runs@
    }

    closed spec fn last_step(&self) -> Option<Step> {
        self.last@
    }

    open spec fn may_continue(&self, steps: Seq<Step>) -> bool {
        executor_may_report(self.inner(), self.slot(), steps)
    }

    open spec fn may_start(&self, steps: Seq<Step>) -> bool {
        exists|n: I, t: I::Task| #[trigger] self.inner().started(n, t) && executor_may_report(n, Some(t), steps)
    }

    fn is_in_flight(&self) -> (r: bool) {
        self.execute_future.is_some()
    }

    fn begin_execute(&mut self) {
        let ghost before = *self;
        self.start();
        assert forall|steps: Seq<Step>| #[trigger] self.may_continue(steps) implies before.may_start(steps) by {
            assert(before.inner().started(self.inner(), self.slot()->Some_0));
        }
        assert(before.inner().started(self.inner(), self.slot()->Some_0));
        assert(executor_may_report(self.inner(), self.slot(), Seq::<Step>::empty()));
    }

    fn poll_execute(&mut self) -> (r: Step) {
        let ghost before = *self;
        let r = self.step();
        let ghost t = choose|t: I::Task|
            #[trigger] before.inner().resumed(before.slot()->Some_0, self.inner(), t, r) && self.slot() == (
            if r is Pending {
                Some(t)
            } else {
                None::<I::Task>
            });
        assert forall|steps: Seq<Step>| #[trigger] self.may_continue(steps) implies before.may_continue(
            seq![r] + steps,
        ) by {
            let all = seq![r] + steps;
            assert(all[0] == r);
            assert(all.drop_first() =~= steps);
            assert(before.inner().resumed(before.slot()->Some_0, self.inner(), t, all[0]));
        }
        assert(self.may_continue(Seq::<Step>::empty()));
        assert(seq![r] + Seq::<Step>::empty() =~= seq![r]);
        r
    }
}

} // verus!
