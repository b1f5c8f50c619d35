//! Timed-effect sequences: ordered steps of (duration, mutation) driven one
//! tick at a time.
//!
//! A [`ScheduledFunctionStack`] holds a non-empty list of steps and a
//! deadline for the current one. On every tick the host hands it the current
//! time in milliseconds and the live input snapshot; while the deadline has
//! not passed, the current step's mutation is applied, and once it has, the
//! sequence advances. Each new deadline is anchored to the previous deadline
//! rather than to the tick's own time, so irregular ticks do not accumulate
//! drift. On the tick that advances past a step no mutation fires; once the
//! last step expires the sequence is finished and every later poll is a
//! no-op.

use vstd::prelude::*;

use crate::mutable_xinput_state::MutableXInputState;
use crate::mutation::Mutation;
use crate::mutation::apply_mutation;

verus! {

/// One timed step: a mutation applied on every tick for `duration`
/// milliseconds.
#[derive(Clone, Copy, Debug, PartialEq, Eq, Structural)]
pub struct ScheduledFunction {
    /// How long the step stays current, in milliseconds.
    pub duration: u64,
    /// The rewrite applied on each tick while the step is current.
    pub mutation: Mutation,
}

impl ScheduledFunction {
    pub fn new(duration: u64, mutation: Mutation) -> (r: Self)
        ensures
            r == (ScheduledFunction { duration, mutation }),
    {
        ScheduledFunction { duration, mutation }
    }
}

/// Whether a sequence is still running, and if so when its current step ends.
#[derive(Clone, Copy, Debug, PartialEq, Eq, Structural)]
pub enum ScheduledFunctionState {
    /// The sequence is live; its current step expires at `next_end`
    /// (milliseconds on the host's clock).
    Ongoing { next_end: u64 },
    /// Every step has expired; polling is a no-op forever after.
    Completed,
}

/// The mathematical model of a sequence: its status and remaining steps.
#[verifier::ext_equal]
pub ghost struct StackModel {
    pub state: ScheduledFunctionState,
    pub functions: Seq<ScheduledFunction>,
}

/// The sum of the durations of `functions`, in milliseconds.
pub open spec fn total_duration(functions: Seq<ScheduledFunction>) -> int
    decreases functions.len(),
{
    if functions.len() == 0 {
        0
    } else {
        functions[0].duration + total_duration(functions.drop_first())
    }
}

/// Well-formedness of a sequence: while ongoing it has a current step, and
/// the whole remaining schedule fits in the clock's range, so that extending
/// a deadline never overflows.
pub open spec fn stack_wf(m: StackModel) -> bool {
    m.state matches ScheduledFunctionState::Ongoing { next_end } ==> {
        &&& m.functions.len() > 0
        &&& next_end + total_duration(m.functions.drop_first()) <= u64::MAX
    }
}

/// The model after one poll at time `now`: unchanged while the current step's
/// deadline lies ahead; otherwise the expired step is dropped and the next
/// deadline is anchored to the previous one, or the sequence completes when
/// no step remains.
pub open spec fn polled(m: StackModel, now: u64) -> StackModel {
    match m.state {
        ScheduledFunctionState::Ongoing { next_end } => {
            if now < next_end {
                m
            } else {
                let rest = m.functions.drop_first();
                if rest.len() == 0 {
                    StackModel { state: ScheduledFunctionState::Completed, functions: rest }
                } else {
                    StackModel {
                        state: ScheduledFunctionState::Ongoing {
                            next_end: (next_end + rest[0].duration) as u64,
                        },
                        functions: rest,
                    }
                }
            }
        },
        ScheduledFunctionState::Completed => m,
    }
}

/// The snapshot after one poll at time `now`: the current step's mutation
/// applies only while its deadline lies ahead; an advancing or finished poll
/// leaves the snapshot alone.
pub open spec fn poll_effect(m: StackModel, now: u64, cs: MutableXInputState) -> MutableXInputState {
    match m.state {
        ScheduledFunctionState::Ongoing { next_end } => {
            if now < next_end {
                apply_mutation(m.functions[0].mutation, cs)
            } else {
                cs
            }
        },
        ScheduledFunctionState::Completed => cs,
    }
}

/// The total duration of a step list is never negative.
pub proof fn lemma_total_duration_nonneg(functions: Seq<ScheduledFunction>)
    ensures
        total_duration(functions) >= 0,
    decreases functions.len(),
{
    if functions.len() > 0 {
        lemma_total_duration_nonneg(functions.drop_first());
    }
}

/// A poll preserves well-formedness: the remaining schedule of the polled
/// sequence still fits in the clock's range.
pub proof fn lemma_polled_wf(m: StackModel, now: u64)
    requires
        stack_wf(m),
    ensures
        stack_wf(polled(m, now)),
{
    if m.state matches ScheduledFunctionState::Ongoing { next_end } && now >= next_end {
        let rest = m.functions.drop_first();
        if rest.len() > 0 {
            lemma_total_duration_nonneg(rest.drop_first());
            assert(total_duration(rest) == rest[0].duration + total_duration(rest.drop_first()));
        }
    }
}

/// Terminal state is absorbing: polling a finished sequence changes neither
/// the sequence nor the snapshot, at any time.
pub proof fn lemma_finished_poll_noop(m: StackModel, now: u64, cs: MutableXInputState)
    requires
        m.state is Completed,
    ensures
        polled(m, now) == m,
        polled(m, now).state is Completed,
        poll_effect(m, now, cs) == cs,
{
}

/// A poll that advances past a step applies no mutation on that tick: the
/// snapshot is untouched whenever `now` has reached the deadline.
pub proof fn lemma_advancing_poll_mutates_nothing(m: StackModel, now: u64, cs: MutableXInputState)
    requires
        m.state matches ScheduledFunctionState::Ongoing { next_end } && now >= next_end,
    ensures
        poll_effect(m, now, cs) == cs,
        polled(m, now).functions == m.functions.drop_first(),
{
}

/// An ordered, non-empty list of timed steps plus cursor state, advanced one
/// step per tick once the current step's time budget has elapsed.
#[derive(Debug)]
pub struct ScheduledFunctionStack {
    /// Ongoing with the current step's deadline, or completed.
    pub state: ScheduledFunctionState,
    /// The current step and those not yet begun; the current step is first.
    pub functions: Vec<ScheduledFunction>,
}

impl View for ScheduledFunctionStack {
    type V = StackModel;

    open spec fn view(&self) -> StackModel {
        StackModel { state: self.state, functions: self.functions@ }
    }
}

impl ScheduledFunctionStack {
    /// Builds a live sequence whose first step ends its duration after `now`.
    ///
    /// A sequence must have at least one step: constructing from an empty
    /// list is a precondition violation, never a silently finished sequence.
    /// The schedule as a whole must fit in the clock's range.
    pub fn new(functions: Vec<ScheduledFunction>, now: u64) -> (r: Self)
        requires
            functions@.len() > 0,
            now + total_duration(functions@) <= u64::MAX,
        ensures
            r@.functions == functions@,
            r@.state == (ScheduledFunctionState::Ongoing {
                next_end: (now + functions@[0].duration) as u64,
            }),
            stack_wf(r@),
    {
        proof {
            lemma_total_duration_nonneg(functions@.drop_first());
            assert(total_duration(functions@) == functions@[0].duration + total_duration(
                functions@.drop_first(),
            ));
        }
        let next_end = now + functions[0].duration;
        ScheduledFunctionStack { state: ScheduledFunctionState::Ongoing { next_end }, functions }
    }

    /// Drives the sequence by one tick at time `now`, applying the current
    /// step's mutation to `controller_state` while its deadline lies ahead,
    /// and advancing (without mutating) once it has passed. Returns the
    /// status after the tick; once `Completed` is returned, every further
    /// poll is a no-op.
    pub fn poll(&mut self, now: u64, controller_state: &mut MutableXInputState) -> (r:
        ScheduledFunctionState)
        requires
            stack_wf(old(self)@),
        ensures
            final(self)@ == polled(old(self)@, now),
            stack_wf(final(self)@),
            r == polled(old(self)@, now).state,
            *final(controller_state) == poll_effect(old(self)@, now, *old(controller_state)),
    {
        proof {
            lemma_polled_wf(old(self)@, now);
        }
        match self.state {
            ScheduledFunctionState::Ongoing { next_end } => {
                if now < next_end {
                    let mutation = self.functions[0].mutation;
                    mutation.apply(controller_state);
                    ScheduledFunctionState::Ongoing { next_end }
                } else {
                    self.functions.remove(0);
                    proof {
                        assert(self.functions@ =~= old(self)@.functions.drop_first());
                    }
                    if self.functions.len() == 0 {
                        self.state = ScheduledFunctionState::Completed;
                        proof {
                            assert(self@ =~= polled(old(self)@, now));
                        }
                        ScheduledFunctionState::Completed
                    } else {
                        proof {
                            lemma_total_duration_nonneg(self.functions@.drop_first());
                            assert(total_duration(self.functions@) == self.functions@[0].duration
                                + total_duration(self.functions@.drop_first()));
                        }
                        let next_end = next_end + self.functions[0].duration;
                        self.state = ScheduledFunctionState::Ongoing { next_end };
                        proof {
                            assert(self@ =~= polled(old(self)@, now));
                        }
                        ScheduledFunctionState::Ongoing { next_end }
                    }
                }
            },
            ScheduledFunctionState::Completed => ScheduledFunctionState::Completed,
        }
    }
}

} // verus!
