//! The registry of live timed-effect sequences.
//!
//! The host calls [`SequenceRegistry::poll_all`] once per tick. Every live
//! sequence is polled exactly once, in the registry's iteration order (front
//! to back), against the same snapshot, so when two sequences write the same
//! field the later one in that order wins. Sequences that report completion
//! are reaped after the full pass, so a finishing sequence never disturbs the
//! polling of the others in the same pass.

use vstd::prelude::*;

use crate::function_scheduler::ScheduledFunctionStack;
use crate::function_scheduler::ScheduledFunctionState;
use crate::function_scheduler::StackModel;
use crate::function_scheduler::poll_effect;
use crate::function_scheduler::polled;
use crate::function_scheduler::stack_wf;
use crate::mutable_xinput_state::MutableXInputState;

verus! {

/// The models of a list of sequences, in the same order.
pub open spec fn models(sequences: Seq<ScheduledFunctionStack>) -> Seq<StackModel> {
    sequences.map_values(|s: ScheduledFunctionStack| s@)
}

/// Well-formedness of a registry: every held sequence is well formed.
pub open spec fn registry_wf(ms: Seq<StackModel>) -> bool {
    forall|i: int| 0 <= i < ms.len() ==> stack_wf(ms[i])
}

/// The snapshot after polling every sequence of `ms` once, front to back,
/// threading the snapshot through: the effect of each sequence is applied on
/// top of all the effects before it.
pub open spec fn poll_all_effect(
    ms: Seq<StackModel>,
    now: u64,
    cs: MutableXInputState,
) -> MutableXInputState
    decreases ms.len(),
{
    if ms.len() == 0 {
        cs
    } else {
        poll_effect(ms.last(), now, poll_all_effect(ms.drop_last(), now, cs))
    }
}

/// The sequences left after polling every sequence of `ms` once at `now`:
/// each is the polled form of a sequence of `ms`, those that completed are
/// dropped, and the relative order of the survivors is kept.
pub open spec fn poll_all_survivors(ms: Seq<StackModel>, now: u64) -> Seq<StackModel>
    decreases ms.len(),
{
    if ms.len() == 0 {
        Seq::empty()
    } else {
        let before = poll_all_survivors(ms.drop_last(), now);
        let p = polled(ms.last(), now);
        if p.state is Completed {
            before
        } else {
            before.push(p)
        }
    }
}

/// Polling an empty registry is a safe no-op: no sequence appears and the
/// snapshot is untouched, at any time.
pub proof fn lemma_poll_all_empty_noop(now: u64, cs: MutableXInputState)
    ensures
        poll_all_survivors(Seq::<StackModel>::empty(), now) == Seq::<StackModel>::empty(),
        poll_all_effect(Seq::<StackModel>::empty(), now, cs) == cs,
{
}

/// An unordered collection of live timed-effect sequences, each independently
/// owned; polled as one and purged of finished members after each pass.
#[derive(Debug)]
pub struct SequenceRegistry {
    /// The live sequences, polled front to back.
    pub sequences: Vec<ScheduledFunctionStack>,
}

impl View for SequenceRegistry {
    type V = Seq<StackModel>;

    open spec fn view(&self) -> Seq<StackModel> {
        models(self.sequences@)
    }
}

impl SequenceRegistry {
    /// An empty registry.
    pub fn new() -> (r: Self)
        ensures
            r@ == Seq::<StackModel>::empty(),
    {
        let r = SequenceRegistry { sequences: Vec::new() };
        proof {
            assert(r@ =~= Seq::<StackModel>::empty());
        }
        r
    }

    /// How many sequences are currently live.
    pub fn len(&self) -> (n: usize)
        ensures
            n == self@.len(),
    {
        self.sequences.len()
    }

    /// Inserts one sequence at the back; the registry takes ownership and
    /// will drop it the pass after it reports completion.
    pub fn add(&mut self, sequence: ScheduledFunctionStack)
        ensures
            final(self)@ == old(self)@.push(sequence@),
    {
        self.sequences.push(sequence);
        proof {
            assert(self@ =~= old(self)@.push(sequence@));
        }
    }

    /// Drives every live sequence forward by exactly one tick at time `now`,
    /// front to back against the same snapshot, then reaps the sequences that
    /// reported completion. Polling an empty registry leaves the snapshot
    /// untouched.
    pub fn poll_all(&mut self, now: u64, controller_state: &mut MutableXInputState)
        requires
            registry_wf(old(self)@),
        ensures
            final(self)@ == poll_all_survivors(old(self)@, now),
            registry_wf(final(self)@),
            *final(controller_state) == poll_all_effect(
                old(self)@,
                now,
                *old(controller_state),
            ),
    {
        let ghost orig: Seq<StackModel> = self@;
        let ghost cs0: MutableXInputState = *controller_state;
        let mut survivors: Vec<ScheduledFunctionStack> = Vec::new();
        proof {
            assert(orig.take(0) =~= Seq::<StackModel>::empty());
            assert(models(survivors@) =~= Seq::<StackModel>::empty());
        }
        while self.sequences.len() > 0
            invariant
                models(self.sequences@) == orig.skip(orig.len() - self.sequences@.len()),
                self.sequences@.len() <= orig.len(),
                registry_wf(orig),
                models(survivors@) == poll_all_survivors(
                    orig.take(orig.len() - self.sequences@.len()),
                    now,
                ),
                registry_wf(models(survivors@)),
                *controller_state == poll_all_effect(
                    orig.take(orig.len() - self.sequences@.len()),
                    now,
                    cs0,
                ),
            decreases self.sequences@.len(),
        {
            let ghost i: int = orig.len() - self.sequences@.len();
            let ghost pre: Seq<ScheduledFunctionStack> = self.sequences@;
            proof {
                assert(models(pre)[0] == orig.skip(i)[0]);
                assert(orig.skip(i)[0] == orig[i]);
                assert(stack_wf(orig[i]));
            }
            let mut sequence = self.sequences.remove(0);
            proof {
                assert(sequence@ == models(pre)[0]);
                assert forall|j: int| 0 <= j < self.sequences@.len() implies #[trigger] models(
                    self.sequences@,
                )[j] == orig.skip(i + 1)[j] by {
                    assert(self.sequences@[j] == pre[j + 1]);
                    assert(models(pre)[j + 1] == pre[j + 1]@);
                    assert(orig.skip(i)[j + 1] == orig[i + 1 + j]);
                    assert(orig.skip(i + 1)[j] == orig[i + 1 + j]);
                }
                assert(models(self.sequences@) =~= orig.skip(i + 1));
            }
            let status = sequence.poll(now, controller_state);
            proof {
                assert(orig.take(i + 1).drop_last() =~= orig.take(i));
                assert(orig.take(i + 1).last() == orig[i]);
            }
            match status {
                ScheduledFunctionState::Completed => {},
                ScheduledFunctionState::Ongoing { .. } => {
                    survivors.push(sequence);
                    proof {
                        assert(models(survivors@) =~= poll_all_survivors(orig.take(i + 1), now));
                    }
                },
            }
        }
        proof {
            assert(orig.take(orig.len() - self.sequences@.len()) =~= orig);
        }
        self.sequences = survivors;
    }
}

} // verus!
