use input_effects::function_scheduler::ScheduledFunction;
use input_effects::function_scheduler::ScheduledFunctionStack;
use input_effects::function_scheduler::ScheduledFunctionState;
use input_effects::mutable_xinput_state::MutableXInputState;
use input_effects::mutation::Mutation;
use input_effects::mutation::Side;

fn set_left(value: u8) -> Mutation {
    Mutation::SetTrigger { side: Side::Left, value }
}

#[test]
fn fresh_sequence_is_active_with_first_deadline() {
    let steps = vec![ScheduledFunction::new(100, set_left(11)), ScheduledFunction::new(250, set_left(22))];
    let stack = ScheduledFunctionStack::new(steps, 1000);
    assert_eq!(stack.state, ScheduledFunctionState::Ongoing { next_end: 1100 });
    assert_eq!(stack.functions.len(), 2);
}

#[test]
fn two_step_sequence_fires_advances_and_finishes_on_schedule() {
    // Steps of 100 ms each, polled every 10 ms from t = 0: the first
    // mutation fires while t < 100; the tick at t = 100 advances without
    // mutating; the second fires while 100 < t < 200, measured from the
    // unbroken deadline chain; the tick at t = 200 finishes the sequence
    // without mutating.
    let steps = vec![ScheduledFunction::new(100, set_left(11)), ScheduledFunction::new(100, set_left(22))];
    let mut stack = ScheduledFunctionStack::new(steps, 0);
    let mut cs = MutableXInputState::new();

    let mut t: u64 = 0;
    while t <= 300 {
        cs.set_left_trigger(0);
        let status = stack.poll(t, &mut cs);
        if t < 100 {
            assert_eq!(cs.left_trigger(), 11, "first mutation fires at t = {}", t);
            assert_eq!(status, ScheduledFunctionState::Ongoing { next_end: 100 });
        } else if t == 100 {
            assert_eq!(cs.left_trigger(), 0, "no mutation on the advancing tick");
            assert_eq!(status, ScheduledFunctionState::Ongoing { next_end: 200 });
        } else if t < 200 {
            assert_eq!(cs.left_trigger(), 22, "second mutation fires at t = {}", t);
            assert_eq!(status, ScheduledFunctionState::Ongoing { next_end: 200 });
        } else {
            assert_eq!(cs.left_trigger(), 0, "no mutation at or after t = 200");
            assert_eq!(status, ScheduledFunctionState::Completed);
        }
        t += 10;
    }
}

#[test]
fn deadline_at_exact_tick_counts_as_passed() {
    let steps = vec![ScheduledFunction::new(50, set_left(11))];
    let mut stack = ScheduledFunctionStack::new(steps, 0);
    let mut cs = MutableXInputState::new();
    let status = stack.poll(50, &mut cs);
    assert_eq!(status, ScheduledFunctionState::Completed);
    assert_eq!(cs.left_trigger(), 0);
}

#[test]
fn finished_sequence_polls_are_noops_forever() {
    let steps = vec![ScheduledFunction::new(50, set_left(11))];
    let mut stack = ScheduledFunctionStack::new(steps, 0);
    let mut cs = MutableXInputState::new();

    assert_eq!(stack.poll(60, &mut cs), ScheduledFunctionState::Completed);
    assert_eq!(cs.left_trigger(), 0);

    for t in [61u64, 100, 1000, u64::MAX] {
        let status = stack.poll(t, &mut cs);
        assert_eq!(status, ScheduledFunctionState::Completed);
        assert_eq!(cs.left_trigger(), 0);
        assert_eq!(cs.buttons, 0);
        assert_eq!(stack.functions.len(), 0);
    }
}

#[test]
fn deadlines_chain_from_the_previous_deadline_not_the_tick() {
    // Poll late (t = 130, well past the first deadline of 100): the next
    // deadline is still 100 + 150 = 250, anchored to the previous deadline,
    // not 130 + 150.
    let steps = vec![ScheduledFunction::new(100, set_left(11)), ScheduledFunction::new(150, set_left(22))];
    let mut stack = ScheduledFunctionStack::new(steps, 0);
    let mut cs = MutableXInputState::new();

    let status = stack.poll(130, &mut cs);
    assert_eq!(status, ScheduledFunctionState::Ongoing { next_end: 250 });
    assert_eq!(cs.left_trigger(), 0);

    cs.set_left_trigger(0);
    let status = stack.poll(249, &mut cs);
    assert_eq!(status, ScheduledFunctionState::Ongoing { next_end: 250 });
    assert_eq!(cs.left_trigger(), 22);
}
