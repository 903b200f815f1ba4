//! The sampling loop: each iteration reads the sensor, feeds the tracker,
//! and maps the sample's axis signs onto the four on-board indicator LEDs.
//!
//! Fault policy: a failed read — bus failure or device fault alike — skips
//! the iteration's visual update, so the previous output is reproduced, and
//! the loop goes on; a single bad sample never stops the loop and no error
//! escapes an iteration. The loop itself runs indefinitely on the board;
//! here a bounded run drives a given number of iterations, and its caller
//! restarts it at will.

use vstd::prelude::*;

use crate::channel::ChannelEvent;
use crate::channel::after_reply;
use crate::compass::Compass;
use crate::compass::raw_outcome;
use crate::config::SensitivityRange;
use crate::tracker::Tracker;
use crate::tracker::lemma_constant_input_convergence;
use crate::tracker::smooth_iter;
use crate::tracker::smooth_step;
use crate::vector::NormalizedVector;
use crate::vector::abs;
use crate::vector::scale_component_spec;

verus! {

/// The four indicator LEDs, each on or off. The board's layout ties each
/// LED to an axis direction: red points along positive x, green along
/// negative x, orange along positive y, blue along negative y.
#[derive(Clone, Copy, Debug, PartialEq, Eq, Structural)]
pub struct VisualOutput {
    pub red: bool,
    pub green: bool,
    pub orange: bool,
    pub blue: bool,
}

/// The sign mapping: each of the two axes selects exactly one LED of its
/// pair, and zero counts as positive, so the mapping is total over every
/// sign combination.
pub open spec fn led_map_spec(x: int, y: int) -> VisualOutput {
    VisualOutput { red: x >= 0, green: x < 0, orange: y >= 0, blue: y < 0 }
}

/// The tracker's smoothed vector and the current visual output, as one
/// iteration of the loop transforms them.
pub struct LoopState {
    pub smoothed_x: int,
    pub smoothed_y: int,
    pub smoothed_z: int,
    pub output: VisualOutput,
}

/// What one iteration does, given the pending reply script: on a sample,
/// smooth it into the tracker state and map its signs to the LEDs; on
/// anything else, change nothing — the previous output is reproduced.
pub open spec fn step_model(
    state: LoopState,
    replies: Seq<ChannelEvent>,
    range: SensitivityRange,
    num: int,
    den: int,
) -> LoopState {
    if replies.len() == 0 {
        state
    } else {
        match replies[0] {
            ChannelEvent::Sample(rx, ry, rz) => {
                let vx = scale_component_spec(rx as int, range);
                let vy = scale_component_spec(ry as int, range);
                let vz = scale_component_spec(rz as int, range);
                LoopState {
                    smoothed_x: state.smoothed_x + smooth_step(num, den, vx - state.smoothed_x),
                    smoothed_y: state.smoothed_y + smooth_step(num, den, vy - state.smoothed_y),
                    smoothed_z: state.smoothed_z + smooth_step(num, den, vz - state.smoothed_z),
                    output: led_map_spec(vx, vy),
                }
            },
            _ => state,
        }
    }
}

/// The loop state after `steps` iterations over the reply script.
pub open spec fn run_model(
    state: LoopState,
    replies: Seq<ChannelEvent>,
    range: SensitivityRange,
    num: int,
    den: int,
    steps: nat,
) -> LoopState
    decreases steps,
{
    if steps == 0 {
        state
    } else {
        run_model(
            step_model(state, replies, range, num, den),
            after_reply(replies),
            range,
            num,
            den,
            (steps - 1) as nat,
        )
    }
}

/// The reply script left after `steps` iterations, each consuming at most
/// one reply.
pub open spec fn replies_after(replies: Seq<ChannelEvent>, steps: nat) -> Seq<ChannelEvent>
    decreases steps,
{
    if steps == 0 {
        replies
    } else {
        replies_after(after_reply(replies), (steps - 1) as nat)
    }
}

/// The loop state a compass and tracker currently embody, with the given
/// output showing.
pub open spec fn current_state(tracker: Tracker, output: VisualOutput) -> LoopState {
    LoopState {
        smoothed_x: tracker.smoothed.x as int,
        smoothed_y: tracker.smoothed.y as int,
        smoothed_z: tracker.smoothed.z as int,
        output,
    }
}

/// A script that answers every read with the same sample.
pub open spec fn constant_sample_script(rx: i16, ry: i16, rz: i16, len: nat) -> Seq<ChannelEvent> {
    Seq::new(len, |i: int| ChannelEvent::Sample(rx, ry, rz))
}

/// Law: fed from a script that repeats one sample, the loop smooths exactly
/// as the tracker's filter does — after `steps` iterations each smoothed
/// component equals the iterated filter applied to the converted sample,
/// and once an iteration has run, the output shows that sample's signs.
pub proof fn lemma_run_model_constant_sample(
    state: LoopState,
    rx: i16,
    ry: i16,
    rz: i16,
    range: SensitivityRange,
    num: int,
    den: int,
    len: nat,
    steps: nat,
)
    requires
        steps <= len,
    ensures
        ({
            let vx = scale_component_spec(rx as int, range);
            let vy = scale_component_spec(ry as int, range);
            let vz = scale_component_spec(rz as int, range);
            let end = run_model(state, constant_sample_script(rx, ry, rz, len), range, num, den, steps);
            &&& end.smoothed_x == smooth_iter(state.smoothed_x, vx, num, den, steps)
            &&& end.smoothed_y == smooth_iter(state.smoothed_y, vy, num, den, steps)
            &&& end.smoothed_z == smooth_iter(state.smoothed_z, vz, num, den, steps)
            &&& steps > 0 ==> end.output == led_map_spec(vx, vy)
        }),
    decreases steps,
{
    if steps > 0 {
        let script = constant_sample_script(rx, ry, rz, len);
        let stepped = step_model(state, script, range, num, den);
        assert(after_reply(script) =~= constant_sample_script(rx, ry, rz, (len - 1) as nat));
        lemma_run_model_constant_sample(
            stepped,
            rx,
            ry,
            rz,
            range,
            num,
            den,
            (len - 1) as nat,
            (steps - 1) as nat,
        );
        lemma_smooth_iter_shift(state.smoothed_x, scale_component_spec(rx as int, range), num, den, steps);
        lemma_smooth_iter_shift(state.smoothed_y, scale_component_spec(ry as int, range), num, den, steps);
        lemma_smooth_iter_shift(state.smoothed_z, scale_component_spec(rz as int, range), num, den, steps);
        if steps == 1 {
            assert(run_model(stepped, after_reply(script), range, num, den, 0) == stepped);
        }
    }
}

/// Iterating the filter once more at the front is iterating it once more at
/// the back: `steps` iterations from a stepped start equal `steps + 1`
/// iterations from the original start.
proof fn lemma_smooth_iter_shift(start: int, target: int, num: int, den: int, steps: nat)
    requires
        steps > 0,
    ensures
        smooth_iter(start + smooth_step(num, den, target - start), target, num, den, (steps - 1) as nat)
            == smooth_iter(start, target, num, den, steps),
    decreases steps,
{
    let stepped = start + smooth_step(num, den, target - start);
    if steps == 1 {
        assert(smooth_iter(stepped, target, num, den, 0) == stepped);
        assert(smooth_iter(start, target, num, den, 1) == smooth_iter(start, target, num, den, 0)
            + smooth_step(num, den, target - smooth_iter(start, target, num, den, 0)));
    } else {
        lemma_smooth_iter_shift(start, target, num, den, (steps - 1) as nat);
        assert(smooth_iter(stepped, target, num, den, (steps - 1) as nat) == smooth_iter(
            stepped,
            target,
            num,
            den,
            (steps - 2) as nat,
        ) + smooth_step(num, den, target - smooth_iter(stepped, target, num, den, (steps - 2) as nat)));
        assert(smooth_iter(start, target, num, den, steps) == smooth_iter(
            start,
            target,
            num,
            den,
            (steps - 1) as nat,
        ) + smooth_step(num, den, target - smooth_iter(start, target, num, den, (steps - 1) as nat)));
    }
}

/// Law: a constant input vector repeated through the loop converges. For
/// any smoothing factor strictly between zero and one, after at least as
/// many iterations as the largest initial gap, every smoothed component is
/// within `den / num` of the converted sample.
pub proof fn lemma_loop_constant_sample_converges(
    state: LoopState,
    rx: i16,
    ry: i16,
    rz: i16,
    range: SensitivityRange,
    num: int,
    den: int,
    len: nat,
    steps: nat,
)
    requires
        0 < num < den,
        steps <= len,
        steps >= abs(scale_component_spec(rx as int, range) - state.smoothed_x),
        steps >= abs(scale_component_spec(ry as int, range) - state.smoothed_y),
        steps >= abs(scale_component_spec(rz as int, range) - state.smoothed_z),
    ensures
        ({
            let end = run_model(state, constant_sample_script(rx, ry, rz, len), range, num, den, steps);
            &&& abs(scale_component_spec(rx as int, range) - end.smoothed_x) * num < den
            &&& abs(scale_component_spec(ry as int, range) - end.smoothed_y) * num < den
            &&& abs(scale_component_spec(rz as int, range) - end.smoothed_z) * num < den
        }),
{
    lemma_run_model_constant_sample(state, rx, ry, rz, range, num, den, len, steps);
    lemma_constant_input_convergence(
        state.smoothed_x,
        scale_component_spec(rx as int, range),
        num,
        den,
        steps,
    );
    lemma_constant_input_convergence(
        state.smoothed_y,
        scale_component_spec(ry as int, range),
        num,
        den,
        steps,
    );
    lemma_constant_input_convergence(
        state.smoothed_z,
        scale_component_spec(rz as int, range),
        num,
        den,
        steps,
    );
}

/// Map a sample's axis signs to the LEDs. Total and deterministic, and each
/// axis pair is mutually exclusive: exactly one of red and green is lit,
/// and exactly one of orange and blue.
pub fn led_output(sample: &NormalizedVector) -> (output: VisualOutput)
    ensures
        output == led_map_spec(sample.x as int, sample.y as int),
        output.red != output.green,
        output.orange != output.blue,
{
    VisualOutput {
        red: sample.x >= 0,
        green: sample.x < 0,
        orange: sample.y >= 0,
        blue: sample.y < 0,
    }
}

/// One iteration: read and convert a sample; on success feed the tracker
/// and light the LEDs from the sample's signs, on any failure keep the
/// previous output and leave the tracker untouched. Never fails and never
/// changes the configuration: an error is absorbed, not propagated.
pub fn loop_step(compass: &mut Compass, tracker: &mut Tracker, previous: VisualOutput) -> (output:
    VisualOutput)
    requires
        old(tracker).wf(),
    ensures
        final(tracker).wf(),
        final(tracker).alpha_num == old(tracker).alpha_num,
        final(tracker).alpha_den == old(tracker).alpha_den,
        final(tracker).threshold == old(tracker).threshold,
        final(compass).odr() == old(compass).odr(),
        final(compass).range() == old(compass).range(),
        final(compass).write_log() == old(compass).write_log(),
        final(compass).replies() == after_reply(old(compass).replies()),
        current_state(*final(tracker), output) == step_model(
            current_state(*old(tracker), previous),
            old(compass).replies(),
            old(compass).range(),
            old(tracker).alpha_num as int,
            old(tracker).alpha_den as int,
        ),
        raw_outcome(old(compass).replies()) is Err ==> output == previous && *final(tracker)
            == *old(tracker),
{
    match compass.accel_norm() {
        Ok(sample) => {
            tracker.update(&sample);
            led_output(&sample)
        },
        Err(_) => previous,
    }
}

/// Drive `steps` iterations. The run realizes exactly the iterated step
/// model: no read failure escapes, the configuration and the write log are
/// untouched, and whenever a stretch of iterations yields no sample the
/// output showing is still the last one before the stretch.
pub fn run(compass: &mut Compass, tracker: &mut Tracker, previous: VisualOutput, steps: usize) -> (
    output: VisualOutput)
    requires
        old(tracker).wf(),
    ensures
        final(tracker).wf(),
        final(tracker).alpha_num == old(tracker).alpha_num,
        final(tracker).alpha_den == old(tracker).alpha_den,
        final(tracker).threshold == old(tracker).threshold,
        final(compass).odr() == old(compass).odr(),
        final(compass).range() == old(compass).range(),
        final(compass).write_log() == old(compass).write_log(),
        final(compass).replies() == replies_after(old(compass).replies(), steps as nat),
        current_state(*final(tracker), output) == run_model(
            current_state(*old(tracker), previous),
            old(compass).replies(),
            old(compass).range(),
            old(tracker).alpha_num as int,
            old(tracker).alpha_den as int,
            steps as nat,
        ),
    decreases steps,
{
    if steps == 0 {
        previous
    } else {
        let next = loop_step(compass, tracker, previous);
        run(compass, tracker, next, steps - 1)
    }
}

} // verus!
