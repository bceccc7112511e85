//! The guarantees the scheduler gives over whole runs of ticks.
//!
//! [`run_ticks`] iterates the sequencer's transition over polls that
//! returned nothing; the lemmas here state what an uninterrupted wait,
//! a preempting mode, and the connection signal each do.

use crate::mode::Mode;
use crate::sequencer::{
    fresh_model, is_switch, model_color, model_step, model_wf, next_model, next_step_index,
    spec_response, Response, Rgb, SequencerModel, TICK_MS,
};
use crate::sequences::{lemma_catalog_wf, spec_sequence_for};
use vstd::prelude::*;

verus! {

/// The state after `k` ticks whose polls all returned nothing.
pub open spec fn run_ticks(m: SequencerModel, k: nat) -> SequencerModel
    decreases k,
{
    if k == 0 {
        m
    } else {
        next_model(run_ticks(m, (k - 1) as nat), None)
    }
}

/// Running `a + b` quiet ticks is running `a`, then `b` more.
pub proof fn lemma_run_ticks_add(m: SequencerModel, a: nat, b: nat)
    ensures
        run_ticks(m, a + b) == run_ticks(run_ticks(m, a), b),
    decreases b,
{
    if b > 0 {
        lemma_run_ticks_add(m, a, (b - 1) as nat);
    }
}

/// A quiet tick preserves well-formedness.
pub proof fn lemma_tick_wf(m: SequencerModel, received: Option<Mode>)
    requires
        model_wf(m),
        is_switch(received) ==> received->0 != Mode::Connected,
    ensures
        model_wf(next_model(m, received)),
{
    if is_switch(received) {
        lemma_catalog_wf(received->0, 0);
    } else {
        lemma_catalog_wf(m.mode, m.step);
        if m.waited + TICK_MS >= model_step(m).duration {
            lemma_catalog_wf(m.mode, next_step_index(m));
        }
    }
}

/// While a step's wait is running, polls that return nothing change
/// nothing observable: starting a step, the first `k` ticks leave the
/// sequencer in the same step having waited `k` ticks, and none of
/// their responses carries an output or a subscribe.
pub proof fn lemma_quiet_run(m: SequencerModel, k: nat)
    requires
        model_wf(m),
        m.waited == 0,
        k * (TICK_MS as int) < model_step(m).duration,
    ensures
        model_wf(run_ticks(m, k)),
        run_ticks(m, k) == (SequencerModel {
            mode: m.mode,
            step: m.step,
            waited: k * (TICK_MS as int),
        }),
        forall|j: nat|
            j < k ==> #[trigger] spec_response(run_ticks(m, j), None) == (Response {
                set: None,
                subscribe: false,
            }),
    decreases k,
{
    if k > 0 {
        lemma_quiet_run(m, (k - 1) as nat);
        assert((k - 1) * (TICK_MS as int) == k * (TICK_MS as int) - (TICK_MS as int));
    }
}

/// An uninterrupted wait plays a step out exactly: counting ticks from
/// the step's start, every poll before the duration is reached emits
/// nothing, the poll that reaches it emits the next step's output
/// exactly once, and the sequencer enters that step with its wait
/// fresh. Steps follow in fixed order, wrapping from the last back to
/// the first, so a sequence left alone replays indefinitely.
pub proof fn lemma_step_replay(m: SequencerModel)
    requires
        model_wf(m),
        m.waited == 0,
    ensures
        ({
            let n = (model_step(m).duration as int) / (TICK_MS as int);
            let entered = SequencerModel { mode: m.mode, step: next_step_index(m), waited: 0 };
            &&& run_ticks(m, n as nat) == entered
            &&& model_wf(entered)
            &&& spec_response(run_ticks(m, (n - 1) as nat), None) == (Response {
                set: Some(model_color(entered)),
                subscribe: false,
            })
            &&& forall|j: nat|
                j < n - 1 ==> #[trigger] spec_response(run_ticks(m, j), None) == (Response {
                    set: None,
                    subscribe: false,
                })
        }),
{
    lemma_catalog_wf(m.mode, m.step);
    let d = model_step(m).duration as int;
    let n = d / (TICK_MS as int);
    assert(n * (TICK_MS as int) == d);
    lemma_quiet_run(m, (n - 1) as nat);
    assert((n - 1) * (TICK_MS as int) == n * (TICK_MS as int) - (TICK_MS as int));
    let last = run_ticks(m, (n - 1) as nat);
    assert(last.waited + TICK_MS >= d);
    lemma_tick_wf(last, None);
    assert(run_ticks(m, n as nat) == next_model(last, None));
}

/// A mode arriving mid-step preempts playback at once: the response to
/// the very poll that saw it applies the new sequence's first output,
/// exactly once, and the state is replaced wholesale with the start of
/// the new sequence — the abandoned step's output is never re-applied,
/// since every later poll answers for the new sequence alone, emitting
/// nothing further until its own first wait runs out.
pub proof fn lemma_preemption(m: SequencerModel, md: Mode)
    requires
        model_wf(m),
        md != Mode::Connected,
    ensures
        next_model(m, Some(md)) == fresh_model(md),
        model_wf(fresh_model(md)),
        spec_response(m, Some(md)) == (Response {
            set: Some(model_color(fresh_model(md))),
            subscribe: false,
        }),
        forall|j: nat|
            (j + 1) * (TICK_MS as int) < spec_sequence_for(md)[0].duration
                ==> #[trigger] spec_response(run_ticks(fresh_model(md), j), None) == (Response {
                set: None,
                subscribe: false,
            }),
{
    lemma_catalog_wf(md, 0);
    assert forall|j: nat|
        (j + 1) * (TICK_MS as int) < spec_sequence_for(md)[0].duration implies #[trigger] spec_response(
        run_ticks(fresh_model(md), j),
        None,
    ) == (Response { set: None, subscribe: false }) by {
        lemma_quiet_run(fresh_model(md), j + 1);
    }
}

/// The red mode selected: the output (true, false, false) is applied
/// exactly once, before the first wait tick, and no other output
/// follows until 1000 ms have elapsed or a new mode arrives.
pub proof fn lemma_red_applies_once(m: SequencerModel)
    requires
        model_wf(m),
    ensures
        next_model(m, Some(Mode::Red)) == fresh_model(Mode::Red),
        spec_response(m, Some(Mode::Red)) == (Response {
            set: Some(Rgb { red: true, green: false, blue: false }),
            subscribe: false,
        }),
        forall|j: nat|
            (j + 1) * (TICK_MS as int) < 1000 ==> #[trigger] spec_response(
                run_ticks(fresh_model(Mode::Red), j),
                None,
            ) == (Response { set: None, subscribe: false }),
{
    lemma_preemption(m, Mode::Red);
}

/// The connection signal, received at any point mid-step, triggers
/// exactly one subscribe and nothing else: the step's timing and
/// output are exactly as if the poll had returned nothing.
pub proof fn lemma_connected_only_subscribes(m: SequencerModel)
    requires
        model_wf(m),
    ensures
        next_model(m, Some(Mode::Connected)) == next_model(m, None),
        spec_response(m, Some(Mode::Connected)).set == spec_response(m, None).set,
        spec_response(m, Some(Mode::Connected)).subscribe == true,
        spec_response(m, None).subscribe == false,
{
}

/// One uninterrupted round of the cycle sequence, from its start:
/// exactly four outputs, at the four step boundaries, in fixed order —
/// red for 3000 ms, yellow for 1000 ms, green for 3000 ms, yellow for
/// 1000 ms — and the round ends back at the start of the cycle.
pub proof fn lemma_cycle_round()
    ensures
        run_ticks(fresh_model(Mode::Cycle), 300) == (SequencerModel {
            mode: Mode::Cycle,
            step: 1,
            waited: 0,
        }),
        spec_response(run_ticks(fresh_model(Mode::Cycle), 299), None).set == Some(
            Rgb { red: true, green: true, blue: false },
        ),
        run_ticks(fresh_model(Mode::Cycle), 400) == (SequencerModel {
            mode: Mode::Cycle,
            step: 2,
            waited: 0,
        }),
        spec_response(run_ticks(fresh_model(Mode::Cycle), 399), None).set == Some(
            Rgb { red: false, green: true, blue: false },
        ),
        run_ticks(fresh_model(Mode::Cycle), 700) == (SequencerModel {
            mode: Mode::Cycle,
            step: 3,
            waited: 0,
        }),
        spec_response(run_ticks(fresh_model(Mode::Cycle), 699), None).set == Some(
            Rgb { red: true, green: true, blue: false },
        ),
        run_ticks(fresh_model(Mode::Cycle), 800) == fresh_model(Mode::Cycle),
        spec_response(run_ticks(fresh_model(Mode::Cycle), 799), None).set == Some(
            Rgb { red: true, green: false, blue: false },
        ),
{
    let m0 = fresh_model(Mode::Cycle);
    lemma_step_replay(m0);
    let m1 = run_ticks(m0, 300);
    lemma_step_replay(m1);
    lemma_run_ticks_add(m0, 300, 100);
    lemma_run_ticks_add(m0, 300, 99);
    let m2 = run_ticks(m0, 400);
    lemma_step_replay(m2);
    lemma_run_ticks_add(m0, 400, 300);
    lemma_run_ticks_add(m0, 400, 299);
    let m3 = run_ticks(m0, 700);
    lemma_step_replay(m3);
    lemma_run_ticks_add(m0, 700, 100);
    lemma_run_ticks_add(m0, 700, 99);
}

/// Left alone, the cycle replays its four steps in fixed order
/// indefinitely: after any whole number of 800-tick rounds the
/// sequencer is back at the start of the cycle sequence.
pub proof fn lemma_cycle_replays_indefinitely(k: nat)
    ensures
        run_ticks(fresh_model(Mode::Cycle), k * 800) == fresh_model(Mode::Cycle),
    decreases k,
{
    if k > 0 {
        lemma_cycle_replays_indefinitely((k - 1) as nat);
        assert((k - 1) * 800 == k * 800 - 800);
        lemma_run_ticks_add(fresh_model(Mode::Cycle), ((k - 1) * 800) as nat, 800);
        lemma_cycle_round();
    }
}

} // verus!
