//! The sequence task: the fixed macro sequence, repeated while the run flag
//! stays up, and the clean-up that ends every task.
//!
//! The task is a state machine. Its caller reads the run flag and the clock,
//! asks for the next action with `step`, performs it, and comes back. Where
//! the action is `Snapshot`, the caller hands over a fresh copy of the
//! configuration with `load`.

use vstd::prelude::*;

use crate::config::{SharedConfig, NANOS_PER_MILLI};
use crate::plan::{
    held_after, inputs_of, lemma_plan_parts, plan_of, Action, Input, Inputs, Plan,
};

verus! {

/// The number of actions in the scripted part of the sequence, which runs
/// from the first jump tap to the second emote tap.
pub const SCRIPT_LEN: u8 = 19;

/// Where a task stands: what its next step does.
#[derive(Clone, Copy, Debug, PartialEq, Eq, Structural)]
pub enum Phase {
    /// At the top of the loop: another run of the sequence if the run flag is
    /// up, the clean-up if it is not.
    Top,
    /// A copy of the configuration was asked for, to run the sequence on.
    AwaitPlan,
    /// In the script, with this many of its actions done. With all of them
    /// done, the rapid-fire stage begins.
    Script(u8),
    /// In a click of the rapid-fire stage, the button is down.
    FireUp,
    /// After a click of the rapid-fire stage.
    ClickWait,
    /// After the wait that follows a click: the stage goes on or ends.
    ClickCheck,
    /// After the delay that ends a sequence.
    LoopWait,
    /// A copy of the configuration was asked for, to clean up by.
    AwaitCleanup,
    /// In the clean-up, with this many of its four releases done.
    Release(u8),
    /// Over.
    Done,
}

/// One task: the loop that repeats the sequence, and its clean-up.
#[derive(Clone, Copy, Debug, PartialEq, Eq, Structural)]
pub struct ContagionTask {
    pub phase: Phase,
    /// What the task read of the configuration it was last handed.
    pub plan: Plan,
    /// The clock reading at which the rapid-fire stage began, in nanoseconds.
    pub burst_start: u128,
}

/// What the caller of a task sees at one turn of its loop.
pub struct Turn {
    /// The run flag.
    pub running: bool,
    /// The clock, in nanoseconds.
    pub now: u128,
    /// The shared configuration, as a copy of it would read.
    pub config: SharedConfig,
}

/// The script of the sequence: two jump taps; the aim button held while the
/// melee key is tapped; the wait before the emote taps; two emote taps.
#[verifier::opaque]
pub open spec fn script(plan: Plan) -> Seq<Action> {
    seq![
        Action::KeyDown(plan.inputs.keys.jump),
        Action::Wait(plan.durations.double_jump),
        Action::KeyUp(plan.inputs.keys.jump),
        Action::KeyDown(plan.inputs.keys.jump),
        Action::Wait(plan.durations.double_jump),
        Action::KeyUp(plan.inputs.keys.jump),
        Action::ButtonDown(plan.inputs.aim),
        Action::Wait(plan.durations.aim_melee),
        Action::KeyDown(plan.inputs.keys.melee),
        Action::Wait(plan.durations.melee_hold),
        Action::KeyUp(plan.inputs.keys.melee),
        Action::ButtonUp(plan.inputs.aim),
        Action::Wait(plan.durations.emote_preparation),
        Action::KeyDown(plan.inputs.keys.emote),
        Action::Wait(plan.durations.double_jump),
        Action::KeyUp(plan.inputs.keys.emote),
        Action::KeyDown(plan.inputs.keys.emote),
        Action::Wait(plan.durations.double_jump),
        Action::KeyUp(plan.inputs.keys.emote),
    ]
}

/// Whether a stage of the script begins with the action of this index: the
/// jump taps, the aim and melee stage, the wait before the emote taps, the
/// emote taps. A stage begins only while the run flag is up.
pub open spec fn opens_stage(index: u8) -> bool {
    index == 0 || index == 6 || index == 12 || index == 13
}

/// The releases of the clean-up: the melee key, the emote key, the aim
/// button, the fire button.
#[verifier::opaque]
pub open spec fn releases(inputs: Inputs) -> Seq<Action> {
    seq![
        Action::KeyUp(inputs.keys.melee),
        Action::KeyUp(inputs.keys.emote),
        Action::ButtonUp(inputs.aim),
        Action::ButtonUp(inputs.fire),
    ]
}

/// The whole milliseconds between two readings of the clock; none where the
/// clock has not moved on.
pub open spec fn millis_between(start: u128, now: u128) -> int {
    if now >= start {
        (now - start) / (NANOS_PER_MILLI as int)
    } else {
        0
    }
}

impl ContagionTask {
    /// A task that has just been started. Without an input injector it is
    /// over before it begins.
    pub open spec fn fresh(injector_acquired: bool) -> ContagionTask {
        ContagionTask {
            phase: if injector_acquired {
                Phase::Top
            } else {
                Phase::Done
            },
            plan: Plan::empty(),
            burst_start: 0,
        }
    }

    /// The task in another phase.
    pub open spec fn at(self, phase: Phase) -> ContagionTask {
        ContagionTask { phase, ..self }
    }

    /// Whether the rapid-fire stage has clicked for longer than its
    /// duration.
    pub open spec fn burst_over(self, now: u128) -> bool {
        millis_between(self.burst_start, now) > self.plan.rapid_fire_duration_ms
    }

    /// The step that leaves for the clean-up.
    pub open spec fn abort(self) -> (ContagionTask, Action) {
        (self.at(Phase::AwaitCleanup), Action::Snapshot)
    }

    /// The task after a step, and the action that the step asks for.
    ///
    /// The run flag is read at the top of the loop, before each stage of the
    /// script, before each click of the rapid-fire stage and before the
    /// delay that ends the sequence. Where it is down there, the task leaves
    /// for the clean-up. The rapid-fire stage ends at the first check, one
    /// after each click, that finds more than its duration gone.
    pub open spec fn next(self, running: bool, now: u128) -> (ContagionTask, Action) {
        match self.phase {
            Phase::Top => if running {
                (self.at(Phase::AwaitPlan), Action::Snapshot)
            } else {
                self.abort()
            },
            Phase::AwaitPlan => (self, Action::Snapshot),
            Phase::Script(done) => if done < SCRIPT_LEN {
                if opens_stage(done) && !running {
                    self.abort()
                } else {
                    (self.at(Phase::Script((done + 1) as u8)), script(self.plan)[done as int])
                }
            } else if running {
                (
                    ContagionTask { phase: Phase::FireUp, burst_start: now, ..self },
                    Action::ButtonDown(self.plan.inputs.fire),
                )
            } else {
                self.abort()
            },
            Phase::FireUp => (self.at(Phase::ClickWait), Action::ButtonUp(self.plan.inputs.fire)),
            Phase::ClickWait => (
                self.at(Phase::ClickCheck),
                Action::Wait(self.plan.durations.rapid_fire_click),
            ),
            Phase::ClickCheck => if !running {
                self.abort()
            } else if self.burst_over(now) {
                (self.at(Phase::LoopWait), Action::Wait(self.plan.durations.sequence_end))
            } else {
                (self.at(Phase::FireUp), Action::ButtonDown(self.plan.inputs.fire))
            },
            Phase::LoopWait => (self.at(Phase::Top), Action::Wait(self.plan.durations.loop_delay)),
            Phase::AwaitCleanup => (self, Action::Snapshot),
            Phase::Release(done) => if done < 4 {
                (
                    self.at(Phase::Release((done + 1) as u8)),
                    releases(self.plan.inputs)[done as int],
                )
            } else {
                (self.at(Phase::Done), Action::Finished)
            },
            Phase::Done => (self, Action::Finished),
        }
    }

    /// The task after it was handed a copy of the configuration: ready to run
    /// the sequence on it, or to clean up by its bindings, whichever it had
    /// asked the copy for. A task that had not asked is left as it was.
    pub open spec fn loaded(self, config: SharedConfig) -> ContagionTask {
        match self.phase {
            Phase::AwaitPlan => ContagionTask {
                phase: Phase::Script(0),
                plan: plan_of(config),
                ..self
            },
            Phase::AwaitCleanup => ContagionTask {
                phase: Phase::Release(0),
                plan: Plan { inputs: inputs_of(config), ..self.plan },
                ..self
            },
            _ => self,
        }
    }

    /// One turn of the caller's loop: a step, and the load of the
    /// configuration where the step asks for one.
    pub open spec fn turn(self, turn: Turn) -> (ContagionTask, Action) {
        let (task, action) = self.next(turn.running, turn.now);
        if action is Snapshot {
            (task.loaded(turn.config), action)
        } else {
            (task, action)
        }
    }

    /// The task after the first `count` of a series of turns.
    pub open spec fn after_turns(self, turns: Seq<Turn>, count: nat) -> ContagionTask
        decreases count,
    {
        if count == 0 {
            self
        } else {
            self.after_turns(turns, (count - 1) as nat).turn(turns[count - 1]).0
        }
    }

    /// The action of the turn of an index in a series of turns.
    pub open spec fn action_of(self, turns: Seq<Turn>, index: nat) -> Action {
        self.after_turns(turns, index).turn(turns[index as int]).1
    }

    /// Whether the task waits for a copy of the configuration that it will
    /// run the sequence on. Such a copy has to be valid.
    pub open spec fn awaits_plan(self) -> bool {
        self.phase == Phase::AwaitPlan
    }

    /// A task that has just been started, given whether its caller has an
    /// input injector.
    pub fn new(injector_acquired: bool) -> (task: ContagionTask)
        ensures
            task == ContagionTask::fresh(injector_acquired),
    {
        ContagionTask {
            phase: if injector_acquired {
                Phase::Top
            } else {
                Phase::Done
            },
            plan: Plan::new(),
            burst_start: 0,
        }
    }

    /// Whether the task waits for a copy of the configuration that it will
    /// run the sequence on.
    pub fn is_awaiting_plan(&self) -> (awaiting: bool)
        ensures
            awaiting == self.awaits_plan(),
    {
        self.phase == Phase::AwaitPlan
    }

    /// Whether the task is over.
    pub fn is_done(&self) -> (done: bool)
        ensures
            done == (self.phase == Phase::Done),
    {
        self.phase == Phase::Done
    }

    /// Takes the run flag and the clock, and says what to do next.
    pub fn step(&mut self, running: bool, now: u128) -> (action: Action)
        ensures
            (*final(self), action) == old(self).next(running, now),
    {
        match self.phase {
            Phase::Top => {
                if running {
                    self.phase = Phase::AwaitPlan;
                } else {
                    self.phase = Phase::AwaitCleanup;
                }
                Action::Snapshot
            },
            Phase::AwaitPlan => Action::Snapshot,
            Phase::Script(done) => {
                if done < SCRIPT_LEN {
                    if is_stage_start(done) && !running {
                        self.phase = Phase::AwaitCleanup;
                        Action::Snapshot
                    } else {
                        self.phase = Phase::Script(done + 1);
                        script_action(&self.plan, done)
                    }
                } else if running {
                    self.phase = Phase::FireUp;
                    self.burst_start = now;
                    Action::ButtonDown(self.plan.inputs.fire)
                } else {
                    self.phase = Phase::AwaitCleanup;
                    Action::Snapshot
                }
            },
            Phase::FireUp => {
                self.phase = Phase::ClickWait;
                Action::ButtonUp(self.plan.inputs.fire)
            },
            Phase::ClickWait => {
                self.phase = Phase::ClickCheck;
                Action::Wait(self.plan.durations.rapid_fire_click)
            },
            Phase::ClickCheck => {
                if !running {
                    self.phase = Phase::AwaitCleanup;
                    Action::Snapshot
                } else if elapsed_millis(self.burst_start, now) > self.plan.rapid_fire_duration_ms as u128 {
                    self.phase = Phase::LoopWait;
                    Action::Wait(self.plan.durations.sequence_end)
                } else {
                    self.phase = Phase::FireUp;
                    Action::ButtonDown(self.plan.inputs.fire)
                }
            },
            Phase::LoopWait => {
                self.phase = Phase::Top;
                Action::Wait(self.plan.durations.loop_delay)
            },
            Phase::AwaitCleanup => Action::Snapshot,
            Phase::Release(done) => {
                if done < 4 {
                    self.phase = Phase::Release(done + 1);
                    release_action(&self.plan.inputs, done)
                } else {
                    self.phase = Phase::Done;
                    Action::Finished
                }
            },
            Phase::Done => Action::Finished,
        }
    }

    /// Hands the task the copy of the configuration that its last step asked
    /// for.
    pub fn load(&mut self, config: &SharedConfig)
        requires
            old(self).awaits_plan() ==> config.valid(),
        ensures
            *final(self) == old(self).loaded(*config),
    {
        match self.phase {
            Phase::AwaitPlan => {
                self.plan = Plan::from_config(config);
                self.phase = Phase::Script(0);
            },
            Phase::AwaitCleanup => {
                self.plan.inputs = Inputs::from_config(config);
                self.phase = Phase::Release(0);
            },
            _ => {},
        }
    }
}

/// Whether a stage of the script begins with the action of this index.
fn is_stage_start(index: u8) -> (starts: bool)
    ensures
        starts == opens_stage(index),
{
    index == 0 || index == 6 || index == 12 || index == 13
}

/// The whole milliseconds between two readings of the clock.
fn elapsed_millis(start: u128, now: u128) -> (millis: u128)
    ensures
        millis == millis_between(start, now),
{
    if now >= start {
        (now - start) / NANOS_PER_MILLI
    } else {
        0
    }
}

/// The action of an index in the script.
fn script_action(plan: &Plan, index: u8) -> (action: Action)
    requires
        index < SCRIPT_LEN,
    ensures
        action == script(*plan)[index as int],
{
    proof {
        reveal(script);
    }
    let jump = plan.inputs.keys.jump;
    let melee = plan.inputs.keys.melee;
    let emote = plan.inputs.keys.emote;
    match index {
        0 | 3 => Action::KeyDown(jump),
        1 | 4 | 14 | 17 => Action::Wait(plan.durations.double_jump),
        2 | 5 => Action::KeyUp(jump),
        6 => Action::ButtonDown(plan.inputs.aim),
        7 => Action::Wait(plan.durations.aim_melee),
        8 => Action::KeyDown(melee),
        9 => Action::Wait(plan.durations.melee_hold),
        10 => Action::KeyUp(melee),
        11 => Action::ButtonUp(plan.inputs.aim),
        12 => Action::Wait(plan.durations.emote_preparation),
        13 | 16 => Action::KeyDown(emote),
        _ => Action::KeyUp(emote),
    }
}

/// The release of an index in the clean-up.
fn release_action(inputs: &Inputs, index: u8) -> (action: Action)
    requires
        index < 4,
    ensures
        action == releases(*inputs)[index as int],
{
    proof {
        reveal(releases);
    }
    match index {
        0 => Action::KeyUp(inputs.keys.melee),
        1 => Action::KeyUp(inputs.keys.emote),
        2 => Action::ButtonUp(inputs.aim),
        _ => Action::ButtonUp(inputs.fire),
    }
}

/// The action of an index in an uninterrupted run of the sequence that makes
/// `clicks` clicks: the copy of the configuration, the script, the clicks of
/// the rapid-fire stage with the wait after each, the delay that ends the
/// sequence, the delay before the next run.
pub open spec fn run_action(plan: Plan, clicks: nat, index: nat) -> Action {
    if index == 0 {
        Action::Snapshot
    } else if index <= SCRIPT_LEN {
        script(plan)[index - 1]
    } else if index < 20 + 3 * clicks {
        if (index - 20) % 3 == 0 {
            Action::ButtonDown(plan.inputs.fire)
        } else if (index - 20) % 3 == 1 {
            Action::ButtonUp(plan.inputs.fire)
        } else {
            Action::Wait(plan.durations.rapid_fire_click)
        }
    } else if index == 20 + 3 * clicks {
        Action::Wait(plan.durations.sequence_end)
    } else {
        Action::Wait(plan.durations.loop_delay)
    }
}

/// The turn at which the click of a number begins, counted from zero, in a
/// series of turns that begins at the top of the loop. The check after the
/// click of a number, counted from one, comes at the same turn.
pub open spec fn click_turn(click: nat) -> nat {
    20 + 3 * click
}

/// In a series of turns that begins at the top of the loop, whether the
/// check after the click of this number, counted from one, finds the
/// rapid-fire duration exceeded. The stage begins at turn 20.
pub open spec fn time_is_up(turns: Seq<Turn>, click: nat) -> bool {
    millis_between(turns[20].now, turns[click_turn(click) as int].now)
        > turns[0].config.rapid_fire_duration_ms
}

/// Whether the run flag is up in each of the first `count` turns.
pub open spec fn stays_up(turns: Seq<Turn>, count: nat) -> bool {
    forall|i: int| 0 <= i < count ==> (#[trigger] turns[i]).running
}

/// Whether the run flag is down in each of the first `count` turns.
pub open spec fn stays_down(turns: Seq<Turn>, count: nat) -> bool {
    forall|i: int| 0 <= i < count ==> !(#[trigger] turns[i]).running
}

/// The number of turns that a task takes, once the run flag is down, before
/// the turn that asks for the copy of the configuration to clean up by: the
/// rest of the stage that it is in.
pub open spec fn turns_before_cleanup(phase: Phase) -> nat {
    match phase {
        Phase::Top => 0,
        Phase::AwaitPlan => 1,
        Phase::Script(done) => if done == 0 || done >= SCRIPT_LEN {
            0
        } else if done <= 6 {
            (6 - done) as nat
        } else if done <= 12 {
            (12 - done) as nat
        } else if done == 13 {
            0
        } else {
            (SCRIPT_LEN - done) as nat
        },
        Phase::FireUp => 2,
        Phase::ClickWait => 1,
        Phase::ClickCheck => 0,
        Phase::LoopWait => 1,
        Phase::AwaitCleanup => 0,
        Phase::Release(_) => 0,
        Phase::Done => 0,
    }
}

/// Whether a task has neither finished nor begun its releases.
pub open spec fn before_cleanup(phase: Phase) -> bool {
    !(phase is Release) && !(phase is Done)
}

/// One more turn.
proof fn lemma_one_turn(task: ContagionTask, turns: Seq<Turn>, count: nat)
    ensures
        task.after_turns(turns, count + 1) == task.after_turns(turns, count).turn(
            turns[count as int],
        ).0,
        task.action_of(turns, count) == task.after_turns(turns, count).turn(turns[count as int]).1,
{
}

/// From the turn `base` on, the script comes out action by action while the
/// run flag stays up.
proof fn lemma_script_in_order(task: ContagionTask, turns: Seq<Turn>, base: nat, done: nat)
    requires
        task.after_turns(turns, base).phase == Phase::Script(0),
        done <= SCRIPT_LEN,
        stays_up(turns, base + done),
    ensures
        task.after_turns(turns, base + done) == task.after_turns(turns, base).at(
            Phase::Script(done as u8),
        ),
        forall|i: nat|
            i < done ==> #[trigger] task.action_of(turns, base + i) == script(
                task.after_turns(turns, base).plan,
            )[i as int],
    decreases done,
{
    if done > 0 {
        let before = (done - 1) as nat;
        lemma_script_in_order(task, turns, base, before);
        assert(turns[(base + before) as int].running);
        lemma_one_turn(task, turns, base + before);
        assert forall|i: nat| i < done implies #[trigger] task.action_of(turns, base + i)
            == script(task.after_turns(turns, base).plan)[i as int] by {
            if i < before {
            } else {
                assert(base + i == base + before);
            }
        }
    }
}

/// A click of the rapid-fire stage: from a turn at which the task presses
/// the fire button, it presses, releases and waits, and stands at the check.
proof fn lemma_click(task: ContagionTask, turns: Seq<Turn>, base: nat, clicking: ContagionTask)
    requires
        clicking.phase == Phase::ClickCheck,
        task.after_turns(turns, base + 1) == clicking.at(Phase::FireUp),
        task.action_of(turns, base) == Action::ButtonDown(clicking.plan.inputs.fire),
    ensures
        task.action_of(turns, base + 1) == Action::ButtonUp(clicking.plan.inputs.fire),
        task.action_of(turns, base + 2) == Action::Wait(clicking.plan.durations.rapid_fire_click),
        task.after_turns(turns, base + 3) == clicking,
{
    lemma_one_turn(task, turns, base + 1);
    lemma_one_turn(task, turns, base + 2);
    assert(task.after_turns(turns, base + 2) == clicking.at(Phase::ClickWait));
}

/// Whether the click of a number comes out as a press, a release and the
/// wait after a click.
spec fn clicks_at(task: ContagionTask, turns: Seq<Turn>, plan: Plan, click: nat) -> bool {
    &&& task.action_of(turns, click_turn(click)) == Action::ButtonDown(plan.inputs.fire)
    &&& task.action_of(turns, click_turn(click) + 1) == Action::ButtonUp(plan.inputs.fire)
    &&& task.action_of(turns, click_turn(click) + 2) == Action::Wait(
        plan.durations.rapid_fire_click,
    )
}

/// The clicks of the rapid-fire stage: while the checks find the duration
/// not exceeded, click follows click.
proof fn lemma_clicks(task: ContagionTask, turns: Seq<Turn>, clicking: ContagionTask, clicks: nat)
    requires
        clicks >= 1,
        clicking.phase == Phase::ClickCheck,
        clicking.plan.rapid_fire_duration_ms == turns[0].config.rapid_fire_duration_ms,
        clicking.burst_start == turns[20].now,
        task.after_turns(turns, 20).phase == Phase::Script(SCRIPT_LEN),
        task.after_turns(turns, 20).plan == clicking.plan,
        stays_up(turns, click_turn(clicks)),
        forall|click: nat| 1 <= click < clicks ==> !#[trigger] time_is_up(turns, click),
    ensures
        task.after_turns(turns, click_turn(clicks)) == clicking,
        forall|click: nat| click < clicks ==> #[trigger] clicks_at(task, turns, clicking.plan, click),
    decreases clicks,
{
    let last = (clicks - 1) as nat;
    let base = click_turn(last);
    if last > 0 {
        lemma_clicks(task, turns, clicking, last);
        assert(!time_is_up(turns, last));
    }
    assert(turns[base as int].running);
    lemma_one_turn(task, turns, base);
    lemma_click(task, turns, base, clicking);
    assert(clicks_at(task, turns, clicking.plan, last));
}

/// What the clicks of the rapid-fire stage come to, turn by turn.
proof fn lemma_click_turns(
    task: ContagionTask,
    turns: Seq<Turn>,
    plan: Plan,
    clicks: nat,
    index: nat,
)
    requires
        20 <= index < 20 + 3 * clicks,
        forall|click: nat| click < clicks ==> #[trigger] clicks_at(task, turns, plan, click),
    ensures
        task.action_of(turns, index) == run_action(plan, clicks, index),
{
    let click = ((index - 20) / 3) as nat;
    assert(clicks_at(task, turns, plan, click));
}

/// From the top of the loop, with the run flag up, a task asks for a copy of
/// the configuration and goes through the script.
proof fn lemma_run_begins(task: ContagionTask, turns: Seq<Turn>)
    requires
        task.phase == Phase::Top,
        stays_up(turns, 20),
    ensures
        task.action_of(turns, 0) == Action::Snapshot,
        forall|index: nat|
            1 <= index <= 19 ==> #[trigger] task.action_of(turns, index) == script(
                plan_of(turns[0].config),
            )[index - 1],
        task.after_turns(turns, 20) == (ContagionTask {
            phase: Phase::Script(SCRIPT_LEN),
            plan: plan_of(turns[0].config),
            ..task
        }),
{
    let plan = plan_of(turns[0].config);
    assert(turns[0].running);
    lemma_one_turn(task, turns, 0);
    assert(task.after_turns(turns, 1) == ContagionTask { phase: Phase::Script(0), plan, ..task });
    lemma_script_in_order(task, turns, 1, 19);
    assert forall|index: nat| 1 <= index <= 19 implies #[trigger] task.action_of(turns, index)
        == script(plan)[index - 1] by {
        assert(task.action_of(turns, 1 + (index - 1) as nat) == script(plan)[index - 1]);
    }
}

/// An uninterrupted run of the sequence is the same whatever the
/// configuration holds: from the top of the loop, with the run flag up at
/// every turn, a task asks for a copy of the configuration, goes through the
/// script, clicks until the first check after a click that finds the
/// rapid-fire duration exceeded, waits the delay that ends the sequence and
/// the delay before the next run, and stands at the top of the loop again.
/// Here that check is the one after click number `clicks`.
pub proof fn law_uninterrupted_run(task: ContagionTask, turns: Seq<Turn>, clicks: nat)
    requires
        task.phase == Phase::Top,
        clicks >= 1,
        stays_up(turns, 22 + 3 * clicks),
        forall|click: nat| 1 <= click < clicks ==> !#[trigger] time_is_up(turns, click),
        time_is_up(turns, clicks),
    ensures
        forall|index: nat|
            index < 22 + 3 * clicks ==> #[trigger] task.action_of(turns, index) == run_action(
                plan_of(turns[0].config),
                clicks,
                index,
            ),
        task.after_turns(turns, 22 + 3 * clicks) == (ContagionTask {
            phase: Phase::Top,
            plan: plan_of(turns[0].config),
            burst_start: turns[20].now,
        }),
{
    let plan = plan_of(turns[0].config);
    let clicking = ContagionTask { phase: Phase::ClickCheck, plan, burst_start: turns[20].now };
    let end = 20 + 3 * clicks;
    lemma_plan_parts(turns[0].config);
    lemma_run_begins(task, turns);
    lemma_clicks(task, turns, clicking, clicks);
    assert(turns[end as int].running);
    lemma_one_turn(task, turns, end);
    lemma_one_turn(task, turns, end + 1);
    assert(task.after_turns(turns, end + 1) == clicking.at(Phase::LoopWait));
    assert forall|index: nat| index < 22 + 3 * clicks implies #[trigger] task.action_of(
        turns,
        index,
    ) == run_action(plan, clicks, index) by {
        if 20 <= index < end {
            lemma_click_turns(task, turns, plan, clicks, index);
        }
    }
}

/// With the run flag down, a turn of a task that is not yet at the turn that
/// leaves for the clean-up brings it one turn closer. It presses nothing,
/// and where it waits in the rapid-fire stage, the wait is the delay after a
/// click and the last turn before the clean-up.
proof fn lemma_turn_towards_cleanup(task: ContagionTask, turn: Turn)
    requires
        !turn.running,
        before_cleanup(task.phase),
        turns_before_cleanup(task.phase) > 0,
    ensures
        before_cleanup(task.turn(turn).0.phase),
        turns_before_cleanup(task.turn(turn).0.phase) == turns_before_cleanup(task.phase) - 1,
        task.phase is FireUp || task.phase is ClickWait ==> {
            &&& task.turn(turn).0.phase is ClickWait || task.turn(turn).0.phase is ClickCheck
            &&& task.turn(turn).0.plan == task.plan
            &&& !(task.turn(turn).1 is KeyDown)
            &&& !(task.turn(turn).1 is ButtonDown)
            &&& task.turn(turn).1 is Wait ==> task.phase is ClickWait && task.turn(turn).1
                == Action::Wait(task.plan.durations.rapid_fire_click)
        },
{
}

/// With the run flag down, a task that has not begun its releases comes to
/// the turn that leaves for the clean-up after the rest of its stage.
proof fn lemma_reaches_cleanup(task: ContagionTask, turns: Seq<Turn>, count: nat)
    requires
        before_cleanup(task.phase),
        count <= turns_before_cleanup(task.phase),
        stays_down(turns, count),
    ensures
        before_cleanup(task.after_turns(turns, count).phase),
        turns_before_cleanup(task.after_turns(turns, count).phase) == turns_before_cleanup(
            task.phase,
        ) - count,
    decreases count,
{
    if count > 0 {
        lemma_reaches_cleanup(task, turns, (count - 1) as nat);
        assert(!turns[count - 1].running);
        lemma_turn_towards_cleanup(task.after_turns(turns, (count - 1) as nat), turns[count - 1]);
    }
}

/// Cancellation releases the inputs, whichever stage it interrupts: once the
/// run flag is down, a task that has not begun its releases finishes the
/// stage that it is in, asks for a copy of the configuration, releases the
/// melee key, the emote key, the aim button and the fire button as that copy
/// binds them, and is over. The releases are the last that the task does.
pub proof fn law_cancellation_releases_inputs(task: ContagionTask, turns: Seq<Turn>)
    requires
        before_cleanup(task.phase),
        stays_down(turns, turns_before_cleanup(task.phase) + 1),
    ensures
        ({
            let leave = turns_before_cleanup(task.phase);
            let inputs = inputs_of(turns[leave as int].config);
            &&& leave <= 6
            &&& task.action_of(turns, leave) == Action::Snapshot
            &&& task.action_of(turns, leave + 1) == Action::KeyUp(inputs.keys.melee)
            &&& task.action_of(turns, leave + 2) == Action::KeyUp(inputs.keys.emote)
            &&& task.action_of(turns, leave + 3) == Action::ButtonUp(inputs.aim)
            &&& task.action_of(turns, leave + 4) == Action::ButtonUp(inputs.fire)
            &&& task.action_of(turns, leave + 5) == Action::Finished
            &&& task.after_turns(turns, leave + 6).phase == Phase::Done
        }),
{
    reveal(releases);
    let leave = turns_before_cleanup(task.phase);
    lemma_reaches_cleanup(task, turns, leave);
    let leaving = task.after_turns(turns, leave);
    assert(!turns[leave as int].running);
    let inputs = inputs_of(turns[leave as int].config);
    let cleaning = ContagionTask {
        phase: Phase::Release(0),
        plan: Plan { inputs, ..leaving.plan },
        ..leaving
    };
    assert(leaving.turn(turns[leave as int]) == (cleaning, Action::Snapshot));
    lemma_one_turn(task, turns, leave);
    lemma_one_turn(task, turns, leave + 1);
    assert(task.after_turns(turns, leave + 2) == cleaning.at(Phase::Release(1)));
    lemma_one_turn(task, turns, leave + 2);
    assert(task.after_turns(turns, leave + 3) == cleaning.at(Phase::Release(2)));
    lemma_one_turn(task, turns, leave + 3);
    assert(task.after_turns(turns, leave + 4) == cleaning.at(Phase::Release(3)));
    lemma_one_turn(task, turns, leave + 4);
    assert(task.after_turns(turns, leave + 5) == cleaning.at(Phase::Release(4)));
    lemma_one_turn(task, turns, leave + 5);
}

/// Cancellation in the rapid-fire stage is prompt: once the run flag is down,
/// a task in that stage presses nothing more, and waits at most once before
/// it leaves for the clean-up: the delay after a click, in the last turn
/// before the clean-up.
pub proof fn law_prompt_cancellation_while_clicking(
    task: ContagionTask,
    turns: Seq<Turn>,
    index: nat,
)
    requires
        task.phase is FireUp || task.phase is ClickWait || task.phase is ClickCheck,
        index < turns_before_cleanup(task.phase),
        stays_down(turns, index + 1),
    ensures
        turns_before_cleanup(task.phase) <= 2,
        !(task.action_of(turns, index) is KeyDown),
        !(task.action_of(turns, index) is ButtonDown),
        task.action_of(turns, index) is Wait ==> index + 1 == turns_before_cleanup(task.phase)
            && task.action_of(turns, index) == Action::Wait(task.plan.durations.rapid_fire_click),
{
    assert(!turns[index as int].running);
    lemma_one_turn(task, turns, index);
    if index == 0 {
        lemma_turn_towards_cleanup(task, turns[0]);
    } else {
        assert(!turns[0].running);
        lemma_one_turn(task, turns, 0);
        lemma_turn_towards_cleanup(task, turns[0]);
        lemma_turn_towards_cleanup(task.after_turns(turns, 1), turns[1]);
    }
}

/// The inputs that a task holds down in a phase: within a tap, the key of
/// the tap; within the aim and melee stage, the aim button, and the melee
/// key while it is tapped; within a click, the fire button; between the
/// stages, and from the clean-up on, nothing.
pub open spec fn held_in(task: ContagionTask) -> Set<Input> {
    let keys = task.plan.inputs.keys;
    match task.phase {
        Phase::Script(done) => if done == 1 || done == 2 || done == 4 || done == 5 {
            set![Input::Key(keys.jump)]
        } else if done == 7 || done == 8 || done == 11 {
            set![Input::Button(task.plan.inputs.aim)]
        } else if done == 9 || done == 10 {
            set![Input::Button(task.plan.inputs.aim), Input::Key(keys.melee)]
        } else if done == 14 || done == 15 || done == 17 || done == 18 {
            set![Input::Key(keys.emote)]
        } else {
            Set::empty()
        },
        Phase::FireUp => set![Input::Button(task.plan.inputs.fire)],
        _ => Set::empty(),
    }
}

/// The inputs that are down after the first `count` of a series of turns,
/// given those that were down before it.
pub open spec fn held_after_turns(
    task: ContagionTask,
    held: Set<Input>,
    turns: Seq<Turn>,
    count: nat,
) -> Set<Input>
    decreases count,
{
    if count == 0 {
        held
    } else {
        held_after(
            held_after_turns(task, held, turns, (count - 1) as nat),
            task.action_of(turns, (count - 1) as nat),
        )
    }
}

/// A turn leaves down what the next phase holds.
proof fn lemma_turn_keeps_hold(task: ContagionTask, turn: Turn)
    ensures
        held_after(held_in(task), task.turn(turn).1) =~= held_in(task.turn(turn).0),
{
    reveal(script);
    reveal(releases);
    let after = task.turn(turn).0;
    let action = task.turn(turn).1;
    match task.phase {
        Phase::Script(done) => {
            if done < SCRIPT_LEN && !(opens_stage(done) && !turn.running) {
                assert(action == script(task.plan)[done as int]);
                assert(after == task.at(Phase::Script((done + 1) as u8)));
            }
        },
        Phase::Release(done) => {
            if done < 4 {
                assert(action == releases(task.plan.inputs)[done as int]);
            }
        },
        _ => {},
    }
}

/// Nothing is left held: whatever the run flag and the clock do, a task
/// that began with nothing down has down, after every turn, exactly what its
/// phase holds. So a task that is between two stages, at the top of its
/// loop, in its clean-up or over holds nothing down.
pub proof fn law_nothing_is_left_held(task: ContagionTask, turns: Seq<Turn>, count: nat)
    ensures
        held_after_turns(task, held_in(task), turns, count) == held_in(
            task.after_turns(turns, count),
        ),
        task.after_turns(turns, count).phase is Done ==> held_after_turns(
            task,
            held_in(task),
            turns,
            count,
        ) == Set::<Input>::empty(),
    decreases count,
{
    if count > 0 {
        let before = (count - 1) as nat;
        law_nothing_is_left_held(task, turns, before);
        lemma_one_turn(task, turns, before);
        lemma_turn_keeps_hold(task.after_turns(turns, before), turns[before as int]);
    }
}

} // verus!
