//! The rapid-click task: a burst of clicks on the fire button, which the
//! global switch can cut short.
//!
//! Like the sequence task it is a state machine that its caller steps: the
//! caller reads the global switch, asks for the next action, performs it, and
//! comes back.

use vstd::prelude::*;

use crate::config::{SharedConfig, NANOS_PER_MILLI};
use crate::keys::{button_from_index, button_of_index, Button};
use crate::plan::{held_after, Action, Input};

verus! {

/// Where a burst stands: what its next step does.
#[derive(Clone, Copy, Debug, PartialEq, Eq, Structural)]
pub enum BurstPhase {
    /// Just started: the flag that says a burst is in flight goes up.
    Begin,
    /// A copy of the configuration was asked for.
    AwaitPlan,
    /// Before a click: the burst goes on or ends.
    Press,
    /// In a click, the button is down.
    Release,
    /// After a click.
    Pause,
    /// No injector was to be had: the flag goes down again.
    End,
    /// Over.
    Done,
}

/// What a burst reads of the configuration.
#[derive(Clone, Copy, Debug, PartialEq, Eq, Structural)]
pub struct BurstPlan {
    pub fire: Button,
    /// The wait after each click, in nanoseconds.
    pub delay: u128,
    /// The number of clicks.
    pub count: usize,
}

/// One burst.
#[derive(Clone, Copy, Debug, PartialEq, Eq, Structural)]
pub struct RapidClickTask {
    pub phase: BurstPhase,
    /// Whether the caller has an input injector.
    pub injector_acquired: bool,
    pub plan: BurstPlan,
    /// The clicks that are still to be made.
    pub remaining: usize,
}

/// What the caller of a burst sees at one turn of its loop.
pub struct BurstTurn {
    /// The global switch.
    pub macro_enabled: bool,
    /// The shared configuration, as a copy of it would read.
    pub config: SharedConfig,
}

/// The burst that a configuration stands for.
pub open spec fn burst_plan_of(config: SharedConfig) -> BurstPlan {
    BurstPlan {
        fire: button_of_index(config.fire_button),
        delay: (config.rapid_click_delay_ms * NANOS_PER_MILLI) as u128,
        count: config.rapid_click_count,
    }
}

impl RapidClickTask {
    /// A burst that has just been started.
    pub open spec fn fresh(injector_acquired: bool) -> RapidClickTask {
        RapidClickTask {
            phase: BurstPhase::Begin,
            injector_acquired,
            plan: BurstPlan { fire: Button::Left, delay: 0, count: 0 },
            remaining: 0,
        }
    }

    /// The burst in another phase.
    pub open spec fn at(self, phase: BurstPhase) -> RapidClickTask {
        RapidClickTask { phase, ..self }
    }

    /// The burst after a step, and the action that the step asks for.
    ///
    /// The flag goes up first and down last. In between, the burst clicks
    /// while clicks remain and the global switch, read before each click, is
    /// on.
    pub open spec fn next(self, macro_enabled: bool) -> (RapidClickTask, Action) {
        match self.phase {
            BurstPhase::Begin => (
                self.at(
                    if self.injector_acquired {
                        BurstPhase::AwaitPlan
                    } else {
                        BurstPhase::End
                    },
                ),
                Action::RapidClicking(true),
            ),
            BurstPhase::AwaitPlan => (self, Action::Snapshot),
            BurstPhase::Press => if self.remaining > 0 && macro_enabled {
                (self.at(BurstPhase::Release), Action::ButtonDown(self.plan.fire))
            } else {
                (self.at(BurstPhase::Done), Action::RapidClicking(false))
            },
            BurstPhase::Release => (self.at(BurstPhase::Pause), Action::ButtonUp(self.plan.fire)),
            BurstPhase::Pause => (
                RapidClickTask {
                    phase: BurstPhase::Press,
                    remaining: if self.remaining > 0 {
                        (self.remaining - 1) as usize
                    } else {
                        0
                    },
                    ..self
                },
                Action::Wait(self.plan.delay),
            ),
            BurstPhase::End => (self.at(BurstPhase::Done), Action::RapidClicking(false)),
            BurstPhase::Done => (self, Action::Finished),
        }
    }

    /// The burst after it was handed a copy of the configuration: ready to
    /// click, if it had asked for the copy, and as it was if not.
    pub open spec fn loaded(self, config: SharedConfig) -> RapidClickTask {
        if self.phase == BurstPhase::AwaitPlan {
            RapidClickTask {
                phase: BurstPhase::Press,
                plan: burst_plan_of(config),
                remaining: config.rapid_click_count,
                ..self
            }
        } else {
            self
        }
    }

    /// One turn of the caller's loop: a step, and the load of the
    /// configuration where the step asks for one.
    pub open spec fn turn(self, turn: BurstTurn) -> (RapidClickTask, Action) {
        let (task, action) = self.next(turn.macro_enabled);
        if action is Snapshot {
            (task.loaded(turn.config), action)
        } else {
            (task, action)
        }
    }

    /// The burst after the first `count` of a series of turns.
    pub open spec fn after_turns(self, turns: Seq<BurstTurn>, count: nat) -> RapidClickTask
        decreases count,
    {
        if count == 0 {
            self
        } else {
            self.after_turns(turns, (count - 1) as nat).turn(turns[count - 1]).0
        }
    }

    /// The action of the turn of an index in a series of turns.
    pub open spec fn action_of(self, turns: Seq<BurstTurn>, index: nat) -> Action {
        self.after_turns(turns, index).turn(turns[index as int]).1
    }

    /// A burst that has just been started, given whether its caller has an
    /// input injector.
    pub fn new(injector_acquired: bool) -> (task: RapidClickTask)
        ensures
            task == RapidClickTask::fresh(injector_acquired),
    {
        RapidClickTask {
            phase: BurstPhase::Begin,
            injector_acquired,
            plan: BurstPlan { fire: Button::Left, delay: 0, count: 0 },
            remaining: 0,
        }
    }

    /// Whether the burst is over.
    pub fn is_done(&self) -> (done: bool)
        ensures
            done == (self.phase == BurstPhase::Done),
    {
        self.phase == BurstPhase::Done
    }

    /// Takes the global switch, and says what to do next.
    pub fn step(&mut self, macro_enabled: bool) -> (action: Action)
        ensures
            (*final(self), action) == old(self).next(macro_enabled),
    {
        match self.phase {
            BurstPhase::Begin => {
                self.phase = if self.injector_acquired {
                    BurstPhase::AwaitPlan
                } else {
                    BurstPhase::End
                };
                Action::RapidClicking(true)
            },
            BurstPhase::AwaitPlan => Action::Snapshot,
            BurstPhase::Press => {
                if self.remaining > 0 && macro_enabled {
                    self.phase = BurstPhase::Release;
                    Action::ButtonDown(self.plan.fire)
                } else {
                    self.phase = BurstPhase::Done;
                    Action::RapidClicking(false)
                }
            },
            BurstPhase::Release => {
                self.phase = BurstPhase::Pause;
                Action::ButtonUp(self.plan.fire)
            },
            BurstPhase::Pause => {
                self.phase = BurstPhase::Press;
                if self.remaining > 0 {
                    self.remaining = self.remaining - 1;
                }
                Action::Wait(self.plan.delay)
            },
            BurstPhase::End => {
                self.phase = BurstPhase::Done;
                Action::RapidClicking(false)
            },
            BurstPhase::Done => Action::Finished,
        }
    }

    /// Hands the burst the copy of the configuration that its last step
    /// asked for.
    pub fn load(&mut self, config: &SharedConfig)
        ensures
            *final(self) == old(self).loaded(*config),
    {
        if self.phase == BurstPhase::AwaitPlan {
            self.plan = BurstPlan {
                fire: button_from_index(config.fire_button),
                delay: (config.rapid_click_delay_ms as u128) * NANOS_PER_MILLI,
                count: config.rapid_click_count,
            };
            self.remaining = config.rapid_click_count;
            self.phase = BurstPhase::Press;
        }
    }
}

/// The action of an index in a burst that makes `made` clicks: the flag up,
/// the copy of the configuration, the clicks with the wait after each, the
/// flag down, and nothing more.
pub open spec fn burst_action(plan: BurstPlan, made: nat, index: nat) -> Action {
    if index == 0 {
        Action::RapidClicking(true)
    } else if index == 1 {
        Action::Snapshot
    } else if index < 2 + 3 * made {
        if (index - 2) % 3 == 0 {
            Action::ButtonDown(plan.fire)
        } else if (index - 2) % 3 == 1 {
            Action::ButtonUp(plan.fire)
        } else {
            Action::Wait(plan.delay)
        }
    } else if index == 2 + 3 * made {
        Action::RapidClicking(false)
    } else {
        Action::Finished
    }
}

/// In a series of turns of a burst that has an injector, whether the global
/// switch is on at the turn before the click of this number, counted from
/// zero. The first click comes at turn 2, each further one three turns on.
pub open spec fn switch_on_before(turns: Seq<BurstTurn>, click: nat) -> bool {
    turns[2 + 3 * (click as int)].macro_enabled
}

/// One more turn.
proof fn lemma_one_turn(task: RapidClickTask, turns: Seq<BurstTurn>, count: nat)
    ensures
        task.after_turns(turns, count + 1) == task.after_turns(turns, count).turn(
            turns[count as int],
        ).0,
        task.action_of(turns, count) == task.after_turns(turns, count).turn(turns[count as int]).1,
{
}

/// After the flag write and the load, the burst stands before its first
/// click.
proof fn lemma_burst_begins(task: RapidClickTask, turns: Seq<BurstTurn>)
    requires
        task.phase == BurstPhase::Begin,
        task.injector_acquired,
    ensures
        task.action_of(turns, 0) == Action::RapidClicking(true),
        task.action_of(turns, 1) == Action::Snapshot,
        task.after_turns(turns, 2) == (RapidClickTask {
            phase: BurstPhase::Press,
            injector_acquired: true,
            plan: burst_plan_of(turns[1].config),
            remaining: turns[1].config.rapid_click_count,
        }),
{
    lemma_one_turn(task, turns, 0);
    lemma_one_turn(task, turns, 1);
    assert(task.after_turns(turns, 1) == task.at(BurstPhase::AwaitPlan));
}

/// While the switch is on and clicks remain, click follows click.
proof fn lemma_burst_clicks(task: RapidClickTask, turns: Seq<BurstTurn>, made: nat)
    requires
        task.phase == BurstPhase::Begin,
        task.injector_acquired,
        made <= turns[1].config.rapid_click_count,
        forall|click: nat| click < made ==> #[trigger] switch_on_before(turns, click),
    ensures
        task.after_turns(turns, 2 + 3 * made) == (RapidClickTask {
            phase: BurstPhase::Press,
            injector_acquired: true,
            plan: burst_plan_of(turns[1].config),
            remaining: (turns[1].config.rapid_click_count - made) as usize,
        }),
        forall|click: nat|
            click < made ==> {
                &&& #[trigger] task.action_of(turns, 2 + 3 * click) == Action::ButtonDown(
                    burst_plan_of(turns[1].config).fire,
                )
                &&& task.action_of(turns, 3 + 3 * click) == Action::ButtonUp(
                    burst_plan_of(turns[1].config).fire,
                )
                &&& task.action_of(turns, 4 + 3 * click) == Action::Wait(
                    burst_plan_of(turns[1].config).delay,
                )
            },
    decreases made,
{
    lemma_burst_begins(task, turns);
    if made > 0 {
        let last = (made - 1) as nat;
        let base = 2 + 3 * last;
        lemma_burst_clicks(task, turns, last);
        assert(switch_on_before(turns, last));
        lemma_one_turn(task, turns, base);
        lemma_one_turn(task, turns, base + 1);
        lemma_one_turn(task, turns, base + 2);
        let plan = burst_plan_of(turns[1].config);
        let pressing = task.after_turns(turns, base);
        assert(task.after_turns(turns, base + 1) == pressing.at(BurstPhase::Release));
        assert(task.after_turns(turns, base + 2) == pressing.at(BurstPhase::Pause));
        assert(base + 3 == 2 + 3 * made);
        assert forall|click: nat| click < made implies {
            &&& #[trigger] task.action_of(turns, 2 + 3 * click) == Action::ButtonDown(plan.fire)
            &&& task.action_of(turns, 3 + 3 * click) == Action::ButtonUp(plan.fire)
            &&& task.action_of(turns, 4 + 3 * click) == Action::Wait(plan.delay)
        } by {
            if click == last {
                assert(3 + 3 * click == base + 1);
                assert(4 + 3 * click == base + 2);
            }
        }
    }
}

/// A burst makes as many clicks as the configuration counts, unless the
/// global switch goes off first. With `made` the number of clicks before
/// which the switch was on, and either the count reached or the switch off
/// before the next click: the burst raises the flag, asks for a copy of the
/// configuration, makes exactly `made` clicks, each a press, a release and
/// the wait after it, lowers the flag, and is over.
pub proof fn law_burst_makes_its_clicks(task: RapidClickTask, turns: Seq<BurstTurn>, made: nat)
    requires
        task.phase == BurstPhase::Begin,
        task.injector_acquired,
        made <= turns[1].config.rapid_click_count,
        forall|click: nat| click < made ==> #[trigger] switch_on_before(turns, click),
        made == turns[1].config.rapid_click_count || !switch_on_before(turns, made),
    ensures
        forall|index: nat| #[trigger]
            task.action_of(turns, index) == burst_action(
                burst_plan_of(turns[1].config),
                made,
                index,
            ),
{
    let plan = burst_plan_of(turns[1].config);
    let end = 2 + 3 * made;
    lemma_burst_begins(task, turns);
    lemma_burst_clicks(task, turns, made);
    lemma_one_turn(task, turns, end);
    assert(task.after_turns(turns, end + 1).phase == BurstPhase::Done);
    assert forall|index: nat| #[trigger]
        task.action_of(turns, index) == burst_action(plan, made, index) by {
        if index < 2 {
        } else if index < end {
            let click = ((index - 2) / 3) as nat;
            assert(task.action_of(turns, 2 + 3 * click) == Action::ButtonDown(plan.fire));
            if (index - 2) % 3 == 0 {
                assert(index == 2 + 3 * click);
            } else if (index - 2) % 3 == 1 {
                assert(index == 3 + 3 * click);
            } else {
                assert(index == 4 + 3 * click);
            }
        } else if index == end {
        } else {
            lemma_stays_done(task, turns, end + 1, index);
            lemma_one_turn(task, turns, index);
        }
    }
}

/// A burst that is over stays over.
proof fn lemma_stays_done(task: RapidClickTask, turns: Seq<BurstTurn>, from: nat, to: nat)
    requires
        from <= to,
        task.after_turns(turns, from).phase == BurstPhase::Done,
    ensures
        task.after_turns(turns, to).phase == BurstPhase::Done,
    decreases to - from,
{
    if from < to {
        lemma_stays_done(task, turns, from, (to - 1) as nat);
        lemma_one_turn(task, turns, (to - 1) as nat);
    }
}

/// A burst never makes more clicks than the configuration counts, whatever
/// the global switch does.
pub proof fn law_burst_never_exceeds_its_count(
    task: RapidClickTask,
    turns: Seq<BurstTurn>,
    index: nat,
)
    requires
        task.phase == BurstPhase::Begin,
        task.injector_acquired,
    ensures
        task.action_of(turns, index) is ButtonDown ==> index >= 2 && (index - 2) % 3 == 0 && (index
            - 2) / 3 < turns[1].config.rapid_click_count,
{
    lemma_one_turn(task, turns, index);
    if index < 2 {
        lemma_burst_begins(task, turns);
        lemma_one_turn(task, turns, 0);
    } else {
        lemma_on_track(task, turns, (index - 2) as nat);
    }
}

/// Where a burst stands after its first two turns and `count` more: before
/// a click, in it or after it by turns, with each click taken off what
/// remains, or over.
proof fn lemma_on_track(task: RapidClickTask, turns: Seq<BurstTurn>, count: nat)
    requires
        task.phase == BurstPhase::Begin,
        task.injector_acquired,
    ensures
        ({
            let now = task.after_turns(turns, 2 + count);
            let total = turns[1].config.rapid_click_count;
            ||| now.phase == BurstPhase::Done
            ||| count % 3 == 0 && now.phase == BurstPhase::Press && now.remaining + count / 3
                == total
            ||| count % 3 == 1 && now.phase == BurstPhase::Release && now.remaining + count / 3
                == total && now.remaining > 0
            ||| count % 3 == 2 && now.phase == BurstPhase::Pause && now.remaining + count / 3
                == total && now.remaining > 0
        }),
    decreases count,
{
    if count == 0 {
        lemma_burst_begins(task, turns);
    } else {
        lemma_on_track(task, turns, (count - 1) as nat);
        lemma_one_turn(task, turns, (2 + count - 1) as nat);
    }
}

/// Without an injector a burst does nothing but raise and lower the flag.
pub proof fn law_burst_without_injector(task: RapidClickTask, turns: Seq<BurstTurn>)
    requires
        task.phase == BurstPhase::Begin,
        !task.injector_acquired,
    ensures
        task.action_of(turns, 0) == Action::RapidClicking(true),
        task.action_of(turns, 1) == Action::RapidClicking(false),
        task.action_of(turns, 2) == Action::Finished,
{
    lemma_one_turn(task, turns, 0);
    lemma_one_turn(task, turns, 1);
    lemma_one_turn(task, turns, 2);
    assert(task.after_turns(turns, 1) == task.at(BurstPhase::End));
}

/// The inputs that a burst holds down in a phase: the fire button within a
/// click, nothing otherwise.
pub open spec fn held_in(task: RapidClickTask) -> Set<Input> {
    if task.phase == BurstPhase::Release {
        set![Input::Button(task.plan.fire)]
    } else {
        Set::empty()
    }
}

/// The inputs that are down after the first `count` of a series of turns,
/// given those that were down before it.
pub open spec fn held_after_turns(
    task: RapidClickTask,
    held: Set<Input>,
    turns: Seq<BurstTurn>,
    count: nat,
) -> Set<Input>
    decreases count,
{
    if count == 0 {
        held
    } else {
        held_after(
            held_after_turns(task, held, turns, (count - 1) as nat),
            task.action_of(turns, (count - 1) as nat),
        )
    }
}

/// A burst leaves nothing held: whatever the global switch does, a burst
/// that began with nothing down has down, after every turn, exactly what its
/// phase holds, which is nothing once it is over.
pub proof fn law_burst_leaves_nothing_held(task: RapidClickTask, turns: Seq<BurstTurn>, count: nat)
    ensures
        held_after_turns(task, held_in(task), turns, count) == held_in(
            task.after_turns(turns, count),
        ),
        task.after_turns(turns, count).phase == BurstPhase::Done ==> held_after_turns(
            task,
            held_in(task),
            turns,
            count,
        ) == Set::<Input>::empty(),
    decreases count,
{
    if count > 0 {
        let before = (count - 1) as nat;
        law_burst_leaves_nothing_held(task, turns, before);
        lemma_one_turn(task, turns, before);
        let standing = task.after_turns(turns, before);
        assert(held_after(held_in(standing), standing.turn(turns[before as int]).1) =~= held_in(
            standing.turn(turns[before as int]).0,
        ));
    }
}

/// The flag that says a burst is in flight, after an action, given what it
/// was before.
pub open spec fn flag_after(flag: bool, action: Action) -> bool {
    match action {
        Action::RapidClicking(value) => value,
        _ => flag,
    }
}

/// The flag after the first `count` of a series of turns, given what it was
/// before.
pub open spec fn flag_after_turns(
    task: RapidClickTask,
    flag: bool,
    turns: Seq<BurstTurn>,
    count: nat,
) -> bool
    decreases count,
{
    if count == 0 {
        flag
    } else {
        flag_after(
            flag_after_turns(task, flag, turns, (count - 1) as nat),
            task.action_of(turns, (count - 1) as nat),
        )
    }
}

/// The flag is up exactly while a burst is in flight: whatever the flag was
/// before, and whatever the global switch does, from the first turn of a
/// burst on the flag is up until the burst is over, and down from then on.
pub proof fn law_burst_flag_is_up_while_in_flight(
    task: RapidClickTask,
    flag: bool,
    turns: Seq<BurstTurn>,
    count: nat,
)
    requires
        task.phase == BurstPhase::Begin,
        count >= 1,
    ensures
        task.after_turns(turns, count).phase != BurstPhase::Begin,
        flag_after_turns(task, flag, turns, count) == (task.after_turns(turns, count).phase
            != BurstPhase::Done),
    decreases count,
{
    let before = (count - 1) as nat;
    lemma_one_turn(task, turns, before);
    if before > 0 {
        law_burst_flag_is_up_while_in_flight(task, flag, turns, before);
    }
}

} // verus!
