use vstd::prelude::*;

use crate::controller::BurnerModel;
use crate::status::{ActivityAnnouncement, TemperatureAnnouncement, TemperatureStatus, UserActivity};
use crate::units::COOLED_THRESHOLD;

verus! {

/// The state after `n` ticks with no goal change in between.
pub open spec fn run(m: BurnerModel, n: nat) -> BurnerModel
    decreases n,
{
    if n == 0 {
        m
    } else {
        run(m, (n - 1) as nat).ticked()
    }
}

/// How many of the first `n` ticks announce that the goal was reached.
pub open spec fn reached_count(m: BurnerModel, n: nat) -> nat
    decreases n,
{
    if n == 0 {
        0
    } else {
        reached_count(m, (n - 1) as nat) + match run(
            m,
            (n - 1) as nat,
        ).tick_announcements().temperature {
            Some(TemperatureAnnouncement::Reached { .. }) => 1nat,
            _ => 0nat,
        }
    }
}

/// How many of the first `n` ticks announce that the burner cooled down.
pub open spec fn cooled_count(m: BurnerModel, n: nat) -> nat
    decreases n,
{
    if n == 0 {
        0
    } else {
        cooled_count(m, (n - 1) as nat) + match run(
            m,
            (n - 1) as nat,
        ).tick_announcements().temperature {
            Some(TemperatureAnnouncement::CooledDown) => 1nat,
            _ => 0nat,
        }
    }
}

/// Heating phase: while the level is below a positive goal, each tick
/// raises it by one step and says nothing on the temperature channel.
proof fn lemma_heating(m: BurnerModel, k: nat)
    requires
        m.wf(),
        m.goal > 0,
        m.level < m.goal,
        0 < k <= m.goal - m.level,
    ensures
        run(m, k).level == m.level + k,
        run(m, k).goal == m.goal,
        run(m, k).status == TemperatureStatus::UnderGoal,
        reached_count(m, k) == 0,
    decreases k,
{
    if k > 1 {
        lemma_heating(m, (k - 1) as nat);
    }
    let p = run(m, (k - 1) as nat);
    assert(p.level == m.level + k - 1 && p.goal == m.goal);
    assert(p.classified().status == TemperatureStatus::UnderGoal);
    assert(p.classified().integrated().level == m.level + k);
    assert(run(m, k) == p.ticked());
    assert(p.tick_announcements().temperature == None::<TemperatureAnnouncement>);
    assert(reached_count(m, 0) == 0);
    assert(reached_count(m, (k - 1) as nat) == 0);
    assert(reached_count(m, k) == reached_count(m, (k - 1) as nat));
}

/// Holding phase: once announced at the goal, the status stays announced and
/// nothing more is said on the temperature channel.
proof fn lemma_holding(m: BurnerModel, start: nat, n: nat)
    requires
        start <= n,
        run(m, start).status == TemperatureStatus::Announced,
        run(m, start).level == run(m, start).goal,
        run(m, start).goal > 0,
    ensures
        run(m, n).status == TemperatureStatus::Announced,
        run(m, n).goal == run(m, start).goal,
        run(m, n).level == run(m, start).level,
        reached_count(m, n) == reached_count(m, start),
    decreases n - start,
{
    if n > start {
        lemma_holding(m, start, (n - 1) as nat);
        let p = run(m, (n - 1) as nat);
        assert(p.classified() == p);
        assert(p.classified().integrated() == p);
        assert(p.tick_announcements().temperature == None::<TemperatureAnnouncement>);
    }
}

/// Heating from a level below a positive goal, the level reaches the goal
/// after one tick per step; the next tick announces it, once, with the goal
/// in whole degrees; from then on, while the goal is unchanged, the status
/// stays announced and no further arrival is announced.
pub proof fn lemma_reaches_goal_once(m: BurnerModel)
    requires
        m.wf(),
        m.goal > 0,
        m.level < m.goal,
    ensures
        run(m, (m.goal - m.level) as nat).level == m.goal,
        run(m, (m.goal - m.level) as nat).tick_announcements().temperature == Some(
            TemperatureAnnouncement::Reached { degrees: crate::units::spec_rounded_degrees(m.goal) as i64 },
        ),
        forall|n: nat|
            n > m.goal - m.level ==> {
                &&& #[trigger] run(m, n).status == TemperatureStatus::Announced
                &&& run(m, n).level == m.goal
                &&& reached_count(m, n) == 1
            },
{
    let k = (m.goal - m.level) as nat;
    lemma_heating(m, k);
    assert(reached_count(m, k + 1) == 1);
    assert forall|n: nat| n > m.goal - m.level implies {
        &&& #[trigger] run(m, n).status == TemperatureStatus::Announced
        &&& run(m, n).level == m.goal
        &&& reached_count(m, n) == 1
    } by {
        lemma_holding(m, k + 1, n);
    }
}

/// The number of ticks a burner switched off at `level` (tenths) takes to
/// reach the cooled-off announcement: one per step down to just under one
/// degree, and one more.
pub open spec fn cooling_ticks(level: int) -> nat {
    if level >= COOLED_THRESHOLD {
        (level - COOLED_THRESHOLD + 2) as nat
    } else {
        1
    }
}

/// Cooling phase: while at least one degree remains, each tick lowers the
/// level by one step, keeps cooling, and says nothing on the temperature
/// channel.
proof fn lemma_cooling(t: BurnerModel, j: nat)
    requires
        t.goal == 0,
        t.level > 0,
        t.status == TemperatureStatus::CoolingOff,
        j < cooling_ticks(t.level),
    ensures
        run(t, j).level == t.level - j,
        run(t, j).goal == 0,
        run(t, j).status == TemperatureStatus::CoolingOff,
        cooled_count(t, j) == 0,
    decreases j,
{
    if j > 0 {
        lemma_cooling(t, (j - 1) as nat);
        let p = run(t, (j - 1) as nat);
        assert(p.classified().status == TemperatureStatus::CoolingOff);
        assert(p.tick_announcements().temperature == None::<TemperatureAnnouncement>);
        assert(run(t, j) == p.ticked());
    }
}

/// Once off at zero goal and zero level, the burner stays off and says
/// nothing on the temperature channel.
proof fn lemma_staying_off(t: BurnerModel, start: nat, n: nat)
    requires
        start <= n,
        run(t, start).status == TemperatureStatus::Off,
        run(t, start).goal == 0,
        run(t, start).level == 0,
    ensures
        run(t, n).status == TemperatureStatus::Off,
        run(t, n).goal == 0,
        run(t, n).level == 0,
        cooled_count(t, n) == cooled_count(t, start),
    decreases n - start,
{
    if n > start {
        lemma_staying_off(t, start, (n - 1) as nat);
        let p = run(t, (n - 1) as nat);
        assert(p.tick_announcements().temperature == None::<TemperatureAnnouncement>);
    }
}

/// Switching a heated burner off (goal zero, from a nonzero goal) sets the
/// status to cooling at once and announces the switch-off on the next tick.
/// The level then falls one step per tick while cooling; the tick on which
/// it is found under one degree classifies it as cooled off, drops it to
/// zero and announces the cool-down; the tick after that turns the burner
/// off, and it stays off. The cool-down is announced exactly once.
pub proof fn lemma_switch_off_cools_down(m: BurnerModel)
    requires
        m.wf(),
        m.goal != 0,
        m.level > 0,
    ensures
        ({
            let t = m.with_goal(0);
            let k = cooling_ticks(m.level);
            &&& t.status == TemperatureStatus::CoolingOff
            &&& t.tick_announcements().activity == Some(ActivityAnnouncement::BurnerOff)
            &&& forall|j: nat|
                j < k ==> #[trigger] run(t, j).status == TemperatureStatus::CoolingOff
                    && run(t, j).level == m.level - j
            &&& run(t, (k - 1) as nat).level < COOLED_THRESHOLD
            &&& run(t, (k - 1) as nat).classified().status == TemperatureStatus::CooledOff
            &&& run(t, k).status == TemperatureStatus::CooledOffAnnounced
            &&& run(t, k).level == 0
            &&& run(t, k + 1).status == TemperatureStatus::Off
            &&& forall|n: nat|
                n > k ==> #[trigger] run(t, n).status == TemperatureStatus::Off
                    && cooled_count(t, n) == 1
        }),
{
    let t = m.with_goal(0);
    let k = cooling_ticks(m.level);
    assert(t.classified().integrated().activity == UserActivity::BurnerTurnOff);
    assert forall|j: nat| j < k implies #[trigger] run(t, j).status
        == TemperatureStatus::CoolingOff && run(t, j).level == m.level - j by {
        lemma_cooling(t, j);
    }
    lemma_cooling(t, (k - 1) as nat);
    let p = run(t, (k - 1) as nat);
    assert(p.classified().status == TemperatureStatus::CooledOff);
    assert(run(t, k) == p.ticked());
    assert(cooled_count(t, k) == 1);
    let q = run(t, k);
    assert(q.classified().status == TemperatureStatus::Off);
    assert(run(t, k + 1) == q.ticked());
    assert(cooled_count(t, k + 1) == 1);
    assert forall|n: nat| n > k implies #[trigger] run(t, n).status == TemperatureStatus::Off
        && cooled_count(t, n) == 1 by {
        lemma_staying_off(t, k + 1, n);
    }
}

/// Setting the same goal twice is the same as setting it once: the second
/// call records no activity and so leads to no announcement.
pub proof fn lemma_set_goal_twice(m: BurnerModel, goal: int)
    ensures
        m.with_goal(goal).with_goal(goal) == m.with_goal(goal),
{
}

/// No step lets the level go negative, and after any tick the level lies
/// within zero and the goal whenever the burner is heating toward, at, or
/// holding at the goal.
pub proof fn lemma_level_bounds(m: BurnerModel, goal: int)
    requires
        m.wf(),
    ensures
        m.with_goal(goal).wf(),
        m.classified().wf(),
        m.integrated().wf(),
        m.announced().wf(),
        m.ticked().wf(),
        ({
            let s = m.ticked().status;
            s == TemperatureStatus::UnderGoal || s == TemperatureStatus::AtGoal || s
                == TemperatureStatus::Announced
        }) ==> m.ticked().level <= m.ticked().goal,
{
}

/// Along any run of ticks from a state whose level is not negative, the
/// level stays within zero and the goal whenever the burner is heating
/// toward, at, or holding at the goal.
pub proof fn lemma_run_level_bounds(m: BurnerModel, n: nat)
    requires
        m.wf(),
    ensures
        run(m, n).wf(),
        n > 0 && (run(m, n).status == TemperatureStatus::UnderGoal || run(m, n).status
            == TemperatureStatus::AtGoal || run(m, n).status == TemperatureStatus::Announced)
            ==> run(m, n).level <= run(m, n).goal,
    decreases n,
{
    if n > 0 {
        lemma_run_level_bounds(m, (n - 1) as nat);
        lemma_level_bounds(run(m, (n - 1) as nat), 0);
    }
}

} // verus!
