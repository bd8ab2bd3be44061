use vstd::prelude::*;

use crate::status::{
    ActivityAnnouncement, Announcements, TemperatureAnnouncement, TemperatureStatus, UserActivity,
};
use crate::units::{rounded_degrees, spec_rounded_degrees, COOLED_THRESHOLD, TEMPERATURE_RATE};

verus! {

/// The state of a burner controller, as mathematics sees it.
pub ghost struct BurnerModel {
    /// Target level in tenths of a degree; zero means off.
    pub goal: int,
    /// Current level in tenths of a degree.
    pub level: int,
    pub status: TemperatureStatus,
    pub activity: UserActivity,
}

impl BurnerModel {
    /// The level never goes below zero.
    pub open spec fn wf(self) -> bool {
        self.level >= 0
    }

    /// The state a controller starts in.
    pub open spec fn initial() -> BurnerModel {
        BurnerModel {
            goal: 0,
            level: 0,
            status: TemperatureStatus::Off,
            activity: UserActivity::Pending,
        }
    }

    /// A new goal. Setting the goal it already has changes nothing; setting
    /// zero records the switch-off and starts cooling at once; any other
    /// goal records that a goal was set.
    pub open spec fn with_goal(self, goal: int) -> BurnerModel {
        if goal == self.goal {
            self
        } else if goal == 0 {
            BurnerModel {
                goal,
                status: TemperatureStatus::CoolingOff,
                activity: UserActivity::BurnerTurnOff,
                ..self
            }
        } else {
            BurnerModel { goal, activity: UserActivity::TemperatureGoalSet, ..self }
        }
    }

    /// The status that classification derives. Of the rules, the later ones
    /// win: at zero level and zero goal the burner is off; switched off and
    /// under one degree it has cooled off; switched off otherwise it is
    /// cooling; then under, over, or at the goal, where a goal already
    /// announced stays announced.
    pub open spec fn classified_status(self) -> TemperatureStatus {
        if self.level == 0 && self.goal == 0 {
            TemperatureStatus::Off
        } else if self.level < COOLED_THRESHOLD && self.goal == 0 {
            TemperatureStatus::CooledOff
        } else if self.goal == 0 {
            TemperatureStatus::CoolingOff
        } else if self.level < self.goal {
            TemperatureStatus::UnderGoal
        } else if self.level > self.goal {
            TemperatureStatus::OverGoal
        } else if self.status != TemperatureStatus::Announced {
            TemperatureStatus::AtGoal
        } else {
            TemperatureStatus::Announced
        }
    }

    pub open spec fn classified(self) -> BurnerModel {
        BurnerModel { status: self.classified_status(), ..self }
    }

    /// The level one tick later under the current status: one step up,
    /// capped at the goal (and at zero from below); one step down, not below
    /// zero; straight to zero once cooled off; otherwise unchanged.
    pub open spec fn next_level(self) -> int {
        match self.status {
            TemperatureStatus::UnderGoal => {
                if self.level + TEMPERATURE_RATE <= self.goal {
                    self.level + TEMPERATURE_RATE
                } else if self.goal >= 0 {
                    self.goal
                } else {
                    0
                }
            },
            TemperatureStatus::OverGoal | TemperatureStatus::CoolingOff => {
                if self.level - TEMPERATURE_RATE >= 0 {
                    self.level - TEMPERATURE_RATE
                } else {
                    0
                }
            },
            TemperatureStatus::CooledOff => 0,
            _ => self.level,
        }
    }

    pub open spec fn integrated(self) -> BurnerModel {
        BurnerModel { level: self.next_level(), ..self }
    }

    /// The status after the announce phase: an entry that has just been
    /// announced moves to its announced form, and a cool-down announced on
    /// the tick before clears to off.
    pub open spec fn announced_status(self) -> TemperatureStatus {
        match self.status {
            TemperatureStatus::AtGoal => TemperatureStatus::Announced,
            TemperatureStatus::CooledOff => TemperatureStatus::CooledOffAnnounced,
            TemperatureStatus::CooledOffAnnounced => TemperatureStatus::Off,
            other => other,
        }
    }

    /// The activity after the announce phase: a pending user action is
    /// announced, and one announced on the tick before is cleared.
    pub open spec fn announced_activity(self) -> UserActivity {
        match self.activity {
            UserActivity::TemperatureGoalSet => UserActivity::TemperatureGoalAnnounced,
            UserActivity::BurnerTurnOff => UserActivity::BurnerTurnOffAnnounced,
            _ => UserActivity::Pending,
        }
    }

    pub open spec fn announced(self) -> BurnerModel {
        BurnerModel {
            status: self.announced_status(),
            activity: self.announced_activity(),
            ..self
        }
    }

    /// What the temperature channel says in the announce phase.
    pub open spec fn temperature_announcement(self) -> Option<TemperatureAnnouncement> {
        match self.status {
            TemperatureStatus::AtGoal => Some(
                TemperatureAnnouncement::Reached {
                    degrees: spec_rounded_degrees(self.level) as i64,
                },
            ),
            TemperatureStatus::CooledOff => Some(TemperatureAnnouncement::CooledDown),
            _ => None,
        }
    }

    /// What the user-activity channel says in the announce phase.
    pub open spec fn activity_announcement(self) -> Option<ActivityAnnouncement> {
        match self.activity {
            UserActivity::TemperatureGoalSet => Some(
                ActivityAnnouncement::GoalSet { degrees: spec_rounded_degrees(self.goal) as i64 },
            ),
            UserActivity::BurnerTurnOff => Some(ActivityAnnouncement::BurnerOff),
            _ => None,
        }
    }

    pub open spec fn announcements(self) -> Announcements {
        Announcements {
            temperature: self.temperature_announcement(),
            activity: self.activity_announcement(),
        }
    }

    /// One tick: classify, then integrate, then announce.
    pub open spec fn ticked(self) -> BurnerModel {
        self.classified().integrated().announced()
    }

    /// What one tick announces.
    pub open spec fn tick_announcements(self) -> Announcements {
        self.classified().integrated().announcements()
    }
}

} // verus!

verus! {

/// A burner controller: goal, level, status and pending activity, driven one
/// tick at a time by `update`.
pub struct Controller {
    goal: i64,
    level: i64,
    status: TemperatureStatus,
    activity: UserActivity,
}

impl View for Controller {
    type V = BurnerModel;

    closed spec fn view(&self) -> BurnerModel {
        BurnerModel {
            goal: self.goal as int,
            level: self.level as int,
            status: self.status,
            activity: self.activity,
        }
    }
}

impl Controller {
    /// A controller with the burner off: goal and level zero, nothing pending.
    pub fn new() -> (r: Controller)
        ensures
            r@ == BurnerModel::initial(),
    {
        Controller {
            goal: 0,
            level: 0,
            status: TemperatureStatus::Off,
            activity: UserActivity::Pending,
        }
    }

    /// Target level in tenths of a degree.
    pub fn goal(&self) -> (r: i64)
        ensures
            r == self@.goal,
    {
        self.goal
    }

    /// Current level in tenths of a degree.
    pub fn level(&self) -> (r: i64)
        ensures
            r == self@.level,
    {
        self.level
    }

    pub fn status(&self) -> (r: TemperatureStatus)
        ensures
            r == self@.status,
    {
        self.status
    }

    pub fn activity(&self) -> (r: UserActivity)
        ensures
            r == self@.activity,
    {
        self.activity
    }

    /// Records a new goal (in tenths of a degree). Announcing it is left to
    /// the next announce phase.
    pub fn set_temperature_goal(&mut self, goal: i64)
        ensures
            final(self)@ == old(self)@.with_goal(goal as int),
    {
        if self.goal != goal {
            self.goal = goal;
            if self.goal == 0 {
                self.activity = UserActivity::BurnerTurnOff;
                self.status = TemperatureStatus::CoolingOff;
            } else {
                self.activity = UserActivity::TemperatureGoalSet;
            }
        }
    }

    /// Moves the level by one step according to the current status.
    pub fn calc_temperature_level(&mut self)
        ensures
            final(self)@ == old(self)@.integrated(),
    {
        match self.status {
            TemperatureStatus::UnderGoal => {
                self.level = if self.level < self.goal {
                    self.level + TEMPERATURE_RATE
                } else if self.goal >= 0 {
                    self.goal
                } else {
                    0
                };
            },
            TemperatureStatus::OverGoal | TemperatureStatus::CoolingOff => {
                self.level = if self.level >= TEMPERATURE_RATE {
                    self.level - TEMPERATURE_RATE
                } else {
                    0
                };
            },
            TemperatureStatus::CooledOff => {
                self.level = 0;
            },
            TemperatureStatus::Off
            | TemperatureStatus::AtGoal
            | TemperatureStatus::Announced
            | TemperatureStatus::CooledOffAnnounced => {},
        }
    }

    /// Derives the status from level, goal and the previous status. The rules
    /// are applied in turn and a later one overrides an earlier one.
    pub fn calc_temperature_state(&mut self)
        ensures
            final(self)@ == old(self)@.classified(),
    {
        if self.level == self.goal && self.status != TemperatureStatus::Announced {
            self.status = TemperatureStatus::AtGoal;
        }
        if self.level > self.goal {
            self.status = TemperatureStatus::OverGoal;
        }
        if self.level < self.goal {
            self.status = TemperatureStatus::UnderGoal;
        }
        if self.goal == 0 {
            self.status = TemperatureStatus::CoolingOff;
        }
        if self.level < COOLED_THRESHOLD && self.goal == 0 {
            self.status = TemperatureStatus::CooledOff;
        }
        if self.level == 0 && self.goal == 0 {
            self.status = TemperatureStatus::Off;
        }
    }

    /// Says what the status and the activity call for, each at most once per
    /// entry, and moves each past what it has said.
    pub fn announce(&mut self) -> (r: Announcements)
        ensures
            final(self)@ == old(self)@.announced(),
            r == old(self)@.announcements(),
    {
        let temperature = match self.status {
            TemperatureStatus::AtGoal => {
                self.status = TemperatureStatus::Announced;
                Some(TemperatureAnnouncement::Reached { degrees: rounded_degrees(self.level) })
            },
            TemperatureStatus::CooledOff => {
                self.status = TemperatureStatus::CooledOffAnnounced;
                Some(TemperatureAnnouncement::CooledDown)
            },
            TemperatureStatus::CooledOffAnnounced => {
                self.status = TemperatureStatus::Off;
                None
            },
            TemperatureStatus::Off
            | TemperatureStatus::UnderGoal
            | TemperatureStatus::OverGoal
            | TemperatureStatus::Announced
            | TemperatureStatus::CoolingOff => None,
        };
        let activity = match self.activity {
            UserActivity::TemperatureGoalSet => {
                self.activity = UserActivity::TemperatureGoalAnnounced;
                Some(ActivityAnnouncement::GoalSet { degrees: rounded_degrees(self.goal) })
            },
            UserActivity::BurnerTurnOff => {
                self.activity = UserActivity::BurnerTurnOffAnnounced;
                Some(ActivityAnnouncement::BurnerOff)
            },
            UserActivity::TemperatureGoalAnnounced | UserActivity::BurnerTurnOffAnnounced => {
                self.activity = UserActivity::Pending;
                None
            },
            UserActivity::Pending => None,
        };
        Announcements { temperature, activity }
    }

    /// One tick: classify, integrate, announce. Returns what is to be said.
    /// After a tick the level lies between zero and the goal whenever the
    /// burner is heating toward, or holding at, the goal.
    pub fn update(&mut self) -> (r: Announcements)
        ensures
            final(self)@ == old(self)@.ticked(),
            r == old(self)@.tick_announcements(),
            old(self)@.wf() ==> final(self)@.wf(),
            final(self)@.status == TemperatureStatus::UnderGoal
                || final(self)@.status == TemperatureStatus::AtGoal
                || final(self)@.status == TemperatureStatus::Announced
                ==> final(self)@.level <= final(self)@.goal,
    {
        self.calc_temperature_state();
        self.calc_temperature_level();
        self.announce()
    }
}

} // verus!
