use vstd::prelude::*;

verus! {

/// Where the level stands against the goal, as last classified.
#[derive(Clone, Copy, Debug, PartialEq, Eq, Structural)]
pub enum TemperatureStatus {
    Off,
    UnderGoal,
    OverGoal,
    AtGoal,
    Announced,
    CoolingOff,
    CooledOff,
    CooledOffAnnounced,
}

/// A user action that is still to be announced, or has just been.
#[derive(Clone, Copy, Debug, PartialEq, Eq, Structural)]
pub enum UserActivity {
    Pending,
    TemperatureGoalSet,
    TemperatureGoalAnnounced,
    BurnerTurnOff,
    BurnerTurnOffAnnounced,
}

/// What the temperature channel says.
#[derive(Clone, Copy, Debug, PartialEq, Eq, Structural)]
pub enum TemperatureAnnouncement {
    /// The goal was reached; the level in whole degrees.
    Reached { degrees: i64 },
    /// The burner, switched off, has cooled down.
    CooledDown,
}

/// What the user-activity channel says.
#[derive(Clone, Copy, Debug, PartialEq, Eq, Structural)]
pub enum ActivityAnnouncement {
    /// A new goal was set; the goal in whole degrees.
    GoalSet { degrees: i64 },
    /// The burner was switched off and is cooling down.
    BurnerOff,
}

/// What one announce phase has to say, temperature channel first.
#[derive(Clone, Copy, Debug, PartialEq, Eq, Structural)]
pub struct Announcements {
    pub temperature: Option<TemperatureAnnouncement>,
    pub activity: Option<ActivityAnnouncement>,
}

} // verus!
