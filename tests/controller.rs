use sbaitso::{
    rounded_degrees, ActivityAnnouncement, Announcements, Controller, TemperatureAnnouncement,
    TemperatureStatus, UserActivity,
};

fn silent() -> Announcements {
    Announcements { temperature: None, activity: None }
}

fn reached(a: &Announcements) -> bool {
    matches!(a.temperature, Some(TemperatureAnnouncement::Reached { .. }))
}

fn cooled(a: &Announcements) -> bool {
    matches!(a.temperature, Some(TemperatureAnnouncement::CooledDown))
}

#[test]
fn new_controller_is_off() {
    let c = Controller::new();
    assert_eq!(c.goal(), 0);
    assert_eq!(c.level(), 0);
    assert_eq!(c.status(), TemperatureStatus::Off);
    assert_eq!(c.activity(), UserActivity::Pending);
}

#[test]
fn idle_controller_stays_off_and_silent() {
    let mut c = Controller::new();
    for _ in 0..5 {
        assert_eq!(c.update(), silent());
    }
    assert_eq!(c.level(), 0);
    assert_eq!(c.status(), TemperatureStatus::Off);
}

#[test]
fn rounding_to_whole_degrees() {
    assert_eq!(rounded_degrees(0), 0);
    assert_eq!(rounded_degrees(1000), 100);
    assert_eq!(rounded_degrees(1004), 100);
    assert_eq!(rounded_degrees(1005), 101);
    assert_eq!(rounded_degrees(-5), -1);
    assert_eq!(rounded_degrees(-4), 0);
    assert_eq!(rounded_degrees(-25), -3);
    assert_eq!(rounded_degrees(i64::MAX), 922_337_203_685_477_581);
    assert_eq!(rounded_degrees(i64::MIN), -922_337_203_685_477_581);
}

#[test]
fn goal_of_one_hundred_reached_after_one_thousand_ticks() {
    let mut c = Controller::new();
    c.set_temperature_goal(1000);
    let mut reached_ticks = 0;
    for tick in 1..=1000 {
        let a = c.update();
        if tick == 1 {
            assert_eq!(a.activity, Some(ActivityAnnouncement::GoalSet { degrees: 100 }));
        }
        if reached(&a) {
            reached_ticks += 1;
        }
        assert_eq!(c.level(), tick);
    }
    assert_eq!(c.level(), 1000);
    assert_eq!(reached_ticks, 0);
    let a = c.update();
    assert_eq!(a.temperature, Some(TemperatureAnnouncement::Reached { degrees: 100 }));
    assert_eq!(c.status(), TemperatureStatus::Announced);
    for _ in 0..500 {
        let a = c.update();
        assert!(!reached(&a));
        assert_eq!(c.status(), TemperatureStatus::Announced);
        assert_eq!(c.level(), 1000);
    }
}

#[test]
fn small_goal_announced_exactly_once() {
    let mut c = Controller::new();
    c.set_temperature_goal(3);
    let mut count = 0;
    for _ in 0..20 {
        if reached(&c.update()) {
            count += 1;
        }
    }
    assert_eq!(count, 1);
    assert_eq!(c.level(), 3);
    assert_eq!(c.status(), TemperatureStatus::Announced);
}

#[test]
fn switching_off_cools_down_then_turns_off() {
    let mut c = Controller::new();
    c.set_temperature_goal(250);
    for _ in 0..300 {
        c.update();
    }
    assert_eq!(c.level(), 250);
    c.set_temperature_goal(0);
    assert_eq!(c.status(), TemperatureStatus::CoolingOff);
    assert_eq!(c.activity(), UserActivity::BurnerTurnOff);
    let a = c.update();
    assert_eq!(a.activity, Some(ActivityAnnouncement::BurnerOff));
    assert_eq!(c.level(), 249);
    // down to 9 tenths after 241 ticks, while cooling
    for _ in 1..241 {
        let a = c.update();
        assert!(!cooled(&a));
        assert_eq!(c.status(), TemperatureStatus::CoolingOff);
    }
    assert_eq!(c.level(), 9);
    let a = c.update();
    assert_eq!(a.temperature, Some(TemperatureAnnouncement::CooledDown));
    assert_eq!(c.status(), TemperatureStatus::CooledOffAnnounced);
    assert_eq!(c.level(), 0);
    let a = c.update();
    assert_eq!(a, silent());
    assert_eq!(c.status(), TemperatureStatus::Off);
    for _ in 0..10 {
        assert!(!cooled(&c.update()));
        assert_eq!(c.status(), TemperatureStatus::Off);
    }
}

#[test]
fn setting_same_goal_twice_changes_nothing() {
    let mut c = Controller::new();
    c.set_temperature_goal(500);
    c.update();
    c.update();
    assert_eq!(c.activity(), UserActivity::Pending);
    let level = c.level();
    let status = c.status();
    c.set_temperature_goal(500);
    assert_eq!(c.activity(), UserActivity::Pending);
    assert_eq!(c.level(), level);
    assert_eq!(c.status(), status);
    assert_eq!(c.update().activity, None);
}

#[test]
fn goal_announcement_cycles_back_to_pending() {
    let mut c = Controller::new();
    c.set_temperature_goal(42);
    assert_eq!(c.activity(), UserActivity::TemperatureGoalSet);
    let a = c.update();
    assert_eq!(a.activity, Some(ActivityAnnouncement::GoalSet { degrees: 4 }));
    assert_eq!(c.activity(), UserActivity::TemperatureGoalAnnounced);
    assert_eq!(c.update().activity, None);
    assert_eq!(c.activity(), UserActivity::Pending);
}

#[test]
fn level_stays_within_goal_while_heating() {
    let mut c = Controller::new();
    c.set_temperature_goal(37);
    for _ in 0..100 {
        c.update();
        assert!(c.level() >= 0);
        let s = c.status();
        if s == TemperatureStatus::UnderGoal
            || s == TemperatureStatus::AtGoal
            || s == TemperatureStatus::Announced
        {
            assert!(c.level() <= c.goal());
        }
    }
}

#[test]
fn goal_set_then_switched_off_announces_both() {
    let mut c = Controller::new();
    c.set_temperature_goal(1000);
    let a = c.update();
    assert_eq!(a.activity, Some(ActivityAnnouncement::GoalSet { degrees: 100 }));
    for _ in 1..50 {
        c.update();
    }
    assert_eq!(c.level(), 50);
    c.set_temperature_goal(0);
    let a = c.update();
    assert_eq!(a.activity, Some(ActivityAnnouncement::BurnerOff));
    assert_eq!(c.level(), 49);
    let mut ticks = 1;
    while c.status() != TemperatureStatus::Off {
        c.update();
        ticks += 1;
        assert!(ticks < 100);
    }
    assert_eq!(c.level(), 0);
    assert_eq!(ticks, 43);
}

#[test]
fn lowering_goal_cools_to_new_goal() {
    let mut c = Controller::new();
    c.set_temperature_goal(30);
    for _ in 0..40 {
        c.update();
    }
    assert_eq!(c.status(), TemperatureStatus::Announced);
    c.set_temperature_goal(20);
    let a = c.update();
    assert_eq!(a.activity, Some(ActivityAnnouncement::GoalSet { degrees: 2 }));
    assert_eq!(c.status(), TemperatureStatus::OverGoal);
    assert_eq!(c.level(), 29);
    for _ in 0..9 {
        c.update();
    }
    assert_eq!(c.level(), 20);
    let a = c.update();
    assert_eq!(a.temperature, Some(TemperatureAnnouncement::Reached { degrees: 2 }));
    assert_eq!(c.status(), TemperatureStatus::Announced);
}

#[test]
fn negative_goal_settles_at_zero() {
    let mut c = Controller::new();
    c.set_temperature_goal(15);
    for _ in 0..20 {
        c.update();
    }
    c.set_temperature_goal(-15);
    let a = c.update();
    assert_eq!(a.activity, Some(ActivityAnnouncement::GoalSet { degrees: -2 }));
    for _ in 0..30 {
        c.update();
    }
    assert_eq!(c.level(), 0);
    assert_eq!(c.status(), TemperatureStatus::OverGoal);
}

#[test]
fn single_phases_follow_the_table() {
    let mut c = Controller::new();
    c.set_temperature_goal(20);
    c.calc_temperature_state();
    assert_eq!(c.status(), TemperatureStatus::UnderGoal);
    c.calc_temperature_level();
    assert_eq!(c.level(), 1);
    let a = c.announce();
    assert_eq!(a.temperature, None);
    assert_eq!(a.activity, Some(ActivityAnnouncement::GoalSet { degrees: 2 }));
}

#[test]
fn goal_set_announced_before_immediate_switch_off() {
    let mut c = Controller::new();
    c.set_temperature_goal(1000);
    let a = c.update();
    assert_eq!(a.activity, Some(ActivityAnnouncement::GoalSet { degrees: 100 }));
    assert_eq!(c.level(), 1);
    c.set_temperature_goal(0);
    let a = c.update();
    assert_eq!(a.activity, Some(ActivityAnnouncement::BurnerOff));
    assert_eq!(a.temperature, Some(TemperatureAnnouncement::CooledDown));
    assert_eq!(c.level(), 0);
    assert_eq!(c.update(), silent());
    assert_eq!(c.status(), TemperatureStatus::Off);
}
