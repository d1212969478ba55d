use digging_deeper::digging::ActivityUnlock;
use digging_deeper::digging::DiggingError;
use digging_deeper::digging::DiggingStatus;
use digging_deeper::digging::DepthRenderSystem;
use digging_deeper::digging::DrillDiggingSystem;
use digging_deeper::digging::DrillStatus;
use digging_deeper::digging::ProgressionSystem;
use digging_deeper::digging::RobotRunningSystem;
use digging_deeper::digging::RobotStatus;
use digging_deeper::digging::ShovelTimingSystem;
use digging_deeper::digging::Bucket;
use digging_deeper::digging::BucketRenderSystem;
use digging_deeper::digging::Robot;
use digging_deeper::digging::RobotRenderSystem;
use digging_deeper::cards::Alertable;
use digging_deeper::cards::AlertState;
use digging_deeper::cards::DrillAlertState;
use digging_deeper::cards::RobotAlertState;

#[test]
fn shovel_scoops_reject_overflow_past_capacity() {
    let mut d = DiggingStatus::default();
    for _ in 0..30 {
        d.scoop(true);
    }
    assert_eq!(d.scoops(), 24);
    assert!(!d.can_scoop());
    assert_eq!(d.depth(), 30);
}

#[test]
fn eight_scoops_from_default() {
    let mut d = DiggingStatus::default();
    for _ in 0..8 {
        d.scoop(true);
    }
    assert!(d.can_scoop());
    assert_eq!(d.scoops_in_top_bucket(), 0);
    assert_eq!(d.depth(), 8);
}

#[test]
fn top_bucket_three_way_tie_break() {
    let mut d = DiggingStatus::default();
    for _ in 0..3 {
        d.scoop(true);
    }
    assert_eq!(d.scoops_in_top_bucket(), 3);
    for _ in 0..5 {
        d.scoop(true);
    }
    assert_eq!(d.scoops_in_top_bucket(), 0);
    for _ in 0..16 {
        d.scoop(true);
    }
    assert_eq!(d.scoops(), 24);
    assert_eq!(d.scoops_in_top_bucket(), 8);
}

#[test]
fn top_bucket_zero_after_empty_leaves_exact_multiple() {
    let mut d = DiggingStatus::default();
    for _ in 0..16 {
        d.scoop(true);
    }
    assert_eq!(d.empty_bucket(), Ok(()));
    assert_eq!(d.scoops(), 8);
    assert_eq!(d.scoops_in_top_bucket(), 0);
}

#[test]
fn empty_bucket_without_full_bucket_fails() {
    let mut d = DiggingStatus::default();
    for _ in 0..7 {
        d.scoop(true);
    }
    assert_eq!(d.empty_bucket(), Err(DiggingError::NoFullBucket));
    assert_eq!(d.scoops(), 7);
}

#[test]
fn depth_never_decreases() {
    let mut d = DiggingStatus::default();
    let mut last = d.depth();
    for i in 0..40 {
        d.scoop(i % 3 == 0);
        assert!(d.depth() >= last);
        last = d.depth();
    }
}

#[test]
fn progress_fires_once_per_threshold() {
    let mut d = DiggingStatus::default();
    assert_eq!(d.progress_checks(), 14);
    for _ in 0..13 {
        d.scoop(false);
        assert_eq!(d.progress(), 0);
    }
    d.scoop(false);
    assert_eq!(d.depth(), 14);
    assert_eq!(d.progress(), 1);
    assert_eq!(d.progress(), 0);
    for _ in 0..13 {
        d.scoop(false);
        assert_eq!(d.progress(), 0);
    }
    d.scoop(false);
    assert_eq!(d.depth(), 28);
    assert_eq!(d.progress(), 2);
    assert_eq!(d.progress(), 0);
}

#[test]
fn progression_system_unlocks_drill_then_robot() {
    let mut d = DiggingStatus::default();
    let mut alerts: Vec<Alertable> = Vec::new();
    let mut unlocks: Vec<ActivityUnlock> = Vec::new();
    for _ in 0..28 {
        d.scoop(false);
        if let Some(u) = ProgressionSystem::run(&mut d, &mut alerts) {
            unlocks.push(u);
        }
    }
    assert_eq!(unlocks, vec![ActivityUnlock::Drill, ActivityUnlock::Robot]);
    assert_eq!(alerts.len(), 2);
    assert!(matches!(
        alerts[0].state,
        AlertState::Drill(DrillAlertState::Ready)
    ));
    assert!(matches!(
        alerts[1].state,
        AlertState::Robot(RobotAlertState::CaptchaNeeded)
    ));
    assert!(matches!(d.drill_status(), DrillStatus::Idling));
    assert!(matches!(d.robot_status(), RobotStatus::Idling));
    assert!(ProgressionSystem::run(&mut d, &mut alerts).is_none());
    assert_eq!(alerts.len(), 2);
}

#[test]
fn drill_run_digs_on_schedule() {
    let mut d = DiggingStatus::default();
    d.drill();
    assert!(matches!(
        d.drill_status(),
        DrillStatus::Running {
            time_left: 10000,
            partial_scoops: 0
        }
    ));
    let scooped = DrillDiggingSystem::run(&mut d, 100);
    assert!(!scooped);
    assert_eq!(d.depth(), 0);
    let scooped = DrillDiggingSystem::run(&mut d, 150);
    assert!(scooped);
    assert_eq!(d.depth(), 1);
    assert_eq!(d.scoops(), 0);
}

#[test]
fn drill_run_expires_to_idle() {
    let mut d = DiggingStatus::default();
    d.drill();
    DrillDiggingSystem::run(&mut d, 10001);
    assert!(matches!(d.drill_status(), DrillStatus::Idling));
}

#[test]
fn robot_run_drains_and_expires() {
    let mut d = DiggingStatus::default();
    for _ in 0..8 {
        d.scoop(true);
    }
    d.solve_captcha();
    let expired = RobotRunningSystem::run(&mut d, 2000);
    assert!(!expired);
    assert_eq!(d.scoops(), 0);
    for _ in 0..8 {
        d.scoop(true);
    }
    let expired = RobotRunningSystem::run(&mut d, 8001);
    assert!(expired);
    assert_eq!(d.scoops(), 0);
    assert!(matches!(d.robot_status(), RobotStatus::Idling));
}

#[test]
fn robot_run_expires_even_without_a_full_bucket() {
    let mut d = DiggingStatus::default();
    d.solve_captcha();
    let expired = RobotRunningSystem::run(&mut d, 20000);
    assert!(expired);
    assert!(matches!(d.robot_status(), RobotStatus::Idling));
    assert_eq!(d.scoops(), 0);
}

#[test]
fn robot_forfeits_accrued_unit_without_a_full_bucket() {
    let mut d = DiggingStatus::default();
    for _ in 0..7 {
        d.scoop(true);
    }
    d.solve_captcha();
    // A full unit accrues, but with no full bucket there is nothing to
    // drain: the unit is forfeited and the timer keeps counting down.
    let expired = RobotRunningSystem::run(&mut d, 2500);
    assert!(!expired);
    assert_eq!(d.scoops(), 7);
    assert!(matches!(
        d.robot_status(),
        RobotStatus::Running {
            time_left: 7500,
            partial_buckets: 500
        }
    ));
}

#[test]
fn shovel_timer_advances_and_saturates() {
    let mut d = DiggingStatus::default();
    assert_eq!(d.time_since_shovel(), 1000);
    ShovelTimingSystem::run(&mut d, 500);
    assert_eq!(d.time_since_shovel(), 1500);
    d.scoop(true);
    assert_eq!(d.time_since_shovel(), 0);
    ShovelTimingSystem::run(&mut d, u32::MAX);
    ShovelTimingSystem::run(&mut d, u32::MAX);
    assert_eq!(d.time_since_shovel(), u32::MAX);
}

#[test]
fn depth_string_values() {
    let mut d = DiggingStatus::default();
    assert_eq!(d.get_depth_string(), "0.000");
    d.scoop(false);
    assert_eq!(d.get_depth_string(), "0.036");
    for _ in 0..27 {
        d.scoop(false);
    }
    assert_eq!(d.get_depth_string(), "1.000");
    assert_eq!(
        DepthRenderSystem::run(&d),
        "Current Depth: 1.000".to_string()
    );
}

#[test]
fn bucket_gauges_follow_fill() {
    let mut d = DiggingStatus::default();
    for _ in 0..9 {
        d.scoop(true);
    }
    assert_eq!(BucketRenderSystem::run(&d, &Bucket { index: 0 }), (true, true));
    assert_eq!(BucketRenderSystem::run(&d, &Bucket { index: 1 }), (true, false));
    assert_eq!(BucketRenderSystem::run(&d, &Bucket { index: 3 }), (false, false));
}

#[test]
fn robot_gauge_shows_only_while_running() {
    let mut d = DiggingStatus::default();
    let robot = Robot { index: 0 };
    assert_eq!(RobotRenderSystem::run(&d, &robot), (false, false));
    for _ in 0..8 {
        d.scoop(true);
    }
    d.solve_captcha();
    assert_eq!(RobotRenderSystem::run(&d, &robot), (true, false));
    RobotRunningSystem::run(&mut d, 1500);
    assert_eq!(RobotRenderSystem::run(&d, &robot), (true, true));
}
