use digging_deeper::digging::DiggingStatus;
use digging_deeper::digging::RobotStatus;
use digging_deeper::digging::ShovelTimingSystem;
use digging_deeper::hole::HoleTile;
use digging_deeper::hole::SpriteTile;

#[test]
fn hole_tiles_track_the_digging_front() {
    let mut d = DiggingStatus::default();
    let tile = HoleTile;
    // Nothing dug: the front row shows height zero, rows below are untouched.
    assert_eq!(tile.sprite(0, 0, &d), Some(0));
    assert_eq!(tile.sprite(1, 0, &d), Some(0));
    assert_eq!(tile.sprite(0, 1, &d), Some(0));
    for _ in 0..6 {
        d.scoop(false);
    }
    // Depth 6: block 1 of row 0 is being dug, 2 scoops into it.
    assert_eq!(tile.sprite(0, 0, &d), Some(4));
    assert_eq!(tile.sprite(1, 0, &d), Some(2));
    assert_eq!(tile.sprite(2, 0, &d), Some(0));
    for _ in 0..22 {
        d.scoop(false);
    }
    // Depth 28: row 0 fully dug, row 1 is the front.
    assert_eq!(tile.sprite(0, 0, &d), Some(4));
    assert_eq!(tile.sprite(0, 1, &d), Some(0));
    // Deep rows use the second sprite bank.
    assert_eq!(tile.sprite(0, 16, &d), Some(16));
}

#[test]
fn overlay_sprites_follow_activities() {
    let mut d = DiggingStatus::default();
    let tile = SpriteTile;
    for _ in 0..5 {
        d.scoop(true);
    }
    // Depth 5: block index 1; the freshly dug block flashes the shovel.
    assert_eq!(tile.sprite(0, 0, &d), Some(9));
    ShovelTimingSystem::run(&mut d, 200);
    assert_eq!(tile.sprite(0, 0, &d), Some(8));
    for _ in 0..3 {
        d.scoop(true);
    }
    // Depth 8: block index 2; the robot appears two blocks back when idling.
    assert_eq!(tile.sprite(0, 0, &d), None);
    d.robot_status = RobotStatus::Idling;
    assert_eq!(tile.sprite(0, 0, &d), Some(12));
    for _ in 0..20 {
        d.scoop(false);
    }
    // Depth 28: block index 7; the drill appears one meter back.
    assert_eq!(tile.sprite(0, 0, &d), None);
    d.drill();
    assert_eq!(tile.sprite(0, 0, &d), Some(10));
}
