use digging_deeper::cards::bucket::BucketState;
use digging_deeper::cards::bucket::BucketUpdateSystem;
use digging_deeper::cards::bucket::BucketRenderingSystem;
use digging_deeper::cards::ActiveCard;
use digging_deeper::cards::Alertable;
use digging_deeper::cards::AlertState;
use digging_deeper::cards::AlertableRenderSystem;
use digging_deeper::cards::AlertableUpdateSystem;
use digging_deeper::cards::bucket::BucketAlertState;
use digging_deeper::cards::CardControl;
use digging_deeper::cards::CardInputSystem;
use digging_deeper::cards::CardSlot;
use digging_deeper::cards::CardSpawningSystem;
use digging_deeper::cards::CardsBundle;
use digging_deeper::cards::DiggingCard;
use digging_deeper::cards::DrillAlertState;
use digging_deeper::cards::DrillAxes;
use digging_deeper::cards::DrillRenderingSystem;
use digging_deeper::cards::DrillState;
use digging_deeper::cards::DrillUpdateSystem;
use digging_deeper::cards::PulleyState;
use digging_deeper::cards::ShovelAlertState;
use digging_deeper::cards::ShovelRenderingSystem;
use digging_deeper::cards::ShovelState;
use digging_deeper::cards::UiEvent;
use digging_deeper::cards::UiEventKind;
use digging_deeper::cards::get_card_entity;
use digging_deeper::cards::parse_control;
use digging_deeper::digging::DiggingBundle;
use digging_deeper::digging::DiggingStatus;

fn shovel_alert() -> Alertable {
    Alertable {
        state: AlertState::Shovel(ShovelAlertState::Ready),
        clicked: false,
    }
}

fn bucket_alert() -> Alertable {
    Alertable {
        state: AlertState::Bucket(BucketAlertState::Empty),
        clicked: false,
    }
}

fn slot_with(entity: usize, card: DiggingCard) -> CardSlot {
    CardSlot {
        active: Some(ActiveCard { entity, card }),
    }
}

#[test]
fn clicks_mark_only_targeted_alerts() {
    let mut alerts = vec![shovel_alert(), bucket_alert()];
    let entities = vec![10usize, 20usize];
    let events = vec![
        UiEvent {
            kind: UiEventKind::Click,
            target: 20,
            control: CardControl::Other,
        },
        UiEvent {
            kind: UiEventKind::ClickStart,
            target: 10,
            control: CardControl::Other,
        },
    ];
    AlertableUpdateSystem::run(&mut alerts, &entities, &events);
    assert!(!alerts[0].clicked);
    assert!(alerts[1].clicked);
    let events: Vec<UiEvent> = Vec::new();
    AlertableUpdateSystem::run(&mut alerts, &entities, &events);
    assert!(!alerts[0].clicked);
    assert!(!alerts[1].clicked);
}

#[test]
fn alert_refresh_follows_account() {
    let mut d = DiggingStatus::default();
    let mut alerts = vec![shovel_alert(), bucket_alert()];
    AlertableRenderSystem::run(&mut alerts, &d);
    assert!(matches!(
        alerts[0].state,
        AlertState::Shovel(ShovelAlertState::Ready)
    ));
    assert!(matches!(
        alerts[1].state,
        AlertState::Bucket(BucketAlertState::Empty)
    ));
    for _ in 0..24 {
        d.scoop(true);
    }
    AlertableRenderSystem::run(&mut alerts, &d);
    assert!(matches!(
        alerts[0].state,
        AlertState::Shovel(ShovelAlertState::NoBuckets)
    ));
    assert!(matches!(
        alerts[1].state,
        AlertState::Bucket(BucketAlertState::Filled(8))
    ));
}

#[test]
fn clicked_alert_spawns_its_card() {
    let mut alerts = vec![shovel_alert()];
    alerts[0].clicked = true;
    let mut slot = CardSlot { active: None };
    let clicked = CardSpawningSystem::run(&alerts, &mut slot, 7);
    assert!(clicked);
    assert_eq!(
        slot.active,
        Some(ActiveCard {
            entity: 7,
            card: DiggingCard::Shovel(ShovelState { click_progress: 0 }),
        })
    );
}

#[test]
fn click_on_busy_drill_alert_only_clears_card() {
    let mut alerts = vec![Alertable {
        state: AlertState::Drill(DrillAlertState::Drilling(500)),
        clicked: true,
    }];
    let mut slot = slot_with(3, DiggingCard::Pulley(PulleyState::Waiting));
    let clicked = CardSpawningSystem::run(&mut alerts, &mut slot, 9);
    assert!(clicked);
    assert_eq!(slot.active, None);
}

#[test]
fn unclicked_alerts_spawn_nothing() {
    let alerts = vec![shovel_alert(), bucket_alert()];
    let mut slot = slot_with(3, DiggingCard::Pulley(PulleyState::Waiting));
    let clicked = CardSpawningSystem::run(&alerts, &mut slot, 9);
    assert!(!clicked);
    assert_eq!(
        slot.active,
        Some(ActiveCard {
            entity: 3,
            card: DiggingCard::Pulley(PulleyState::Waiting),
        })
    );
}

#[test]
fn card_entity_resolves_through_parents() {
    let slot = slot_with(1, DiggingCard::Shovel(ShovelState { click_progress: 0 }));
    // 3 -> 2 -> 1 (card owner); 4 has no parent; 5 <-> 6 is a cycle.
    let parents = vec![None, None, Some(1), Some(2), None, Some(6), Some(5)];
    assert_eq!(get_card_entity(3, &slot, &parents), Some(1));
    assert_eq!(get_card_entity(1, &slot, &parents), Some(1));
    assert_eq!(get_card_entity(4, &slot, &parents), None);
    assert_eq!(get_card_entity(5, &slot, &parents), None);
    let empty = CardSlot { active: None };
    assert_eq!(get_card_entity(3, &empty, &parents), None);
}

#[test]
fn shovel_click_digs_and_full_account_ends_card() {
    let mut d = DiggingStatus::default();
    for _ in 0..23 {
        d.scoop(true);
    }
    let mut slot = slot_with(1, DiggingCard::Shovel(ShovelState { click_progress: 0 }));
    let parents = vec![None, None, Some(1)];
    let events = vec![UiEvent {
        kind: UiEventKind::Click,
        target: 2,
        control: CardControl::ShovelDirt,
    }];
    CardInputSystem::run(&mut d, &mut slot, &parents, &events);
    assert_eq!(d.scoops(), 24);
    assert_eq!(d.depth(), 24);
    assert_eq!(slot.active, None);
}

#[test]
fn shovel_click_keeps_card_while_capacity_remains() {
    let mut d = DiggingStatus::default();
    let mut slot = slot_with(1, DiggingCard::Shovel(ShovelState { click_progress: 0 }));
    let parents = vec![None, None];
    let events = vec![UiEvent {
        kind: UiEventKind::Click,
        target: 1,
        control: CardControl::ShovelDirt,
    }];
    CardInputSystem::run(&mut d, &mut slot, &parents, &events);
    assert_eq!(d.scoops(), 1);
    assert!(slot.active.is_some());
}

#[test]
fn drill_pull_injects_bounded_velocities() {
    let mut d = DiggingStatus::default();
    let mut slot = slot_with(1, DiggingCard::Drill(DrillState::Idling(40, 50, 60)));
    let parents = vec![None, None];
    let events = vec![UiEvent {
        kind: UiEventKind::Click,
        target: 1,
        control: CardControl::PullDrill,
    }];
    CardInputSystem::run(&mut d, &mut slot, &parents, &events);
    match slot.active {
        Some(ActiveCard {
            entity: 1,
            card: DiggingCard::Drill(DrillState::Running { velocity, position }),
        }) => {
            assert!(velocity.x < 10000);
            assert!(velocity.y < 10000);
            assert!(velocity.z < 10000);
            assert_eq!((position.x, position.y, position.z), (40, 50, 60));
        }
        other => panic!("expected a running drill card, got {:?}", other),
    }
}

#[test]
fn bucket_press_and_release_preserve_progress() {
    let mut d = DiggingStatus::default();
    for _ in 0..8 {
        d.scoop(true);
    }
    let mut slot = slot_with(1, DiggingCard::Bucket(BucketState::Empty));
    let parents = vec![None, None];
    let press = vec![UiEvent {
        kind: UiEventKind::ClickStart,
        target: 1,
        control: CardControl::FillBucket,
    }];
    let release = vec![UiEvent {
        kind: UiEventKind::HoverStop,
        target: 1,
        control: CardControl::FillBucket,
    }];
    CardInputSystem::run(&mut d, &mut slot, &parents, &press);
    assert_eq!(
        slot.active.unwrap().card,
        DiggingCard::Bucket(BucketState::Held(0))
    );
    let emptied = BucketUpdateSystem::run(&mut d, &mut slot, 400);
    assert!(!emptied);
    assert_eq!(
        slot.active.unwrap().card,
        DiggingCard::Bucket(BucketState::Held(400))
    );
    CardInputSystem::run(&mut d, &mut slot, &parents, &release);
    assert_eq!(
        slot.active.unwrap().card,
        DiggingCard::Bucket(BucketState::Unheld(400))
    );
    CardInputSystem::run(&mut d, &mut slot, &parents, &press);
    assert_eq!(
        slot.active.unwrap().card,
        DiggingCard::Bucket(BucketState::Held(0))
    );
}

#[test]
fn bucket_hold_crossing_empties_exactly_once() {
    let mut d = DiggingStatus::default();
    for _ in 0..16 {
        d.scoop(true);
    }
    let mut slot = slot_with(1, DiggingCard::Bucket(BucketState::Held(999)));
    let emptied = BucketUpdateSystem::run(&mut d, &mut slot, 1);
    assert!(emptied);
    assert_eq!(d.scoops(), 8);
    assert_eq!(
        slot.active.unwrap().card,
        DiggingCard::Bucket(BucketState::Unheld(1000))
    );
}

#[test]
fn bucket_hold_crossing_finishes_when_drained() {
    let mut d = DiggingStatus::default();
    for _ in 0..8 {
        d.scoop(true);
    }
    let mut slot = slot_with(1, DiggingCard::Bucket(BucketState::Held(999)));
    let emptied = BucketUpdateSystem::run(&mut d, &mut slot, 1);
    assert!(emptied);
    assert_eq!(d.scoops(), 0);
    assert_eq!(
        slot.active.unwrap().card,
        DiggingCard::Bucket(BucketState::Finished(1000))
    );
    let emptied = BucketUpdateSystem::run(&mut d, &mut slot, 16);
    assert!(!emptied);
    assert_eq!(slot.active, None);
}

#[test]
fn drill_settling_in_band_scoops_and_ends_card() {
    let mut d = DiggingStatus::default();
    let mut slot = slot_with(
        1,
        DiggingCard::Drill(DrillState::Running {
            velocity: DrillAxes { x: 10, y: 10, z: 10 },
            position: DrillAxes {
                x: 400,
                y: 400,
                z: 400,
            },
        }),
    );
    let scooped = DrillUpdateSystem::run(&mut d, &mut slot, 100);
    assert!(scooped);
    assert_eq!(slot.active, None);
    assert_eq!(d.depth(), 1);
    assert_eq!(d.scoops(), 0);
}

#[test]
fn drill_settling_out_of_band_idles_without_scoop() {
    let mut d = DiggingStatus::default();
    let mut slot = slot_with(
        1,
        DiggingCard::Drill(DrillState::Running {
            velocity: DrillAxes { x: 10, y: 10, z: 10 },
            position: DrillAxes {
                x: 100,
                y: 400,
                z: 400,
            },
        }),
    );
    let scooped = DrillUpdateSystem::run(&mut d, &mut slot, 100);
    assert!(!scooped);
    assert_eq!(d.depth(), 0);
    assert_eq!(
        slot.active.unwrap().card,
        DiggingCard::Drill(DrillState::Idling(101, 401, 401))
    );
}

#[test]
fn drill_keeps_spinning_while_velocity_remains() {
    let mut d = DiggingStatus::default();
    let mut slot = slot_with(
        1,
        DiggingCard::Drill(DrillState::Running {
            velocity: DrillAxes {
                x: 5000,
                y: 5000,
                z: 5000,
            },
            position: DrillAxes {
                x: 400,
                y: 600,
                z: 800,
            },
        }),
    );
    let scooped = DrillUpdateSystem::run(&mut d, &mut slot, 100);
    assert!(!scooped);
    assert_eq!(
        slot.active.unwrap().card,
        DiggingCard::Drill(DrillState::Running {
            velocity: DrillAxes {
                x: 4000,
                y: 4000,
                z: 4000,
            },
            position: DrillAxes {
                x: 900,
                y: 100,
                z: 300,
            },
        })
    );
}

#[test]
fn control_names_resolve_exactly() {
    assert_eq!(
        parse_control(&"shovel_dirt".to_string()),
        CardControl::ShovelDirt
    );
    assert_eq!(
        parse_control(&"pull_drill".to_string()),
        CardControl::PullDrill
    );
    assert_eq!(
        parse_control(&"fill_bucket".to_string()),
        CardControl::FillBucket
    );
    assert_eq!(
        parse_control(&"dump_bucket_bar".to_string()),
        CardControl::Other
    );
    assert_eq!(parse_control(&"".to_string()), CardControl::Other);
}

#[test]
fn bundles_run_a_whole_frame() {
    let mut d = DiggingStatus::default();
    let mut alerts = vec![shovel_alert()];
    let entities = vec![0usize];
    let mut slot = CardSlot { active: None };
    // Frame 1: a click on the shovel alert spawns the shovel card.
    let parents = vec![None];
    let events = vec![UiEvent {
        kind: UiEventKind::Click,
        target: 0,
        control: CardControl::Other,
    }];
    let (clicked, scooped, emptied) =
        CardsBundle::run(&mut d, &mut slot, &mut alerts, &entities, &parents, &events, 1, 16);
    assert!(clicked);
    assert!(!scooped);
    assert!(!emptied);
    assert_eq!(
        slot.active,
        Some(ActiveCard {
            entity: 1,
            card: DiggingCard::Shovel(ShovelState { click_progress: 0 }),
        })
    );
    let (robot_done, unlocked) = DiggingBundle::run(&mut d, &mut alerts, 16);
    assert!(!robot_done);
    assert!(unlocked.is_none());
    // Frame 2: a dig click on the card's control digs one scoop.
    let parents = vec![None, None, Some(1)];
    let events = vec![UiEvent {
        kind: UiEventKind::Click,
        target: 2,
        control: CardControl::ShovelDirt,
    }];
    CardsBundle::run(&mut d, &mut slot, &mut alerts, &entities, &parents, &events, 3, 16);
    assert_eq!(d.scoops(), 1);
    assert_eq!(d.depth(), 1);
    assert!(slot.active.is_some());
}

#[test]
fn pulled_drill_always_settles() {
    let mut d = DiggingStatus::default();
    let mut slot = slot_with(1, DiggingCard::Drill(DrillState::Idling(0, 0, 0)));
    let parents = vec![None, None];
    let pull = vec![UiEvent {
        kind: UiEventKind::Click,
        target: 1,
        control: CardControl::PullDrill,
    }];
    CardInputSystem::run(&mut d, &mut slot, &parents, &pull);
    for _ in 0..10 {
        DrillUpdateSystem::run(&mut d, &mut slot, 100);
    }
    // One second of ticks spins any pull down to a stop: the card is gone
    // (an in-band success, one scoop) or idling inside the cyclic domain.
    match slot.active {
        None => assert_eq!(d.depth(), 1),
        Some(ActiveCard {
            card: DiggingCard::Drill(DrillState::Idling(a, b, c)),
            ..
        }) => {
            assert!(a < 1000 && b < 1000 && c < 1000);
            assert_eq!(d.depth(), 0);
        }
        other => panic!("drill card still running after spin-down: {:?}", other),
    }
}

#[test]
fn shovel_card_rendering_shows_top_bucket() {
    let mut d = DiggingStatus::default();
    for _ in 0..3 {
        d.scoop(true);
    }
    let slot = slot_with(1, DiggingCard::Shovel(ShovelState { click_progress: 0 }));
    assert_eq!(ShovelRenderingSystem::run(&d, &slot), Some(3));
    let slot = slot_with(1, DiggingCard::Pulley(PulleyState::Waiting));
    assert_eq!(ShovelRenderingSystem::run(&d, &slot), None);
}

#[test]
fn drill_card_rendering_shows_positions() {
    let slot = slot_with(1, DiggingCard::Drill(DrillState::Idling(10, 20, 30)));
    assert_eq!(
        DrillRenderingSystem::run(&slot),
        Some(DrillAxes { x: 10, y: 20, z: 30 })
    );
    let slot = CardSlot { active: None };
    assert_eq!(DrillRenderingSystem::run(&slot), None);
}

#[test]
fn bucket_card_rendering_shows_remaining_hold() {
    let slot = slot_with(1, DiggingCard::Bucket(BucketState::Held(250)));
    assert_eq!(BucketRenderingSystem::run(&slot), Some(750));
    let slot = slot_with(1, DiggingCard::Bucket(BucketState::Unheld(250)));
    assert_eq!(BucketRenderingSystem::run(&slot), Some(1000));
    let slot = slot_with(1, DiggingCard::Bucket(BucketState::Finished(1000)));
    assert_eq!(BucketRenderingSystem::run(&slot), Some(0));
    let slot = slot_with(1, DiggingCard::Shovel(ShovelState { click_progress: 0 }));
    assert_eq!(BucketRenderingSystem::run(&slot), None);
}
