//! Alert affordances and interaction cards: the persistent per-activity
//! alerts, the at-most-one active interaction card, the routing of UI events
//! to the active card, and the drill mini-game.
//!
//! Entities of the surrounding UI are plain indices; the parent chain of the
//! UI hierarchy is an arena of optional parent links. Drill axis positions
//! live on a cyclic domain of `DRILL_AXIS_WRAP` thousandths of a turn.

use vstd::prelude::*;

pub mod bucket;

verus! {

use crate::digging::DiggingModel;
use crate::digging::DiggingStatus;
use crate::digging::DrillStatus;
use crate::digging::RobotStatus;
use crate::cards::bucket::BucketAlertState;
use crate::cards::bucket::BucketState;

/// Size of the cyclic domain of one drill axis, in thousandths of a turn.
pub const DRILL_AXIS_WRAP: u32 = 1000;

/// Exclusive lower edge of the drill target band.
pub const DRILL_BAND_LOW: u32 = 250;

/// Exclusive upper edge of the drill target band.
pub const DRILL_BAND_HIGH: u32 = 750;

/// Exclusive upper bound on the random velocity a pull gives one drill axis,
/// in thousandths of a turn per second.
pub const DRILL_PULL_VELOCITY_LIMIT: u32 = 10000;

/// Velocity one drill axis loses each millisecond, in thousandths of a turn
/// per second.
pub const DRILL_DECEL_PER_MILLI: u32 = 10;

/// Longest tick the drill mini-game accepts, in milliseconds: a longer tick
/// could carry an axis past a full turn, which the single wrap below could
/// not bring back into the cyclic domain.
pub const DRILL_TICK_LIMIT_MILLIS: u32 = 100;

/// Sub-state of the shovel alert.
#[derive(Clone, Copy, Debug, PartialEq, Eq, Structural)]
pub enum ShovelAlertState {
    /// A click yields a scoop.
    Ready,
    /// Every bucket is full; shovelling must wait for an emptied bucket.
    NoBuckets,
}

/// Sub-state of the drill alert.
#[derive(Clone, Copy, Debug, PartialEq, Eq, Structural)]
pub enum DrillAlertState {
    Ready,
    /// A drill run is in progress; the payload is its remaining time in
    /// milliseconds.
    Drilling(u32),
}

/// Sub-state of the robot alert.
#[derive(Clone, Copy, Debug, PartialEq, Eq, Structural)]
pub enum RobotAlertState {
    /// The robot waits for a captcha to be answered.
    CaptchaNeeded,
    /// A robot run is in progress.
    Running,
}

/// Sub-state of the pulley alert.
#[derive(Clone, Copy, Debug, PartialEq, Eq, Structural)]
pub struct PulleyAlertState;

/// The sub-state of one persistent alert affordance, by activity kind.
#[derive(Clone, Copy, Debug, PartialEq, Eq, Structural)]
pub enum AlertState {
    Shovel(ShovelAlertState),
    Bucket(BucketAlertState),
    Drill(DrillAlertState),
    Robot(RobotAlertState),
    Pulley(PulleyAlertState),
}

/// A persistent UI affordance for one activity. `clicked` is transient: it
/// is cleared at the start of every update and set only on the frame a click
/// targeted this alert.
#[derive(Clone, Copy, Debug, PartialEq, Eq, Structural)]
pub struct Alertable {
    pub state: AlertState,
    pub clicked: bool,
}

/// State of the shovel card; the click progress is cosmetic.
#[derive(Clone, Copy, Debug, PartialEq, Eq, Structural)]
pub struct ShovelState {
    pub click_progress: u32,
}

/// One value for each of the three drill axes.
#[derive(Clone, Copy, Debug, PartialEq, Eq, Structural)]
pub struct DrillAxes {
    pub x: u32,
    pub y: u32,
    pub z: u32,
}

/// State of the drill card. Idling carries the three axis positions left by
/// the last run; Running carries per-axis velocity (thousandths of a turn
/// per second) and position (thousandths of a turn).
#[derive(Clone, Copy, Debug, PartialEq, Eq, Structural)]
pub enum DrillState {
    Idling(u32, u32, u32),
    Running { velocity: DrillAxes, position: DrillAxes },
}

/// State of the robot/pulley card.
#[derive(Clone, Copy, Debug, PartialEq, Eq, Structural)]
pub enum PulleyState {
    Waiting,
}

/// The transient interaction card of one activity.
#[derive(Clone, Copy, Debug, PartialEq, Eq, Structural)]
pub enum DiggingCard {
    Shovel(ShovelState),
    Bucket(BucketState),
    Drill(DrillState),
    Pulley(PulleyState),
}

/// The active card together with the UI entity that owns it.
#[derive(Clone, Copy, Debug, PartialEq, Eq, Structural)]
pub struct ActiveCard {
    pub entity: usize,
    pub card: DiggingCard,
}

/// The single slot holding the at-most-one active card.
#[derive(Clone, Copy, Debug, PartialEq, Eq, Structural)]
pub struct CardSlot {
    pub active: Option<ActiveCard>,
}

/// The kind of a UI event.
#[derive(Clone, Copy, Debug, PartialEq, Eq, Structural)]
pub enum UiEventKind {
    Click,
    ClickStart,
    ClickStop,
    HoverStop,
}

/// The named control a UI event targeted, already resolved from the UI
/// element's name.
#[derive(Clone, Copy, Debug, PartialEq, Eq, Structural)]
pub enum CardControl {
    ShovelDirt,
    PullDrill,
    FillBucket,
    Other,
}

/// One UI event: its kind, the entity it targeted, and the named control
/// that entity carries.
#[derive(Clone, Copy, Debug, PartialEq, Eq, Structural)]
pub struct UiEvent {
    pub kind: UiEventKind,
    pub target: usize,
    pub control: CardControl,
}

/// The control a UI element's name designates.
pub open spec fn spec_parse_control(name: Seq<char>) -> CardControl {
    if name == "shovel_dirt"@ {
        CardControl::ShovelDirt
    } else if name == "pull_drill"@ {
        CardControl::PullDrill
    } else if name == "fill_bucket"@ {
        CardControl::FillBucket
    } else {
        CardControl::Other
    }
}

/// Resolves the name of the UI element an event targeted to the control it
/// designates.
pub fn parse_control(name: &String) -> (r: CardControl)
    ensures
        r == spec_parse_control(name@),
{
    if *name == String::from_str("shovel_dirt") {
        CardControl::ShovelDirt
    } else if *name == String::from_str("pull_drill") {
        CardControl::PullDrill
    } else if *name == String::from_str("fill_bucket") {
        CardControl::FillBucket
    } else {
        CardControl::Other
    }
}

/// Well-formedness of a drill card: positions stay inside the cyclic domain
/// and velocities below the pull limit.
pub open spec fn drill_state_inv(s: DrillState) -> bool {
    match s {
        DrillState::Idling(a, b, c) => {
            a < DRILL_AXIS_WRAP && b < DRILL_AXIS_WRAP && c < DRILL_AXIS_WRAP
        },
        DrillState::Running { velocity, position } => {
            &&& velocity.x < DRILL_PULL_VELOCITY_LIMIT
            &&& velocity.y < DRILL_PULL_VELOCITY_LIMIT
            &&& velocity.z < DRILL_PULL_VELOCITY_LIMIT
            &&& position.x < DRILL_AXIS_WRAP
            &&& position.y < DRILL_AXIS_WRAP
            &&& position.z < DRILL_AXIS_WRAP
        },
    }
}

/// Well-formedness of a card: the drill card keeps its axes in range and the
/// bucket card keeps its hold progress below the success threshold.
pub open spec fn card_inv(c: DiggingCard) -> bool {
    match c {
        DiggingCard::Drill(s) => drill_state_inv(s),
        DiggingCard::Bucket(s) => bucket::bucket_state_inv(s),
        _ => true,
    }
}

/// Well-formedness of the card slot.
pub open spec fn slot_inv(s: CardSlot) -> bool {
    match s.active {
        Some(ac) => card_inv(ac.card),
        None => true,
    }
}

/// One tick of one drill axis position: it advances by the distance the
/// velocity covers in `dt` milliseconds and wraps once past a full turn.
pub open spec fn drill_axis_advance(p: int, v: int, dt: int) -> int {
    let moved = p + v * dt / 1000;
    if moved >= DRILL_AXIS_WRAP {
        moved - DRILL_AXIS_WRAP
    } else {
        moved
    }
}

/// One tick of one drill axis velocity: it decays linearly and clamps at
/// zero, never below.
pub open spec fn drill_axis_decay(v: int, dt: int) -> int {
    if v >= DRILL_DECEL_PER_MILLI * dt {
        v - DRILL_DECEL_PER_MILLI * dt
    } else {
        0
    }
}

/// Whether one axis position lies strictly inside the target band.
pub open spec fn in_drill_band(p: int) -> bool {
    DRILL_BAND_LOW < p < DRILL_BAND_HIGH
}

/// One tick of the drill card. While running, every axis advances and
/// decays; on the exact tick all three velocities reach zero, the run ends:
/// all three positions simultaneously in the target band is a success
/// (the card is destroyed and one scoop is owed), anything else leaves the
/// card idling at the final positions. Returns the card (or `None` for a
/// destroyed card) and whether the run succeeded.
pub open spec fn drill_card_tick(s: DrillState, dt: int) -> (Option<DrillState>, bool) {
    match s {
        DrillState::Running { velocity: v, position: p } => {
            let p2 = DrillAxes {
                x: drill_axis_advance(p.x as int, v.x as int, dt) as u32,
                y: drill_axis_advance(p.y as int, v.y as int, dt) as u32,
                z: drill_axis_advance(p.z as int, v.z as int, dt) as u32,
            };
            let v2 = DrillAxes {
                x: drill_axis_decay(v.x as int, dt) as u32,
                y: drill_axis_decay(v.y as int, dt) as u32,
                z: drill_axis_decay(v.z as int, dt) as u32,
            };
            if v2.x == 0 && v2.y == 0 && v2.z == 0 {
                if in_drill_band(p2.x as int) && in_drill_band(p2.y as int) && in_drill_band(
                    p2.z as int,
                ) {
                    (None, true)
                } else {
                    (Some(DrillState::Idling(p2.x, p2.y, p2.z)), false)
                }
            } else {
                (Some(DrillState::Running { velocity: v2, position: p2 }), false)
            }
        },
        _ => (Some(s), false),
    }
}

/// One tick of the drill card against the account: a successful run digs
/// one automatic scoop.
pub open spec fn drill_update_step(m: DiggingModel, slot: Option<ActiveCard>, dt: int) -> (
    DiggingModel,
    Option<ActiveCard>,
    bool,
) {
    match slot {
        Some(ac) => match ac.card {
            DiggingCard::Drill(s) => {
                let r = drill_card_tick(s, dt);
                let slot2 = match r.0 {
                    Some(ns) => Some(ActiveCard { card: DiggingCard::Drill(ns), ..ac }),
                    None => None,
                };
                if r.1 {
                    (m.scoop_step(false), slot2, true)
                } else {
                    (m, slot2, false)
                }
            },
            _ => (m, slot, false),
        },
        None => (m, slot, false),
    }
}

fn advance_axis(p: u32, v: u32, dt: u32) -> (r: u32)
    requires
        p < DRILL_AXIS_WRAP,
        v < DRILL_PULL_VELOCITY_LIMIT,
        dt <= DRILL_TICK_LIMIT_MILLIS,
    ensures
        r == drill_axis_advance(p as int, v as int, dt as int),
        r < DRILL_AXIS_WRAP,
{
    proof {
        assert(v * dt <= 999_900) by (nonlinear_arith)
            requires
                v < 10000,
                dt <= 100,
                0 <= v,
                0 <= dt,
        ;
    }
    let moved = p + (v * dt) / 1000;
    if moved >= DRILL_AXIS_WRAP {
        moved - DRILL_AXIS_WRAP
    } else {
        moved
    }
}

fn decay_axis(v: u32, dt: u32) -> (r: u32)
    requires
        v < DRILL_PULL_VELOCITY_LIMIT,
        dt <= DRILL_TICK_LIMIT_MILLIS,
    ensures
        r == drill_axis_decay(v as int, dt as int),
        r <= v,
{
    if v >= DRILL_DECEL_PER_MILLI * dt {
        v - DRILL_DECEL_PER_MILLI * dt
    } else {
        0
    }
}

/// Whether some event in the sequence is a click on the given entity.
pub open spec fn clicked_by_events(entity: usize, events: Seq<UiEvent>) -> bool {
    exists|j: int|
        0 <= j < events.len() && (#[trigger] events[j]).kind == UiEventKind::Click
            && events[j].target == entity
}

/// The alerts after one round of click marking: every state kept, every
/// `clicked` flag set exactly on the alerts a click event targeted.
pub open spec fn alerts_after_clicks(
    alerts: Seq<Alertable>,
    entities: Seq<usize>,
    events: Seq<UiEvent>,
) -> Seq<Alertable> {
    Seq::new(
        alerts.len(),
        |i: int|
            Alertable { state: alerts[i].state, clicked: clicked_by_events(entities[i], events) },
    )
}

/// A placeholder in the system roster: alerts for the always-available
/// activities are spawned once at session start by the caller, so this
/// system has nothing to do.
pub struct AlertableSpawningSystem;

/// Clears every alert's transient `clicked` flag, then sets it on exactly
/// the alerts whose entity a click event of this tick targeted.
pub struct AlertableUpdateSystem;

impl AlertableUpdateSystem {
    pub fn run(alerts: &mut Vec<Alertable>, entities: &Vec<usize>, events: &Vec<UiEvent>)
        requires
            entities@.len() == old(alerts)@.len(),
        ensures
            final(alerts)@.len() == old(alerts)@.len(),
            forall|i: int|
                0 <= i < old(alerts)@.len() ==> final(alerts)@[i].state == old(alerts)@[i].state,
            forall|i: int|
                0 <= i < old(alerts)@.len() ==> final(alerts)@[i].clicked == clicked_by_events(
                    entities@[i],
                    events@,
                ),
            final(alerts)@ == alerts_after_clicks(old(alerts)@, entities@, events@),
    {
        let n = alerts.len();
        let mut i: usize = 0;
        while i < n
            invariant
                n == alerts@.len(),
                n == old(alerts)@.len(),
                entities@.len() == n,
                i <= n,
                forall|k: int| 0 <= k < n ==> alerts@[k].state == old(alerts)@[k].state,
                forall|k: int| 0 <= k < i ==> !alerts@[k].clicked,
                forall|k: int| i <= k < n ==> alerts@[k].clicked == old(alerts)@[k].clicked,
            decreases n - i,
        {
            alerts[i] = Alertable { clicked: false, ..alerts[i] };
            i = i + 1;
        }
        let m = events.len();
        let mut j: usize = 0;
        while j < m
            invariant
                n == alerts@.len(),
                n == old(alerts)@.len(),
                entities@.len() == n,
                m == events@.len(),
                j <= m,
                forall|k: int| 0 <= k < n ==> alerts@[k].state == old(alerts)@[k].state,
                forall|k: int|
                    0 <= k < n ==> alerts@[k].clicked == clicked_by_events(
                        entities@[k],
                        events@.take(j as int),
                    ),
            decreases m - j,
        {
            let ev = events[j];
            if matches!(ev.kind, UiEventKind::Click) {
                let mut k: usize = 0;
                while k < n
                    invariant
                        n == alerts@.len(),
                        n == old(alerts)@.len(),
                        entities@.len() == n,
                        j < m,
                        m == events@.len(),
                        ev == events@[j as int],
                        ev.kind == UiEventKind::Click,
                        k <= n,
                        forall|t: int| 0 <= t < n ==> alerts@[t].state == old(alerts)@[t].state,
                        forall|t: int|
                            0 <= t < k ==> alerts@[t].clicked == clicked_by_events(
                                entities@[t],
                                events@.take(j + 1),
                            ),
                        forall|t: int|
                            k <= t < n ==> alerts@[t].clicked == clicked_by_events(
                                entities@[t],
                                events@.take(j as int),
                            ),
                    decreases n - k,
                {
                    if entities[k] == ev.target {
                        alerts[k] = Alertable { clicked: true, ..alerts[k] };
                        proof {
                            assert(events@.take(j + 1)[j as int] == ev);
                        }
                    } else {
                        proof {
                            if clicked_by_events(entities@[k as int], events@.take(j + 1)) {
                                let w = choose|w: int|
                                    0 <= w < events@.take(j + 1).len() && (#[trigger] events@.take(
                                        j + 1,
                                    )[w]).kind == UiEventKind::Click && events@.take(j + 1)[w].target
                                        == entities@[k as int];
                                assert(0 <= w < j + 1);
                                assert(w != j);
                                assert(events@.take(j as int)[w] == events@.take(j + 1)[w]);
                            }
                        }
                    }
                    k = k + 1;
                }
            } else {
                proof {
                    assert(forall|t: int|
                        0 <= t < n ==> clicked_by_events(entities@[t], events@.take(j + 1))
                            == clicked_by_events(entities@[t], events@.take(j as int))) by {
                        assert forall|t: int|
                            0 <= t < n && clicked_by_events(
                                entities@[t],
                                events@.take(j + 1),
                            ) implies clicked_by_events(entities@[t], events@.take(j as int)) by {
                            let w = choose|w: int|
                                0 <= w < events@.take(j + 1).len() && (#[trigger] events@.take(
                                    j + 1,
                                )[w]).kind == UiEventKind::Click && events@.take(j + 1)[w].target
                                    == entities@[t];
                            assert(w != j);
                            assert(events@.take(j as int)[w] == events@.take(j + 1)[w]);
                        }
                        assert forall|t: int|
                            0 <= t < n && clicked_by_events(
                                entities@[t],
                                events@.take(j as int),
                            ) implies clicked_by_events(entities@[t], events@.take(j + 1)) by {
                            let w = choose|w: int|
                                0 <= w < events@.take(j as int).len() && (#[trigger] events@.take(
                                    j as int,
                                )[w]).kind == UiEventKind::Click && events@.take(j as int)[w].target
                                    == entities@[t];
                            assert(events@.take(j + 1)[w] == events@.take(j as int)[w]);
                        }
                    }
                }
            }
            j = j + 1;
        }
        proof {
            assert(events@.take(m as int) =~= events@);
            assert(alerts@ =~= alerts_after_clicks(old(alerts)@, entities@, events@));
        }
    }
}

/// The alert sub-state the account and the running activities call for:
/// the shovel alert reflects remaining capacity, the bucket alert the fill
/// of the topmost bucket, and the drill and robot alerts whether their
/// timed runs are in progress.
pub open spec fn refreshed_alert(state: AlertState, m: DiggingModel) -> AlertState {
    match state {
        AlertState::Shovel(_) => AlertState::Shovel(
            if m.can_scoop() {
                ShovelAlertState::Ready
            } else {
                ShovelAlertState::NoBuckets
            },
        ),
        AlertState::Bucket(_) => AlertState::Bucket(
            if m.top_bucket() == 0 {
                BucketAlertState::Empty
            } else {
                BucketAlertState::Filled(m.top_bucket() as u32)
            },
        ),
        AlertState::Drill(_) => AlertState::Drill(
            match m.drill_status {
                DrillStatus::Running { time_left, .. } => DrillAlertState::Drilling(time_left),
                _ => DrillAlertState::Ready,
            },
        ),
        AlertState::Robot(_) => AlertState::Robot(
            match m.robot_status {
                RobotStatus::Running { .. } => RobotAlertState::Running,
                _ => RobotAlertState::CaptchaNeeded,
            },
        ),
        AlertState::Pulley(s) => AlertState::Pulley(s),
    }
}

/// Recomputes every alert's sub-state from the account, leaving the
/// transient `clicked` flags untouched.
pub struct AlertableRenderSystem;

impl AlertableRenderSystem {
    pub fn run(alerts: &mut Vec<Alertable>, digging: &DiggingStatus)
        requires
            digging@.inv(),
        ensures
            final(alerts)@.len() == old(alerts)@.len(),
            forall|i: int|
                0 <= i < old(alerts)@.len() ==> final(alerts)@[i] == (Alertable {
                    state: refreshed_alert(old(alerts)@[i].state, digging@),
                    clicked: old(alerts)@[i].clicked,
                }),
    {
        let n = alerts.len();
        let mut i: usize = 0;
        while i < n
            invariant
                n == alerts@.len(),
                n == old(alerts)@.len(),
                digging@.inv(),
                i <= n,
                forall|k: int|
                    0 <= k < i ==> alerts@[k] == (Alertable {
                        state: refreshed_alert(old(alerts)@[k].state, digging@),
                        clicked: old(alerts)@[k].clicked,
                    }),
                forall|k: int| i <= k < n ==> alerts@[k] == old(alerts)@[k],
            decreases n - i,
        {
            let a = alerts[i];
            let state = match a.state {
                AlertState::Shovel(_) => AlertState::Shovel(
                    if digging.can_scoop() {
                        ShovelAlertState::Ready
                    } else {
                        ShovelAlertState::NoBuckets
                    },
                ),
                AlertState::Bucket(_) => {
                    let top = digging.scoops_in_top_bucket();
                    AlertState::Bucket(
                        if top == 0 {
                            BucketAlertState::Empty
                        } else {
                            BucketAlertState::Filled(top)
                        },
                    )
                },
                AlertState::Drill(_) => AlertState::Drill(
                    match digging.drill_status() {
                        DrillStatus::Running { time_left, .. } => DrillAlertState::Drilling(
                            time_left,
                        ),
                        _ => DrillAlertState::Ready,
                    },
                ),
                AlertState::Robot(_) => AlertState::Robot(
                    match digging.robot_status() {
                        RobotStatus::Running { .. } => RobotAlertState::Running,
                        _ => RobotAlertState::CaptchaNeeded,
                    },
                ),
                AlertState::Pulley(s) => AlertState::Pulley(s),
            };
            alerts[i] = Alertable { state, clicked: a.clicked };
            i = i + 1;
        }
    }
}

/// The card an alert in the given sub-state spawns when clicked, if any:
/// a drill alert spawns no card while a drill run is in progress, and the
/// robot alert spawns no card while the robot runs.
pub open spec fn card_for_alert(state: AlertState) -> Option<DiggingCard> {
    match state {
        AlertState::Shovel(_) => Some(DiggingCard::Shovel(ShovelState { click_progress: 0 })),
        AlertState::Bucket(_) => Some(DiggingCard::Bucket(BucketState::Empty)),
        AlertState::Drill(DrillAlertState::Ready) => Some(
            DiggingCard::Drill(DrillState::Idling(0, 0, 0)),
        ),
        AlertState::Drill(DrillAlertState::Drilling(_)) => None,
        AlertState::Robot(RobotAlertState::CaptchaNeeded) => Some(
            DiggingCard::Pulley(PulleyState::Waiting),
        ),
        AlertState::Robot(RobotAlertState::Running) => None,
        AlertState::Pulley(_) => Some(DiggingCard::Pulley(PulleyState::Waiting)),
    }
}

/// The slot left after working through the alerts in order: every clicked
/// alert first destroys whatever card is active, then installs its own card
/// if its state spawns one.
pub open spec fn spawn_fold(
    alerts: Seq<Alertable>,
    slot: Option<ActiveCard>,
    new_entity: usize,
) -> Option<ActiveCard>
    decreases alerts.len(),
{
    if alerts.len() == 0 {
        slot
    } else {
        let first = alerts[0];
        let slot2 = if first.clicked {
            match card_for_alert(first.state) {
                Some(c) => Some(ActiveCard { entity: new_entity, card: c }),
                None => None,
            }
        } else {
            slot
        };
        spawn_fold(alerts.drop_first(), slot2, new_entity)
    }
}

/// Turns this tick's clicked alerts into a freshly spawned card: any click
/// destroys the active card, and the last clicked alert that spawns a card
/// installs it under the entity id supplied by the caller. Returns whether
/// any alert was clicked, so the caller can replace the card's UI widget.
pub struct CardSpawningSystem;

impl CardSpawningSystem {
    pub fn run(alerts: &Vec<Alertable>, slot: &mut CardSlot, new_entity: usize) -> (clicked_any:
        bool)
        requires
            slot_inv(*old(slot)),
        ensures
            slot_inv(*final(slot)),
            final(slot).active == spawn_fold(alerts@, old(slot).active, new_entity),
            clicked_any == (exists|i: int| 0 <= i < alerts@.len() && alerts@[i].clicked),
    {
        let n = alerts.len();
        let mut clicked_any = false;
        let mut i: usize = 0;
        proof {
            assert(alerts@.skip(0) =~= alerts@);
        }
        while i < n
            invariant
                n == alerts@.len(),
                slot_inv(*slot),
                i <= n,
                spawn_fold(alerts@, old(slot).active, new_entity) == spawn_fold(
                    alerts@.skip(i as int),
                    slot.active,
                    new_entity,
                ),
                clicked_any == (exists|k: int| 0 <= k < i && alerts@[k].clicked),
            decreases n - i,
        {
            let a = alerts[i];
            proof {
                assert(alerts@.skip(i as int).drop_first() =~= alerts@.skip(i + 1));
                assert(alerts@.skip(i as int)[0] == alerts@[i as int]);
            }
            if a.clicked {
                clicked_any = true;
                slot.active = match a.state {
                    AlertState::Shovel(_) => Some(ActiveCard {
                        entity: new_entity,
                        card: DiggingCard::Shovel(ShovelState { click_progress: 0 }),
                    }),
                    AlertState::Bucket(_) => Some(ActiveCard {
                        entity: new_entity,
                        card: DiggingCard::Bucket(BucketState::Empty),
                    }),
                    AlertState::Drill(DrillAlertState::Ready) => Some(ActiveCard {
                        entity: new_entity,
                        card: DiggingCard::Drill(DrillState::Idling(0, 0, 0)),
                    }),
                    AlertState::Drill(DrillAlertState::Drilling(_)) => None,
                    AlertState::Robot(RobotAlertState::CaptchaNeeded) => Some(ActiveCard {
                        entity: new_entity,
                        card: DiggingCard::Pulley(PulleyState::Waiting),
                    }),
                    AlertState::Robot(RobotAlertState::Running) => None,
                    AlertState::Pulley(_) => Some(ActiveCard {
                        entity: new_entity,
                        card: DiggingCard::Pulley(PulleyState::Waiting),
                    }),
                };
            }
            i = i + 1;
        }
        proof {
            assert(alerts@.skip(n as int) =~= Seq::<Alertable>::empty());
        }
        clicked_any
    }
}

proof fn lemma_axis_advance_bounds(p: int, v: int, dt: int)
    requires
        0 <= p < DRILL_AXIS_WRAP,
        0 <= v < DRILL_PULL_VELOCITY_LIMIT,
        0 <= dt <= DRILL_TICK_LIMIT_MILLIS,
    ensures
        0 <= drill_axis_advance(p, v, dt) < DRILL_AXIS_WRAP,
{
    assert(0 <= v * dt <= 999_900) by (nonlinear_arith)
        requires
            0 <= v < 10000,
            0 <= dt <= 100,
    ;
    vstd::arithmetic::div_mod::lemma_div_is_ordered(v * dt, 999_900, 1000);
    vstd::arithmetic::div_mod::lemma_div_pos_is_pos(v * dt, 1000);
}

/// Law (drill safety): one tick of the drill card preserves its
/// well-formedness: positions stay inside the cyclic domain, velocities
/// below the pull limit.
pub proof fn lemma_drill_tick_preserves_inv(s: DrillState, dt: int)
    requires
        drill_state_inv(s),
        0 <= dt <= DRILL_TICK_LIMIT_MILLIS,
    ensures
        drill_card_tick(s, dt).0 matches Some(s2) ==> drill_state_inv(s2),
{
    match s {
        DrillState::Running { velocity: v, position: p } => {
            lemma_axis_advance_bounds(p.x as int, v.x as int, dt);
            lemma_axis_advance_bounds(p.y as int, v.y as int, dt);
            lemma_axis_advance_bounds(p.z as int, v.z as int, dt);
        },
        _ => {},
    }
}

/// The card left by `n` drill ticks of `dt` milliseconds each, and whether
/// any of them ended a run in the target band.
pub open spec fn drill_fold(s: Option<DrillState>, dt: int, n: nat) -> (Option<DrillState>, bool)
    decreases n,
{
    if n == 0 {
        (s, false)
    } else {
        match s {
            Some(st) => {
                let r = drill_card_tick(st, dt);
                let rest = drill_fold(r.0, dt, (n - 1) as nat);
                (rest.0, r.1 || rest.1)
            },
            None => (None, false),
        }
    }
}

proof fn lemma_drill_fold_idle(a: u32, b: u32, c: u32, dt: int, n: nat)
    ensures
        drill_fold(Some(DrillState::Idling(a, b, c)), dt, n) == (
            Some(DrillState::Idling(a, b, c)),
            false,
        ),
    decreases n,
{
    if n != 0 {
        lemma_drill_fold_idle(a, b, c, dt, (n - 1) as nat);
    }
}

proof fn lemma_drill_settles_rec(v: DrillAxes, p: DrillAxes, dt: int, n: nat)
    requires
        drill_state_inv(DrillState::Running { velocity: v, position: p }),
        1 <= dt <= DRILL_TICK_LIMIT_MILLIS,
        n >= 1,
        v.x <= 10 * dt * n,
        v.y <= 10 * dt * n,
        v.z <= 10 * dt * n,
    ensures
        ({
            let r = drill_fold(Some(DrillState::Running { velocity: v, position: p }), dt, n);
            &&& !(r.0 matches Some(DrillState::Running { .. }))
            &&& (r.0 matches Some(s2) ==> drill_state_inv(s2))
        }),
    decreases n,
{
    let s = DrillState::Running { velocity: v, position: p };
    let r1 = drill_card_tick(s, dt);
    lemma_drill_tick_preserves_inv(s, dt);
    match r1.0 {
        None => {
            assert(drill_fold(None, dt, (n - 1) as nat) == (None::<DrillState>, false));
        },
        Some(s2) => match s2 {
            DrillState::Idling(a, b, c) => {
                lemma_drill_fold_idle(a, b, c, dt, (n - 1) as nat);
            },
            DrillState::Running { velocity: v2, position: p2 } => {
                assert(10 * dt * n - 10 * dt == 10 * dt * (n - 1)) by (nonlinear_arith);
                assert(v2.x <= 10 * dt * (n - 1));
                assert(v2.y <= 10 * dt * (n - 1));
                assert(v2.z <= 10 * dt * (n - 1));
                assert(v2.x > 0 || v2.y > 0 || v2.z > 0);
                assert(10 * dt * (n - 1) > 0);
                assert(n >= 2) by (nonlinear_arith)
                    requires
                        10 * dt * (n - 1) > 0,
                        n >= 1,
                        dt >= 1,
                ;
                lemma_drill_settles_rec(v2, p2, dt, (n - 1) as nat);
            },
        },
    }
}

/// Law: a pulled drill settles. After any `n` ticks of `dt` milliseconds
/// covering at least the full spin-down time of one second, every velocity
/// has reached exactly zero: the card is either destroyed by an in-band
/// stop or left idling with every axis inside the cyclic domain — never
/// still running.
pub proof fn lemma_drill_settles(v: DrillAxes, p: DrillAxes, dt: int, n: nat)
    requires
        drill_state_inv(DrillState::Running { velocity: v, position: p }),
        1 <= dt <= DRILL_TICK_LIMIT_MILLIS,
        n * dt >= 1000,
    ensures
        ({
            let r = drill_fold(Some(DrillState::Running { velocity: v, position: p }), dt, n);
            &&& !(r.0 matches Some(DrillState::Running { .. }))
            &&& (r.0 matches Some(s2) ==> drill_state_inv(s2))
        }),
{
    assert(10 * dt * n >= 10000) by (nonlinear_arith)
        requires
            n * dt >= 1000,
    ;
    assert(n >= 1) by (nonlinear_arith)
        requires
            n * dt >= 1000,
            dt <= 100,
            n >= 0,
    ;
    lemma_drill_settles_rec(v, p, dt, n);
}

/// Law: releasing the held fill control demotes the bucket card to Unheld
/// with the accumulated progress preserved, not reset.
pub proof fn lemma_bucket_release_preserves_progress(
    m: DiggingModel,
    ac: ActiveCard,
    p: u32,
    parents: Seq<Option<usize>>,
    ev: UiEvent,
    pull: DrillAxes,
)
    requires
        ac.card == DiggingCard::Bucket(BucketState::Held(p)),
        ev.kind == UiEventKind::HoverStop,
        spec_card_ancestor(ev.target, Some(ac.entity), parents, (parents.len() + 1) as nat)
            == Some(ac.entity),
    ensures
        route_event(m, Some(ac), parents, ev, pull) == (
            m,
            Some(ActiveCard { card: DiggingCard::Bucket(BucketState::Unheld(p)), ..ac }),
        ),
{
}

/// The entity owning the active card, if any.
pub open spec fn card_owner(slot: Option<ActiveCard>) -> Option<usize> {
    match slot {
        Some(ac) => Some(ac.entity),
        None => None,
    }
}

/// The nearest ancestor of `entity` (along the parent links, `entity`
/// itself first) that owns the card, following at most `fuel` parent links.
pub open spec fn spec_card_ancestor(
    entity: usize,
    owner: Option<usize>,
    parents: Seq<Option<usize>>,
    fuel: nat,
) -> Option<usize>
    decreases fuel,
{
    if owner == Some(entity) {
        Some(entity)
    } else if fuel == 0 {
        None
    } else if entity < parents.len() {
        match parents[entity as int] {
            Some(p) => spec_card_ancestor(p, owner, parents, (fuel - 1) as nat),
            None => None,
        }
    } else {
        None
    }
}

/// Resolves the UI entity a click landed on to the entity holding the
/// active card, walking the parent chain upward. The walk follows at most
/// one link per entity of the arena, so a corrupted, cyclic chain ends the
/// walk instead of hanging it.
pub fn get_card_entity(entity: usize, slot: &CardSlot, parents: &Vec<Option<usize>>) -> (r: Option<
    usize,
>)
    requires
        parents@.len() < usize::MAX,
    ensures
        r == spec_card_ancestor(
            entity,
            card_owner(slot.active),
            parents@,
            (parents@.len() + 1) as nat,
        ),
{
    let owner_opt: Option<usize> = match slot.active {
        Some(ac) => Some(ac.entity),
        None => None,
    };
    let mut cur = entity;
    let mut fuel: usize = parents.len() + 1;
    while fuel != 0
        invariant
            parents@.len() < usize::MAX,
            owner_opt == card_owner(slot.active),
            fuel <= parents@.len() + 1,
            spec_card_ancestor(
                entity,
                owner_opt,
                parents@,
                (parents@.len() + 1) as nat,
            ) == spec_card_ancestor(cur, owner_opt, parents@, fuel as nat),
        decreases fuel,
    {
        let matched = match owner_opt {
            Some(o) => o == cur,
            None => false,
        };
        if matched {
            return Some(cur);
        }
        if cur >= parents.len() {
            return None;
        }
        match parents[cur] {
            Some(p) => {
                cur = p;
            },
            None => {
                return None;
            },
        }
        fuel = fuel - 1;
    }
    let matched = match owner_opt {
        Some(o) => o == cur,
        None => false,
    };
    if matched {
        Some(cur)
    } else {
        None
    }
}

/// The three axis positions a drill card currently shows.
pub open spec fn drill_positions(s: DrillState) -> DrillAxes {
    match s {
        DrillState::Idling(a, b, c) => DrillAxes { x: a, y: b, z: c },
        DrillState::Running { position, .. } => position,
    }
}

/// The effect of routing one UI event, given the velocities `pull` that a
/// drill pull would inject. An event that does not resolve to the active
/// card's entity is a no-op; so is one whose kind or control the card's
/// current state does not expect.
pub open spec fn route_event(
    m: DiggingModel,
    slot: Option<ActiveCard>,
    parents: Seq<Option<usize>>,
    ev: UiEvent,
    pull: DrillAxes,
) -> (DiggingModel, Option<ActiveCard>) {
    let resolved = spec_card_ancestor(
        ev.target,
        card_owner(slot),
        parents,
        (parents.len() + 1) as nat,
    );
    match slot {
        Some(ac) => {
            if resolved == Some(ac.entity) {
                match ac.card {
                    DiggingCard::Shovel(_) => {
                        if ev.kind == UiEventKind::Click && ev.control == CardControl::ShovelDirt {
                            let m2 = m.scoop_step(true);
                            (
                                m2,
                                if m2.can_scoop() {
                                    slot
                                } else {
                                    None
                                },
                            )
                        } else {
                            (m, slot)
                        }
                    },
                    DiggingCard::Drill(s) => {
                        if ev.kind == UiEventKind::Click && ev.control == CardControl::PullDrill {
                            (
                                m,
                                Some(ActiveCard {
                                    card: DiggingCard::Drill(
                                        DrillState::Running {
                                            velocity: pull,
                                            position: drill_positions(s),
                                        },
                                    ),
                                    ..ac
                                }),
                            )
                        } else {
                            (m, slot)
                        }
                    },
                    DiggingCard::Bucket(BucketState::Empty) | DiggingCard::Bucket(
                        BucketState::Unheld(_),
                    ) => {
                        if ev.kind == UiEventKind::ClickStart && ev.control
                            == CardControl::FillBucket {
                            (
                                m,
                                Some(ActiveCard {
                                    card: DiggingCard::Bucket(BucketState::Held(0)),
                                    ..ac
                                }),
                            )
                        } else {
                            (m, slot)
                        }
                    },
                    DiggingCard::Bucket(BucketState::Held(p)) => {
                        if ev.kind == UiEventKind::HoverStop || ev.control
                            != CardControl::FillBucket {
                            (
                                m,
                                Some(ActiveCard {
                                    card: DiggingCard::Bucket(BucketState::Unheld(p)),
                                    ..ac
                                }),
                            )
                        } else {
                            (m, slot)
                        }
                    },
                    DiggingCard::Bucket(BucketState::Finished(_)) => (m, None),
                    DiggingCard::Pulley(_) => (m, slot),
                }
            } else {
                (m, slot)
            }
        },
        None => (m, slot),
    }
}

/// The effect of routing a sequence of UI events in order, given the
/// per-event velocity draws.
pub open spec fn route_events(
    m: DiggingModel,
    slot: Option<ActiveCard>,
    parents: Seq<Option<usize>>,
    events: Seq<UiEvent>,
    draws: Seq<DrillAxes>,
) -> (DiggingModel, Option<ActiveCard>)
    decreases events.len(),
{
    if events.len() == 0 {
        (m, slot)
    } else {
        let r = route_event(m, slot, parents, events[0], draws[0]);
        route_events(r.0, r.1, parents, events.drop_first(), draws.drop_first())
    }
}

/// All velocity draws lie below the pull limit.
pub open spec fn bounded_draws(draws: Seq<DrillAxes>) -> bool {
    forall|k: int|
        0 <= k < draws.len() ==> (#[trigger] draws[k]).x < DRILL_PULL_VELOCITY_LIMIT && draws[k].y
            < DRILL_PULL_VELOCITY_LIMIT && draws[k].z < DRILL_PULL_VELOCITY_LIMIT
}

/// Whether routing the given events can turn the state on the left into the
/// state on the right: some bounded sequence of velocity draws produces it.
pub open spec fn routed_with(
    m0: DiggingModel,
    s0: Option<ActiveCard>,
    parents: Seq<Option<usize>>,
    events: Seq<UiEvent>,
    m1: DiggingModel,
    s1: Option<ActiveCard>,
) -> bool {
    exists|draws: Seq<DrillAxes>|
        #![auto]
        draws.len() == events.len() && bounded_draws(draws) && route_events(
            m0,
            s0,
            parents,
            events,
            draws,
        ) == (m1, s1)
}

proof fn lemma_route_events_snoc(
    m: DiggingModel,
    slot: Option<ActiveCard>,
    parents: Seq<Option<usize>>,
    events: Seq<UiEvent>,
    draws: Seq<DrillAxes>,
    ev: UiEvent,
    d: DrillAxes,
)
    requires
        draws.len() == events.len(),
    ensures
        route_events(m, slot, parents, events.push(ev), draws.push(d)) == ({
            let r = route_events(m, slot, parents, events, draws);
            route_event(r.0, r.1, parents, ev, d)
        }),
    decreases events.len(),
{
    if events.len() == 0 {
        assert(events.push(ev)[0] == ev);
        assert(draws.push(d)[0] == d);
        assert(events.push(ev).drop_first() =~= Seq::<UiEvent>::empty());
        assert(draws.push(d).drop_first() =~= Seq::<DrillAxes>::empty());
        let r1 = route_event(m, slot, parents, ev, d);
        assert(route_events(r1.0, r1.1, parents, Seq::<UiEvent>::empty(), Seq::<DrillAxes>::empty())
            == (r1.0, r1.1));
        assert(route_events(m, slot, parents, events, draws) == (m, slot));
    } else {
        let r = route_event(m, slot, parents, events[0], draws[0]);
        assert(events.push(ev)[0] == events[0]);
        assert(draws.push(d)[0] == draws[0]);
        assert(events.push(ev).drop_first() =~= events.drop_first().push(ev));
        assert(draws.push(d).drop_first() =~= draws.drop_first().push(d));
        lemma_route_events_snoc(
            r.0,
            r.1,
            parents,
            events.drop_first(),
            draws.drop_first(),
            ev,
            d,
        );
    }
}

/// Relies on rand's thread_rng and Rng::gen_range: a uniformly random `u32`
/// drawn from `0..limit`, always strictly below `limit`.
#[verifier::external_body]
fn draw_pull_velocity(limit: u32) -> (r: u32)
    requires
        limit >= 1,
    ensures
        r < limit,
{
    rand::Rng::gen_range(&mut rand::thread_rng(), 0..limit)
}

/// Routes this tick's UI events to the active card, in order: shovel clicks
/// dig, drill pulls spin the axes up with random velocities, bucket presses
/// and releases move the hold state. Whatever velocities the pulls drew,
/// the outcome is the routing of the events under some bounded draws.
pub struct CardInputSystem;

impl CardInputSystem {
    pub fn run(
        digging: &mut DiggingStatus,
        slot: &mut CardSlot,
        parents: &Vec<Option<usize>>,
        events: &Vec<UiEvent>,
    )
        requires
            old(digging)@.inv(),
            slot_inv(*old(slot)),
            parents@.len() < usize::MAX,
            old(digging)@.depth + events@.len() <= u32::MAX,
        ensures
            final(digging)@.inv(),
            slot_inv(*final(slot)),
            routed_with(
                old(digging)@,
                old(slot).active,
                parents@,
                events@,
                final(digging)@,
                final(slot).active,
            ),
    {
        let ghost m0 = digging@;
        let ghost s0 = slot.active;
        let ghost mut draws: Seq<DrillAxes> = Seq::empty();
        let n = events.len();
        let mut i: usize = 0;
        proof {
            assert(events@.take(0) =~= Seq::<UiEvent>::empty());
        }
        while i < n
            invariant
                digging@.inv(),
                slot_inv(*slot),
                parents@.len() < usize::MAX,
                n == events@.len(),
                i <= n,
                m0.inv(),
                m0.depth + n <= u32::MAX,
                digging@.depth <= m0.depth + i,
                draws.len() == i,
                bounded_draws(draws),
                (digging@, slot.active) == route_events(
                    m0,
                    s0,
                    parents@,
                    events@.take(i as int),
                    draws,
                ),
            decreases n - i,
        {
            let ev = events[i];
            let ghost m_before = digging@;
            let ghost s_before = slot.active;
            let resolved = get_card_entity(ev.target, slot, parents);
            let mut d = DrillAxes { x: 0, y: 0, z: 0 };
            if let Some(res) = resolved {
                if let Some(ac) = slot.active {
                    if res == ac.entity {
                        match ac.card {
                            DiggingCard::Shovel(_) => {
                                if matches!(ev.kind, UiEventKind::Click) && matches!(
                                    ev.control,
                                    CardControl::ShovelDirt,
                                ) {
                                    digging.scoop(true);
                                    if !digging.can_scoop() {
                                        slot.active = None;
                                    }
                                }
                            },
                            DiggingCard::Drill(s) => {
                                if matches!(ev.kind, UiEventKind::Click) && matches!(
                                    ev.control,
                                    CardControl::PullDrill,
                                ) {
                                    let position = match s {
                                        DrillState::Idling(a, b, c) => DrillAxes { x: a, y: b, z: c },
                                        DrillState::Running { position, .. } => position,
                                    };
                                    d = DrillAxes {
                                        x: draw_pull_velocity(DRILL_PULL_VELOCITY_LIMIT),
                                        y: draw_pull_velocity(DRILL_PULL_VELOCITY_LIMIT),
                                        z: draw_pull_velocity(DRILL_PULL_VELOCITY_LIMIT),
                                    };
                                    slot.active = Some(ActiveCard {
                                        card: DiggingCard::Drill(
                                            DrillState::Running { velocity: d, position },
                                        ),
                                        ..ac
                                    });
                                }
                            },
                            DiggingCard::Bucket(BucketState::Empty) | DiggingCard::Bucket(
                                BucketState::Unheld(_),
                            ) => {
                                if matches!(ev.kind, UiEventKind::ClickStart) && matches!(
                                    ev.control,
                                    CardControl::FillBucket,
                                ) {
                                    slot.active = Some(ActiveCard {
                                        card: DiggingCard::Bucket(BucketState::Held(0)),
                                        ..ac
                                    });
                                }
                            },
                            DiggingCard::Bucket(BucketState::Held(p)) => {
                                if matches!(ev.kind, UiEventKind::HoverStop) || !matches!(
                                    ev.control,
                                    CardControl::FillBucket,
                                ) {
                                    slot.active = Some(ActiveCard {
                                        card: DiggingCard::Bucket(BucketState::Unheld(p)),
                                        ..ac
                                    });
                                }
                            },
                            DiggingCard::Bucket(BucketState::Finished(_)) => {
                                slot.active = None;
                            },
                            DiggingCard::Pulley(_) => {},
                        }
                    }
                }
            }
            proof {
                assert((digging@, slot.active) == route_event(m_before, s_before, parents@, ev, d));
                lemma_route_events_snoc(m0, s0, parents@, events@.take(i as int), draws, ev, d);
                assert(events@.take(i + 1) =~= events@.take(i as int).push(ev));
                draws = draws.push(d);
            }
            i = i + 1;
        }
        proof {
            assert(events@.take(n as int) =~= events@);
        }
    }
}

/// Decides how the shovel card is displayed: the scoops shown in the
/// topmost bucket, or nothing when no shovel card is active.
pub struct ShovelRenderingSystem;

impl ShovelRenderingSystem {
    pub fn run(digging: &DiggingStatus, slot: &CardSlot) -> (r: Option<u32>)
        requires
            digging@.inv(),
        ensures
            r == match slot.active {
                Some(ac) => match ac.card {
                    DiggingCard::Shovel(_) => Some(digging@.top_bucket() as u32),
                    _ => None::<u32>,
                },
                None => None::<u32>,
            },
    {
        match slot.active {
            Some(ac) => match ac.card {
                DiggingCard::Shovel(_) => Some(digging.scoops_in_top_bucket()),
                _ => None,
            },
            None => None,
        }
    }
}

/// Decides how the drill card is displayed: the three axis positions in
/// thousandths of a turn, or nothing when no drill card is active.
pub struct DrillRenderingSystem;

impl DrillRenderingSystem {
    pub fn run(slot: &CardSlot) -> (r: Option<DrillAxes>)
        ensures
            r == match slot.active {
                Some(ac) => match ac.card {
                    DiggingCard::Drill(s) => Some(drill_positions(s)),
                    _ => None::<DrillAxes>,
                },
                None => None::<DrillAxes>,
            },
    {
        match slot.active {
            Some(ac) => match ac.card {
                DiggingCard::Drill(DrillState::Idling(a, b, c)) => Some(
                    DrillAxes { x: a, y: b, z: c },
                ),
                DiggingCard::Drill(DrillState::Running { position, .. }) => Some(position),
                _ => None,
            },
            None => None,
        }
    }
}

proof fn lemma_route_events_depth(
    m: DiggingModel,
    slot: Option<ActiveCard>,
    parents: Seq<Option<usize>>,
    events: Seq<UiEvent>,
    draws: Seq<DrillAxes>,
)
    ensures
        route_events(m, slot, parents, events, draws).0.depth <= m.depth + events.len(),
        route_events(m, slot, parents, events, draws).0.depth >= m.depth,
    decreases events.len(),
{
    if events.len() != 0 {
        let r = route_event(m, slot, parents, events[0], draws[0]);
        lemma_route_events_depth(r.0, r.1, parents, events.drop_first(), draws.drop_first());
    }
}

/// Advances a running drill card by one tick; on the tick the axes settle,
/// a fully in-band stop digs one scoop and destroys the card.
pub struct DrillUpdateSystem;

impl DrillUpdateSystem {
    pub fn run(digging: &mut DiggingStatus, slot: &mut CardSlot, delta_millis: u32) -> (scooped:
        bool)
        requires
            old(digging)@.inv(),
            slot_inv(*old(slot)),
            old(digging)@.depth < u32::MAX,
            delta_millis <= DRILL_TICK_LIMIT_MILLIS,
        ensures
            final(digging)@.inv(),
            slot_inv(*final(slot)),
            final(digging)@ == drill_update_step(old(digging)@, old(slot).active, delta_millis as int).0,
            final(slot).active == drill_update_step(
                old(digging)@,
                old(slot).active,
                delta_millis as int,
            ).1,
            scooped == drill_update_step(old(digging)@, old(slot).active, delta_millis as int).2,
    {
        let mut scooped = false;
        if let Some(ac) = slot.active {
            if let DiggingCard::Drill(DrillState::Running { velocity: v, position: p }) = ac.card {
                let p2 = DrillAxes {
                    x: advance_axis(p.x, v.x, delta_millis),
                    y: advance_axis(p.y, v.y, delta_millis),
                    z: advance_axis(p.z, v.z, delta_millis),
                };
                let v2 = DrillAxes {
                    x: decay_axis(v.x, delta_millis),
                    y: decay_axis(v.y, delta_millis),
                    z: decay_axis(v.z, delta_millis),
                };
                if v2.x == 0 && v2.y == 0 && v2.z == 0 {
                    if DRILL_BAND_LOW < p2.x && p2.x < DRILL_BAND_HIGH && DRILL_BAND_LOW < p2.y
                        && p2.y < DRILL_BAND_HIGH && DRILL_BAND_LOW < p2.z
                        && p2.z < DRILL_BAND_HIGH {
                        slot.active = None;
                        digging.scoop(false);
                        scooped = true;
                    } else {
                        slot.active = Some(ActiveCard {
                            card: DiggingCard::Drill(DrillState::Idling(p2.x, p2.y, p2.z)),
                            ..ac
                        });
                    }
                } else {
                    slot.active = Some(ActiveCard {
                        card: DiggingCard::Drill(DrillState::Running { velocity: v2, position: p2 }),
                        ..ac
                    });
                }
            }
        }
        scooped
    }
}

/// One whole card-side frame, in the fixed dispatch order: click marking,
/// card spawning, event routing under the given velocity draws, then the
/// drill and bucket card ticks. Returns the new account, the new card
/// slot, the new alerts, whether the drill run succeeded, and whether a
/// bucket was emptied.
pub open spec fn cards_frame(
    m: DiggingModel,
    slot: Option<ActiveCard>,
    alerts: Seq<Alertable>,
    entities: Seq<usize>,
    parents: Seq<Option<usize>>,
    events: Seq<UiEvent>,
    draws: Seq<DrillAxes>,
    new_entity: usize,
    dt: int,
) -> (DiggingModel, Option<ActiveCard>, Seq<Alertable>, bool, bool) {
    let alerts1 = alerts_after_clicks(alerts, entities, events);
    let s1 = spawn_fold(alerts1, slot, new_entity);
    let r2 = route_events(m, s1, parents, events, draws);
    let r3 = drill_update_step(r2.0, r2.1, dt);
    let r4 = bucket::bucket_tick_step(r3.0, r3.1, dt);
    (r4.0, r4.1, alerts1, r3.2, r4.2)
}

/// Runs the card-side systems of one frame in their fixed order. Returns
/// whether any alert was clicked (so the caller can replace the card's
/// widget), whether the drill run succeeded, and whether a bucket was
/// emptied, each owed a sound or widget action by the caller.
pub struct CardsBundle;

impl CardsBundle {
    pub fn run(
        digging: &mut DiggingStatus,
        slot: &mut CardSlot,
        alerts: &mut Vec<Alertable>,
        entities: &Vec<usize>,
        parents: &Vec<Option<usize>>,
        events: &Vec<UiEvent>,
        new_entity: usize,
        delta_millis: u32,
    ) -> (r: (bool, bool, bool))
        requires
            old(digging)@.inv(),
            slot_inv(*old(slot)),
            entities@.len() == old(alerts)@.len(),
            parents@.len() < usize::MAX,
            old(digging)@.depth + events@.len() + 1 <= u32::MAX,
            delta_millis <= DRILL_TICK_LIMIT_MILLIS,
        ensures
            final(digging)@.inv(),
            slot_inv(*final(slot)),
            r.0 == (exists|i: int|
                0 <= i < final(alerts)@.len() && (#[trigger] final(alerts)@[i]).clicked),
            exists|draws: Seq<DrillAxes>|
                #![auto]
                draws.len() == events@.len() && bounded_draws(draws) && cards_frame(
                    old(digging)@,
                    old(slot).active,
                    old(alerts)@,
                    entities@,
                    parents@,
                    events@,
                    draws,
                    new_entity,
                    delta_millis as int,
                ) == (final(digging)@, final(slot).active, final(alerts)@, r.1, r.2),
    {
        let ghost m0 = digging@;
        let ghost s0 = slot.active;
        let ghost alerts0 = alerts@;
        AlertableUpdateSystem::run(alerts, entities, events);
        let clicked = CardSpawningSystem::run(alerts, slot, new_entity);
        let ghost s1 = slot.active;
        CardInputSystem::run(digging, slot, parents, events);
        let ghost m2 = digging@;
        let ghost s2 = slot.active;
        let ghost draws_w: Seq<DrillAxes> = choose|ds: Seq<DrillAxes>|
            #![auto]
            ds.len() == events@.len() && bounded_draws(ds) && route_events(
                m0,
                s1,
                parents@,
                events@,
                ds,
            ) == (m2, s2);
        proof {
            lemma_route_events_depth(m0, s1, parents@, events@, draws_w);
        }
        let scooped = DrillUpdateSystem::run(digging, slot, delta_millis);
        let emptied = bucket::BucketUpdateSystem::run(digging, slot, delta_millis);
        proof {
            assert(cards_frame(
                m0,
                s0,
                alerts0,
                entities@,
                parents@,
                events@,
                draws_w,
                new_entity,
                delta_millis as int,
            ) == (digging@, slot.active, alerts@, scooped, emptied));
        }
        (clicked, scooped, emptied)
    }
}

} // verus!
