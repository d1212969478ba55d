//! The bucket card: holding the fill control accumulates progress, and
//! crossing the success threshold empties one full bucket.

use vstd::prelude::*;

verus! {

use crate::cards::ActiveCard;
use crate::cards::CardSlot;
use crate::cards::DiggingCard;
use crate::digging::DiggingModel;
use crate::digging::DiggingStatus;

/// Milliseconds the fill control must be held to empty one bucket.
pub const BUCKET_SUCCESS_MILLIS: u32 = 1000;

/// Sub-state of the bucket alert.
#[derive(Clone, Copy, Debug, PartialEq, Eq, Structural)]
pub enum BucketAlertState {
    /// The topmost bucket is empty.
    Empty,
    /// The topmost bucket holds the given number of scoops.
    Filled(u32),
}

/// State of the bucket card. The payload of `Unheld` and `Held` is the hold
/// progress in milliseconds; releasing preserves it for display, re-holding
/// restarts it.
#[derive(Clone, Copy, Debug, PartialEq, Eq, Structural)]
pub enum BucketState {
    Empty,
    Unheld(u32),
    Held(u32),
    Finished(u32),
}

/// Well-formedness of a bucket card: while held, the progress has not yet
/// been consumed by a threshold crossing.
pub open spec fn bucket_state_inv(s: BucketState) -> bool {
    match s {
        BucketState::Held(p) => p < BUCKET_SUCCESS_MILLIS,
        _ => true,
    }
}

/// One tick of the bucket card while it is held: progress accumulates, and
/// crossing the success threshold empties one full bucket, finishing the
/// card when no full bucket remains afterwards (or none was there to empty).
/// A finished card is destroyed on the following tick. Returns the new
/// account, the new slot, and whether a bucket was emptied.
pub open spec fn bucket_tick_step(m: DiggingModel, slot: Option<ActiveCard>, dt: int) -> (
    DiggingModel,
    Option<ActiveCard>,
    bool,
) {
    match slot {
        Some(ac) => match ac.card {
            DiggingCard::Bucket(BucketState::Held(p)) => {
                let p2 = p + dt;
                if p2 >= BUCKET_SUCCESS_MILLIS {
                    if m.no_buckets() {
                        (m, Some(ActiveCard {
                            card: DiggingCard::Bucket(BucketState::Finished(BUCKET_SUCCESS_MILLIS)),
                            ..ac
                        }), false)
                    } else {
                        let m2 = m.empty_step();
                        if m2.no_buckets() {
                            (m2, Some(ActiveCard {
                                card: DiggingCard::Bucket(
                                    BucketState::Finished(BUCKET_SUCCESS_MILLIS),
                                ),
                                ..ac
                            }), true)
                        } else {
                            (m2, Some(ActiveCard {
                                card: DiggingCard::Bucket(BucketState::Unheld(p2 as u32)),
                                ..ac
                            }), true)
                        }
                    }
                } else {
                    (m, Some(ActiveCard {
                        card: DiggingCard::Bucket(BucketState::Held(p2 as u32)),
                        ..ac
                    }), false)
                }
            },
            DiggingCard::Bucket(BucketState::Finished(_)) => (m, None, false),
            _ => (m, slot, false),
        },
        None => (m, slot, false),
    }
}

/// Law: a hold that reaches the success threshold on this tick empties
/// exactly one full bucket, and the card moves to Finished when no full
/// bucket remains afterwards, else back to Unheld carrying the crossed
/// progress.
pub proof fn lemma_bucket_hold_crossing(m: DiggingModel, ac: ActiveCard, p: u32, dt: int)
    requires
        m.inv(),
        !m.no_buckets(),
        ac.card == DiggingCard::Bucket(BucketState::Held(p)),
        0 <= dt,
        p + dt >= BUCKET_SUCCESS_MILLIS,
    ensures
        bucket_tick_step(m, Some(ac), dt).0 == m.empty_step(),
        bucket_tick_step(m, Some(ac), dt).2 == true,
        m.empty_step().no_buckets() ==> bucket_tick_step(m, Some(ac), dt).1 == Some(
            ActiveCard {
                card: DiggingCard::Bucket(BucketState::Finished(BUCKET_SUCCESS_MILLIS)),
                ..ac
            },
        ),
        !m.empty_step().no_buckets() ==> bucket_tick_step(m, Some(ac), dt).1 == Some(
            ActiveCard { card: DiggingCard::Bucket(BucketState::Unheld((p + dt) as u32)), ..ac },
        ),
{
}

/// Advances the bucket card by one tick. Returns whether a bucket was
/// emptied, so the caller can play the matching sound cue.
pub struct BucketUpdateSystem;

impl BucketUpdateSystem {
    pub fn run(digging: &mut DiggingStatus, slot: &mut CardSlot, delta_millis: u32) -> (emptied:
        bool)
        requires
            old(digging)@.inv(),
            crate::cards::slot_inv(*old(slot)),
            delta_millis + BUCKET_SUCCESS_MILLIS <= u32::MAX,
        ensures
            final(digging)@.inv(),
            crate::cards::slot_inv(*final(slot)),
            final(digging)@ == bucket_tick_step(old(digging)@, old(slot).active, delta_millis as int).0,
            final(slot).active == bucket_tick_step(
                old(digging)@,
                old(slot).active,
                delta_millis as int,
            ).1,
            emptied == bucket_tick_step(old(digging)@, old(slot).active, delta_millis as int).2,
    {
        let mut emptied = false;
        if let Some(ac) = slot.active {
            match ac.card {
                DiggingCard::Bucket(BucketState::Held(p)) => {
                    let p2 = p + delta_millis;
                    if p2 >= BUCKET_SUCCESS_MILLIS {
                        if digging.no_buckets() {
                            slot.active = Some(ActiveCard {
                                card: DiggingCard::Bucket(
                                    BucketState::Finished(BUCKET_SUCCESS_MILLIS),
                                ),
                                ..ac
                            });
                        } else {
                            let _ = digging.empty_bucket();
                            emptied = true;
                            if digging.no_buckets() {
                                slot.active = Some(ActiveCard {
                                    card: DiggingCard::Bucket(
                                        BucketState::Finished(BUCKET_SUCCESS_MILLIS),
                                    ),
                                    ..ac
                                });
                            } else {
                                slot.active = Some(ActiveCard {
                                    card: DiggingCard::Bucket(BucketState::Unheld(p2)),
                                    ..ac
                                });
                            }
                        }
                    } else {
                        slot.active = Some(ActiveCard {
                            card: DiggingCard::Bucket(BucketState::Held(p2)),
                            ..ac
                        });
                    }
                },
                DiggingCard::Bucket(BucketState::Finished(_)) => {
                    slot.active = None;
                },
                _ => {},
            }
        }
        emptied
    }
}

/// Decides how the bucket card's pull bar is displayed: the remaining share
/// of the hold, in thousandths, or nothing when no bucket card is active.
pub struct BucketRenderingSystem;

impl BucketRenderingSystem {
    pub fn run(slot: &CardSlot) -> (r: Option<u32>)
        ensures
            r == match slot.active {
                Some(ac) => match ac.card {
                    DiggingCard::Bucket(BucketState::Held(p)) => Some(
                        (if p < BUCKET_SUCCESS_MILLIS {
                            BUCKET_SUCCESS_MILLIS - p
                        } else {
                            0
                        }) as u32,
                    ),
                    DiggingCard::Bucket(BucketState::Finished(_)) => Some(0u32),
                    DiggingCard::Bucket(_) => Some(BUCKET_SUCCESS_MILLIS),
                    _ => None,
                },
                None => None,
            },
    {
        match slot.active {
            Some(ac) => match ac.card {
                DiggingCard::Bucket(BucketState::Held(p)) => {
                    if p < BUCKET_SUCCESS_MILLIS {
                        Some(BUCKET_SUCCESS_MILLIS - p)
                    } else {
                        Some(0)
                    }
                },
                DiggingCard::Bucket(BucketState::Finished(_)) => Some(0),
                DiggingCard::Bucket(_) => Some(BUCKET_SUCCESS_MILLIS),
                _ => None,
            },
            None => None,
        }
    }
}

} // verus!
