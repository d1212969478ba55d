//! Sprite selection for the hole's tile grid: the dug/undug background
//! tiles and the overlay sprites (shovel flash, robot, drill) that follow
//! the digging front.

use vstd::prelude::*;

verus! {

use crate::BLOCKS_PER_METER;
use crate::digging::DiggingModel;
use crate::digging::DiggingStatus;
use crate::digging::DrillStatus;
use crate::digging::RobotStatus;

/// Depth, in scoops, at which the session is won.
pub const VICTORY_DEPTH: u32 = 500;

/// How long the shovel-impact frame stays on screen, in milliseconds.
pub const SHOVEL_FLASH_MILLIS: u32 = 125;

/// The background sprite of the tile at `(x, y)`: rows above the digging
/// front are dug out, rows below are untouched, and the front row is dug
/// out up to the current block, whose own sprite shows its partial height.
/// Deeper rows use the second sprite bank.
pub open spec fn spec_hole_sprite(x: int, y: int, m: DiggingModel) -> Option<usize> {
    let sprite_idx: int = if y <= 15 {
        0
    } else {
        16
    };
    if y < m.level() {
        Some((sprite_idx + 4) as usize)
    } else if y > m.level() {
        Some(sprite_idx as usize)
    } else if x < m.current_block() {
        Some((sprite_idx + 4) as usize)
    } else if x == m.current_block() {
        Some((sprite_idx + m.current_block_height()) as usize)
    } else {
        Some(sprite_idx as usize)
    }
}

/// The overlay sprite of the tile at `(x, y)`: the freshly dug block shows
/// the shovel (flashing briefly after each manual scoop), the block two
/// behind shows the robot when it idles, and the block one meter behind
/// shows the drill once it is unlocked.
pub open spec fn spec_sprite_tile(x: int, y: int, m: DiggingModel) -> Option<usize> {
    let block_index = m.block_index();
    let tile_index = y * (BLOCKS_PER_METER as int) + x;
    if block_index > 0 && tile_index == block_index - 1 {
        if m.time_since_shovel < SHOVEL_FLASH_MILLIS {
            Some(9)
        } else {
            Some(8)
        }
    } else if block_index > 1 && tile_index == block_index - 2 {
        match m.robot_status {
            RobotStatus::Locked => None,
            RobotStatus::Running { .. } => None,
            RobotStatus::Idling => Some(12),
        }
    } else if block_index >= BLOCKS_PER_METER && tile_index == block_index - (
    BLOCKS_PER_METER as int) {
        match m.drill_status {
            DrillStatus::Locked => None,
            DrillStatus::Running { .. } => Some(10),
            DrillStatus::Idling => Some(11),
        }
    } else {
        None
    }
}

/// The background tiles of the hole.
#[derive(Clone, Copy, Debug, PartialEq, Eq, Structural)]
pub struct HoleTile;

impl HoleTile {
    /// The sprite of the background tile at `(x, y)` of the hole's grid,
    /// which is `BLOCKS_PER_METER` tiles wide and `VICTORY_DEPTH` tall.
    pub fn sprite(&self, x: u32, y: u32, digging: &DiggingStatus) -> (r: Option<usize>)
        requires
            digging@.inv(),
        ensures
            r == spec_hole_sprite(x as int, y as int, digging@),
    {
        let sprite_idx: usize = if y <= 15 {
            0
        } else {
            16
        };
        let level = digging.level();
        if y < level {
            Some(sprite_idx + 4)
        } else if y > level {
            Some(sprite_idx)
        } else if x < digging.current_block() {
            Some(sprite_idx + 4)
        } else if x == digging.current_block() {
            Some(sprite_idx + digging.current_block_height() as usize)
        } else {
            Some(sprite_idx)
        }
    }
}

/// The overlay sprites that follow the digging front.
#[derive(Clone, Copy, Debug, PartialEq, Eq, Structural)]
pub struct SpriteTile;

impl SpriteTile {
    /// The overlay sprite of the tile at `(x, y)`, bounded by the tile
    /// grid's dimensions.
    pub fn sprite(&self, x: u32, y: u32, digging: &DiggingStatus) -> (r: Option<usize>)
        requires
            digging@.inv(),
            x < BLOCKS_PER_METER,
            y < VICTORY_DEPTH,
        ensures
            r == spec_sprite_tile(x as int, y as int, digging@),
    {
        let block_index = digging.block_index();
        let tile_index = y * BLOCKS_PER_METER + x;
        if block_index > 0 && tile_index == block_index - 1 {
            if digging.time_since_shovel() < SHOVEL_FLASH_MILLIS {
                Some(9)
            } else {
                Some(8)
            }
        } else if block_index > 1 && tile_index == block_index - 2 {
            match digging.robot_status() {
                RobotStatus::Locked => None,
                RobotStatus::Running { .. } => None,
                RobotStatus::Idling => Some(12),
            }
        } else if block_index >= BLOCKS_PER_METER && tile_index == block_index - BLOCKS_PER_METER {
            match digging.drill_status() {
                DrillStatus::Locked => None,
                DrillStatus::Running { .. } => Some(10),
                DrillStatus::Idling => Some(11),
            }
        } else {
            None
        }
    }
}

} // verus!
