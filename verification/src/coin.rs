//! The coin: a pickup entity worth a score bonus. Once collected it is
//! terminal: it takes no further part in physics or scoring.

use vstd::prelude::*;
use crate::types::{world_to_screen_coords, ActorType, Vec2, POS_LIMIT, SUBUNITS,
    WINDOW_HEIGHT_SU, WINDOW_WIDTH_SU};

verus! {

/// World X coordinate of the coin's fixed spot, in subunits (210 world
/// units right of centre).
pub const COIN_START_X_SU: i64 = 210 * SUBUNITS;

/// World Y coordinate of the coin's fixed spot, in subunits (270 world
/// units below centre).
pub const COIN_START_Y_SU: i64 = -270 * SUBUNITS;

/// A collectible coin.
#[derive(Debug, Clone, Copy, PartialEq, Eq)]
pub struct Coin {
    pub tag: ActorType,
    pub pos: Vec2,
    pub pickedup: bool,
    pub debug: bool,
    pub col_handle: Option<u64>,
}

impl Coin {
    /// A fresh, uncollected coin at its fixed spot. The requested position
    /// is accepted for interface symmetry with the other actors but the
    /// spot is fixed.
    pub fn new(pos: Vec2) -> (coin: Coin)
        ensures
            coin == (Coin {
                tag: ActorType::Coin,
                pos: (Vec2 { x: COIN_START_X_SU, y: COIN_START_Y_SU }),
                pickedup: false,
                debug: true,
                col_handle: None,
            }),
    {
        let _ = pos;
        Coin {
            tag: ActorType::Coin,
            pos: Vec2 { x: COIN_START_X_SU, y: COIN_START_Y_SU },
            pickedup: false,
            debug: true,
            col_handle: None,
        }
    }

    /// The screen-space position at which the collision world's shape for
    /// this coin is to be placed each tick.
    pub fn sync_position(&self) -> (r: Vec2)
        requires
            -POS_LIMIT <= self.pos.x <= POS_LIMIT,
            -POS_LIMIT <= self.pos.y <= POS_LIMIT,
        ensures
            r.x == self.pos.x + WINDOW_WIDTH_SU / 2,
            r.y == WINDOW_HEIGHT_SU - (self.pos.y + WINDOW_HEIGHT_SU / 2),
    {
        world_to_screen_coords(WINDOW_WIDTH_SU, WINDOW_HEIGHT_SU, self.pos)
    }

    /// Registers the collision-world handle that follows this coin.
    pub fn set_col_handle(&mut self, col_handle: u64)
        ensures
            *final(self) == (Coin { col_handle: Some(col_handle), ..*old(self) }),
    {
        self.col_handle = Some(col_handle);
    }

    /// The registered collision-world handle. Querying a coin whose handle
    /// was never registered is an initialization-order fault, so it is
    /// excluded rather than tolerated.
    #[allow(non_snake_case)]
    pub fn getColHandle(&mut self) -> (h: u64)
        requires
            old(self).col_handle is Some,
        ensures
            *final(self) == *old(self),
            h == old(self).col_handle->0,
    {
        self.col_handle.unwrap()
    }

    /// Unregisters the collision-world handle.
    #[allow(non_snake_case)]
    pub fn removeColHandle(&mut self)
        ensures
            *final(self) == (Coin { col_handle: None, ..*old(self) }),
    {
        self.col_handle = None;
    }

    /// Marks the coin as collected; collection is terminal.
    #[allow(non_snake_case)]
    pub fn pickUpCoin(&mut self)
        ensures
            *final(self) == (Coin { pickedup: true, ..*old(self) }),
    {
        self.pickedup = true;
    }

    /// Whether the coin has been collected.
    #[allow(non_snake_case)]
    pub fn isPickedUp(&mut self) -> (b: bool)
        ensures
            *final(self) == *old(self),
            b == old(self).pickedup,
    {
        self.pickedup
    }
}

} // verus!
