//! The goal object (a vending machine): a trigger entity whose collection
//! signals the win condition. Once collected it is terminal.

use vstd::prelude::*;
use crate::types::{world_to_screen_coords, ActorType, Vec2, POS_LIMIT, SUBUNITS,
    WINDOW_HEIGHT_SU, WINDOW_WIDTH_SU};

verus! {

/// Offset between the object's drawn position and its collision shape
/// along the X axis, in subunits (250 world units).
pub const OBJECT_COL_OFFSET_X_SU: i64 = 250 * SUBUNITS;

/// A goal/trigger object.
#[derive(Debug, Clone, Copy, PartialEq, Eq)]
pub struct Object {
    pub tag: ActorType,
    pub pos: Vec2,
    pub pickedup: bool,
    pub debug: bool,
    pub col_handle: Option<u64>,
}

impl Object {
    /// A fresh, untriggered object at the given position.
    pub fn new(pos: Vec2) -> (object: Object)
        ensures
            object == (Object {
                tag: ActorType::Object,
                pos: pos,
                pickedup: false,
                debug: true,
                col_handle: None,
            }),
    {
        Object { tag: ActorType::Object, pos, pickedup: false, debug: true, col_handle: None }
    }

    /// The screen-space position at which the collision world's shape for
    /// this object is to be placed each tick; the shape sits a fixed
    /// offset to the right of the drawn position.
    pub fn sync_position(&self) -> (r: Vec2)
        requires
            -POS_LIMIT <= self.pos.x <= POS_LIMIT,
            -POS_LIMIT <= self.pos.y <= POS_LIMIT,
        ensures
            r.x == self.pos.x + WINDOW_WIDTH_SU / 2 + OBJECT_COL_OFFSET_X_SU,
            r.y == WINDOW_HEIGHT_SU - (self.pos.y + WINDOW_HEIGHT_SU / 2),
    {
        let base: Vec2 = world_to_screen_coords(WINDOW_WIDTH_SU, WINDOW_HEIGHT_SU, self.pos);
        Vec2 { x: base.x + OBJECT_COL_OFFSET_X_SU, y: base.y }
    }

    /// Registers the collision-world handle that follows this object.
    pub fn set_col_handle(&mut self, col_handle: u64)
        ensures
            *final(self) == (Object { col_handle: Some(col_handle), ..*old(self) }),
    {
        self.col_handle = Some(col_handle);
    }

    /// The registered collision-world handle. Querying an object whose
    /// handle was never registered is an initialization-order fault, so it
    /// is excluded rather than tolerated.
    #[allow(non_snake_case)]
    pub fn getColHandle(&mut self) -> (h: u64)
        requires
            old(self).col_handle is Some,
        ensures
            *final(self) == *old(self),
            h == old(self).col_handle->0,
    {
        self.col_handle.unwrap()
    }

    /// Unregisters the collision-world handle.
    #[allow(non_snake_case)]
    pub fn removeColHandle(&mut self)
        ensures
            *final(self) == (Object { col_handle: None, ..*old(self) }),
    {
        self.col_handle = None;
    }

    /// Marks the object as reached; collection is terminal.
    #[allow(non_snake_case)]
    pub fn pickUpObject(&mut self)
        ensures
            *final(self) == (Object { pickedup: true, ..*old(self) }),
    {
        self.pickedup = true;
    }

    /// Whether the object has been reached.
    #[allow(non_snake_case)]
    pub fn isPickedUp(&mut self) -> (b: bool)
        ensures
            *final(self) == *old(self),
            b == old(self).pickedup,
    {
        self.pickedup
    }
}

} // verus!
