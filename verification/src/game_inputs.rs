//! Input translation: raw keys become a small closed set of semantic
//! motion events, and a register of held directional keys decides which
//! direction wins when several are held at once.

use vstd::prelude::*;

verus! {

/// The directions the actor can move in along the X axis.
#[derive(Debug, PartialEq, Eq, Structural, Copy, Clone, Hash)]
pub enum Direction {
    Left,
    Right,
}

/// The closed set of keys the translator understands. The surrounding
/// program maps whatever raw key codes it receives onto these; any key
/// without a meaning here maps to `Other`.
#[derive(Debug, PartialEq, Eq, Structural, Copy, Clone)]
pub enum Key {
    Left,
    Right,
    Jump,
    Other,
}

/// The +1/-1 multiplier a direction applies along the X axis.
pub open spec fn dir_sign(d: Direction) -> int {
    match d {
        Direction::Left => -1,
        Direction::Right => 1,
    }
}

/// The direction a key selects, if any.
pub open spec fn spec_from_key(key: Key) -> Option<Direction> {
    match key {
        Key::Left => Some(Direction::Left),
        Key::Right => Some(Direction::Right),
        _ => None,
    }
}

impl Direction {
    /// The +1/-1 multiplier this direction applies along the X axis.
    pub fn movement(self) -> (m: i64)
        ensures
            m == dir_sign(self),
    {
        match self {
            Direction::Left => -1,
            Direction::Right => 1,
        }
    }

    #[allow(non_snake_case)]
    fn fromKey(key: Key) -> (d: Option<Direction>)
        ensures
            d == spec_from_key(key),
    {
        match key {
            Key::Left => Some(Direction::Left),
            Key::Right => Some(Direction::Right),
            _ => None,
        }
    }
}

/// Semantic events produced for the motion state machine.
#[derive(Debug, PartialEq, Eq, Copy, Clone)]
pub enum InputEvent {
    /// Begin or continue moving in a direction, or stop when `None`.
    UpdateMovement(Option<Direction>),
    /// A jump was requested.
    PressJump,
    /// A clock notification; currently without effect.
    TimeUpdate,
    /// The actor touched down on a supporting surface.
    Landed,
}

/// The most recently pressed direction that is still held, if any.
pub open spec fn last_dir(held: Seq<Direction>) -> Option<Direction> {
    if held.len() == 0 {
        None
    } else {
        Some(held.last())
    }
}

/// `held` with every occurrence of `d` removed, keeping the order of the
/// rest.
pub open spec fn without_dir(held: Seq<Direction>, d: Direction) -> Seq<Direction>
    decreases held.len(),
{
    if held.len() == 0 {
        Seq::empty()
    } else if held.last() == d {
        without_dir(held.drop_last(), d)
    } else {
        without_dir(held.drop_last(), d).push(held.last())
    }
}

/// The register of directional keys currently held, most recent last, used
/// to keep the actor moving while keys stay pressed and to decide which
/// direction wins when keys are released out of order.
#[derive(Debug, Clone, PartialEq, Eq)]
pub struct GameInput {
    pub held_dirs: Vec<Direction>,
}

impl GameInput {
    /// An input translator with no keys held.
    pub fn new() -> (g: GameInput)
        ensures
            g.held_dirs@ == Seq::<Direction>::empty(),
    {
        GameInput { held_dirs: Vec::new() }
    }

    /// A key was pressed: a directional key is recorded as held and begins
    /// movement; the jump key re-announces the currently winning direction;
    /// any other key means nothing here.
    pub fn key_down_event(&mut self, key: Key) -> (r: Option<InputEvent>)
        ensures
            (spec_from_key(key) matches Some(d) ==> {
                &&& final(self).held_dirs@ == old(self).held_dirs@.push(d)
                &&& r == Some(InputEvent::UpdateMovement(Some(d)))
            }),
            spec_from_key(key) is None ==> *final(self) == *old(self),
            key == Key::Jump ==> r == Some(
                InputEvent::UpdateMovement(last_dir(old(self).held_dirs@)),
            ),
            spec_from_key(key) is None && key != Key::Jump ==> r is None,
    {
        if let Some(direction) = Direction::fromKey(key) {
            self.held_dirs.push(direction);
            Some(InputEvent::UpdateMovement(Some(direction)))
        } else if key == Key::Jump {
            Some(InputEvent::UpdateMovement(self.held_dirs()))
        } else {
            None
        }
    }

    /// A key was released: a directional key is struck from the register
    /// and movement switches to the direction still held that was pressed
    /// most recently, or stops if none is left.
    pub fn key_up_event(&mut self, key: Key) -> (r: Option<InputEvent>)
        ensures
            (spec_from_key(key) matches Some(d) ==> {
                &&& final(self).held_dirs@ == without_dir(old(self).held_dirs@, d)
                &&& r == Some(InputEvent::UpdateMovement(last_dir(final(self).held_dirs@)))
            }),
            spec_from_key(key) is None ==> *final(self) == *old(self) && r is None,
    {
        if let Some(direction) = Direction::fromKey(key) {
            let ghost all: Seq<Direction> = self.held_dirs@;
            let mut kept: Vec<Direction> = Vec::new();
            let n: usize = self.held_dirs.len();
            let mut i: usize = 0;
            while i < n
                invariant
                    i <= n,
                    n == self.held_dirs@.len(),
                    self.held_dirs@ == all,
                    kept@ == without_dir(all.take(i as int), direction),
                decreases n - i,
            {
                let d: Direction = self.held_dirs[i];
                proof {
                    assert(all.take(i + 1 as int).drop_last() =~= all.take(i as int));
                    assert(all.take(i + 1 as int).last() == all[i as int]);
                }
                if d != direction {
                    kept.push(d);
                }
                i = i + 1;
            }
            proof {
                assert(all.take(n as int) =~= all);
            }
            self.held_dirs = kept;
            Some(InputEvent::UpdateMovement(self.held_dirs()))
        } else {
            None
        }
    }

    /// The direction still held that was pressed most recently, if any.
    pub fn held_dirs(&self) -> (r: Option<Direction>)
        ensures
            r == last_dir(self.held_dirs@),
    {
        let n: usize = self.held_dirs.len();
        if n == 0 {
            None
        } else {
            Some(self.held_dirs[n - 1])
        }
    }
}

} // verus!
