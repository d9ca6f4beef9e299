//! The motion state machine: one actor's kinematic state and the pure
//! fixed-step integrator that advances it.
//!
//! Every transition is specified exactly by a function on `PlayerModel`,
//! the mathematical image of the actor's state, and each executable
//! operation is proved equal to its specification. Velocities are in
//! subunits per step, times in ticks of 1/6000 of a second, so each
//! physical constant is an exact integer.

use vstd::prelude::*;
use crate::types::{world_to_screen_coords, ActorType, Vec2, POS_LIMIT, SUBUNITS,
    WINDOW_HEIGHT_SU, WINDOW_WIDTH_SU};
use crate::game_inputs::{dir_sign, Direction, InputEvent};
use crate::step_queue::{distinct_steps, enqueued, lemma_drop_front_preserves_distinct,
    lemma_enqueue_preserves_distinct, Step, StepQueue};

verus! {

/// Length of one fixed physics step, in ticks (1/60 of a second).
pub const STEP_PERIOD_TICKS: i64 = 100;

/// Horizontal speed gained per step while accelerating with held input.
pub const MOVE_ACCEL: i64 = 150;

/// Horizontal speed shed per step while stopping on the ground.
pub const STOP_ACCEL: i64 = 350;

/// Vertical speed lost per step while airborne.
pub const FALL_ACCEL: i64 = 360;

/// Upward velocity impulse applied when a jump launches.
pub const JUMP_SPEED: i64 = 3600;

/// Largest downward speed while jumping or falling.
pub const MAX_FALL_SPEED: i64 = 2400;

/// Largest horizontal speed in either direction.
pub const MAX_MOVE_SPEED: i64 = 600;

/// Base hang time of a jump, in ticks (0.21 seconds).
pub const JUMP_BASE_TICKS: i64 = 1260;

/// Extra hang time granted at full horizontal speed, in ticks (0.10
/// seconds).
pub const JUMP_BONUS_TICKS: i64 = 600;

/// Length of one animation frame, in ticks (0.16 seconds); landing backdates
/// the state-entry time by this much so the landing animation does not
/// restart from its first frame.
pub const GRAPHIC_STEP_TICKS: i64 = 960;

/// Bound on clock values accepted by the machine; generous beyond any
/// reachable session length, and small enough that every timestamp sum
/// fits in an `i64`.
pub const TIME_LIMIT: i64 = 1_000_000_000_000;

/// Half the width of the visible world, in subunits (960 world units).
pub const HALF_WINDOW_WIDTH_SU: i64 = 960 * SUBUNITS;

/// World X coordinate beyond which the actor is pulled back from the right
/// edge.
pub const RIGHT_EDGE_X: i64 = HALF_WINDOW_WIDTH_SU - 226 * SUBUNITS;

/// World X coordinate the actor is placed at after crossing the right edge.
pub const RIGHT_EDGE_CLAMP_X: i64 = HALF_WINDOW_WIDTH_SU - 227 * SUBUNITS;

/// World X coordinate beyond which the actor is pulled back from the left
/// edge.
pub const LEFT_EDGE_X: i64 = -HALF_WINDOW_WIDTH_SU;

/// World X coordinate the actor is placed at after crossing the left edge.
pub const LEFT_EDGE_CLAMP_X: i64 = -HALF_WINDOW_WIDTH_SU + 5 * SUBUNITS;

/// The allowable states of the motion state machine.
#[derive(Clone, Copy, PartialEq, Eq, Structural, Debug, Hash)]
pub enum PlayerState {
    Jumping,
    Walking,
    Idle,
}

/// The allowable sizes of the actor.
#[derive(Clone, Copy, PartialEq, Eq, Structural, Debug, Hash)]
pub enum PlayerSize {
    Big,
}

/// The mathematical image of an actor's state: every field of `Player`
/// widened to unbounded integers, with the pending step requests as a
/// sequence.
pub ghost struct PlayerModel {
    pub time: int,
    pub state_start_time: int,
    pub tag: ActorType,
    pub pos_x: int,
    pub pos_y: int,
    pub dir: Direction,
    pub state: PlayerState,
    pub size: PlayerSize,
    pub moving: bool,
    pub grounded: bool,
    pub jump_time: int,
    pub vel_x: int,
    pub vel_y: int,
    pub debug: bool,
    pub col_handle: Option<u64>,
    pub queue: Seq<Step>,
}

impl PlayerModel {
    /// Well-formedness: speeds within their physical bounds, the clock in
    /// range, and at most one pending step request per tag. Every operation
    /// of the machine preserves this.
    pub open spec fn wf(self) -> bool {
        &&& -MAX_MOVE_SPEED <= self.vel_x <= MAX_MOVE_SPEED
        &&& -MAX_FALL_SPEED <= self.vel_y <= JUMP_SPEED
        &&& 0 <= self.time <= TIME_LIMIT
        &&& distinct_steps(self.queue)
    }
}

/// The sign convention of the integrator: negative speeds count as -1,
/// zero and positive speeds as +1.
pub open spec fn sign_or_one(x: int) -> int {
    if x < 0 {
        -1
    } else {
        1
    }
}

/// Absolute value.
pub open spec fn abs_of(x: int) -> int {
    if x < 0 {
        -x
    } else {
        x
    }
}

/// `x` clamped to the interval `[lo, hi]`.
pub open spec fn clamp_between(x: int, lo: int, hi: int) -> int {
    if x < lo {
        lo
    } else if x > hi {
        hi
    } else {
        x
    }
}

/// How many ticks a jump lasts when launched at the given absolute
/// horizontal speed: a base hang time plus a bonus growing with speed.
pub open spec fn spec_jump_duration(x_speed: int) -> int {
    JUMP_BASE_TICKS + (JUMP_BONUS_TICKS * x_speed) / (MAX_MOVE_SPEED as int)
}

/// Speed-limit enforcement: horizontal speed clamped symmetrically; while
/// jumping, downward speed clamped to the fall limit; in any other state
/// vertical speed is pinned to exactly zero (the actor rests on the ground
/// rather than settling under gravity).
pub open spec fn spec_update_movement(m: PlayerModel) -> PlayerModel {
    let vx = clamp_between(m.vel_x, -(MAX_MOVE_SPEED as int), MAX_MOVE_SPEED as int);
    let vy = if m.state is Jumping {
        if m.vel_y < -MAX_FALL_SPEED {
            -(MAX_FALL_SPEED as int)
        } else {
            m.vel_y
        }
    } else {
        0
    };
    PlayerModel { vel_x: vx, vel_y: vy, ..m }
}

/// Grounded-status reconciliation. Vertically settled while not jumping
/// means touching down (with the state-entry time backdated by one
/// animation frame); becoming vertically unsettled while grounded means
/// going airborne, except that in the near-ground case the actor is
/// instead forced to the maximum fall speed to avoid a one-frame floating
/// artifact.
pub open spec fn spec_update_grounded(m: PlayerModel, near_ground: bool) -> PlayerModel {
    let on_ground = m.vel_y == 0 && !(m.state is Jumping);
    if !m.grounded && on_ground {
        spec_update_movement(
            PlayerModel { state_start_time: m.time - GRAPHIC_STEP_TICKS, grounded: true, ..m },
        )
    } else if m.grounded && !on_ground && !near_ground {
        spec_update_movement(PlayerModel { state_start_time: m.time, grounded: false, ..m })
    } else if m.grounded && !on_ground && near_ground {
        PlayerModel { vel_y: -(MAX_FALL_SPEED as int), ..m }
    } else {
        m
    }
}

/// Movement-intent bookkeeping. An airborne actor that is not flagged
/// jumping is first corrected to jumping. While jumping or walking the
/// intent and facing are recorded (and the state-entry time reset when
/// either changes); in the idle state the intent is simply cleared.
pub open spec fn spec_set_movement(m: PlayerModel, movement: Option<Direction>) -> PlayerModel {
    let m0 = if !m.grounded && !(m.state is Jumping) {
        PlayerModel { state: PlayerState::Jumping, ..m }
    } else {
        m
    };
    if m0.state is Jumping || m0.state is Walking {
        let mv = movement is Some;
        let d = if movement is Some {
            movement->0
        } else {
            m0.dir
        };
        let sst = if m0.moving != mv || m0.dir != d {
            m0.time
        } else {
            m0.state_start_time
        };
        PlayerModel { moving: mv, dir: d, state_start_time: sst, ..m0 }
    } else {
        PlayerModel { moving: false, ..m0 }
    }
}

/// One fixed integration step.
///
/// Horizontal: with held intent, accelerate with `MOVE_ACCEL` when already
/// drifting in the pressed direction, otherwise shed speed at the stopping
/// magnitude first (no instant reversal); without intent, a grounded actor
/// brakes by `STOP_ACCEL` toward zero while an airborne one keeps its
/// momentum. Vertical: gravity applies whenever the actor is airborne or
/// the jump-arc timer has elapsed. Position then advances by the new
/// velocity, speed limits are enforced, and the grounded status is
/// re-derived.
pub open spec fn spec_step(m: PlayerModel) -> PlayerModel {
    let stop_accel = if m.grounded {
        STOP_ACCEL as int
    } else {
        MOVE_ACCEL as int
    };
    let vx = if m.moving {
        let accel = if dir_sign(m.dir) == sign_or_one(m.vel_x) {
            MOVE_ACCEL as int
        } else {
            stop_accel
        };
        m.vel_x + dir_sign(m.dir) * accel
    } else if m.grounded {
        if abs_of(m.vel_x) > stop_accel {
            m.vel_x - sign_or_one(m.vel_x) * stop_accel
        } else {
            0
        }
    } else {
        m.vel_x
    };
    let vy = if m.time > m.jump_time || !m.grounded {
        m.vel_y - FALL_ACCEL
    } else {
        m.vel_y
    };
    let moved = PlayerModel {
        vel_x: vx,
        vel_y: vy,
        pos_x: m.pos_x + vx,
        pos_y: m.pos_y + vy,
        ..m
    };
    spec_update_grounded(spec_update_movement(moved), false)
}

/// A jump launch: only effective while grounded. The actor goes airborne,
/// the jump-arc timer is set from the current horizontal speed, the launch
/// impulse replaces the vertical speed, the current movement intent is
/// re-asserted, and a re-step is requested.
pub open spec fn spec_jump(m: PlayerModel) -> PlayerModel {
    if m.grounded {
        let m1 = PlayerModel {
            grounded: false,
            state_start_time: m.time,
            jump_time: m.time + spec_jump_duration(abs_of(m.vel_x)),
            vel_y: JUMP_SPEED as int,
            ..m
        };
        let m2 = if m1.moving {
            spec_set_movement(m1, Some(m1.dir))
        } else {
            spec_set_movement(m1, None)
        };
        PlayerModel { queue: enqueued(m2.queue, Step::Player), ..m2 }
    } else {
        m
    }
}

/// Draining one scheduled request: the oldest pending request is removed,
/// and if it targets this actor, one integration step runs; requests for
/// other tags are dropped, and an empty queue leaves the state untouched.
pub open spec fn spec_advance(m: PlayerModel) -> PlayerModel {
    if m.queue.len() == 0 {
        m
    } else {
        let front = m.queue[0];
        let m1 = PlayerModel { queue: m.queue.subrange(1, m.queue.len() as int), ..m };
        if front == Step::Player {
            spec_step(m1)
        } else {
            m1
        }
    }
}

/// The event dispatcher.
///
/// A directional update first records the new facing. Stopping enters the
/// idle state and clears intent; a directional update while airborne only
/// refreshes the intent, otherwise it enters the walking state. A jump
/// request outside the jumping state launches a jump and immediately
/// drains one scheduled step so the jump is visible the same frame; while
/// already jumping it is a no-op. A landing while airborne settles the
/// vertical speed, grounds the actor and re-derives walking or idle from
/// the held intent; while already grounded it is a no-op. Every path that
/// changes intent or state also requests a re-step.
pub open spec fn spec_input(m: PlayerModel, event: InputEvent) -> PlayerModel {
    let m0 = match event {
        InputEvent::UpdateMovement(Some(d)) => PlayerModel { dir: d, ..m },
        _ => m,
    };
    match event {
        InputEvent::UpdateMovement(None) => {
            let m1 = PlayerModel { state: PlayerState::Idle, ..m0 };
            let m2 = spec_set_movement(m1, None);
            let m3 = PlayerModel { moving: false, ..m2 };
            PlayerModel { queue: enqueued(m3.queue, Step::Player), ..m3 }
        },
        InputEvent::UpdateMovement(direction) => {
            if m0.state is Jumping && !m0.grounded {
                let m1 = spec_set_movement(m0, direction);
                PlayerModel { queue: enqueued(m1.queue, Step::Player), ..m1 }
            } else {
                let m1 = PlayerModel { state: PlayerState::Walking, ..m0 };
                let m2 = spec_set_movement(m1, direction);
                PlayerModel { queue: enqueued(m2.queue, Step::Player), ..m2 }
            }
        },
        InputEvent::PressJump => {
            if !(m0.state is Jumping) {
                spec_advance(spec_jump(PlayerModel { state: PlayerState::Jumping, ..m0 }))
            } else {
                m0
            }
        },
        InputEvent::TimeUpdate => m0,
        InputEvent::Landed => {
            if !m0.grounded {
                let m1 = PlayerModel { vel_y: 0, grounded: true, ..m0 };
                let m2 = if m1.moving {
                    spec_set_movement(PlayerModel { state: PlayerState::Walking, ..m1 }, Some(m1.dir))
                } else {
                    spec_set_movement(PlayerModel { state: PlayerState::Idle, ..m1 }, None)
                };
                PlayerModel { queue: enqueued(m2.queue, Step::Player), ..m2 }
            } else {
                m0
            }
        },
    }
}

/// World-edge enforcement run by the frame driver before each drain: an
/// actor past either horizontal edge is placed just inside it, halted
/// horizontally, and told to stop moving.
pub open spec fn spec_world_bounds(m: PlayerModel) -> PlayerModel {
    if m.pos_x > RIGHT_EDGE_X || m.pos_x < LEFT_EDGE_X {
        let px = if m.pos_x > RIGHT_EDGE_X {
            RIGHT_EDGE_CLAMP_X as int
        } else {
            LEFT_EDGE_CLAMP_X as int
        };
        spec_input(
            PlayerModel { pos_x: px, vel_x: 0, ..m },
            InputEvent::UpdateMovement(None),
        )
    } else {
        m
    }
}

/// The state an actor spawns in at the given clock reading: the fixed
/// drop-in spawn point, facing right, airborne in the jumping state, at
/// rest, with an empty scheduler.
pub open spec fn spec_initial(time: int) -> PlayerModel {
    PlayerModel {
        time: time,
        state_start_time: time,
        tag: ActorType::Player,
        pos_x: -(WINDOW_WIDTH_SU as int),
        pos_y: 0,
        dir: Direction::Right,
        state: PlayerState::Jumping,
        size: PlayerSize::Big,
        moving: false,
        grounded: false,
        jump_time: time,
        vel_x: 0,
        vel_y: 0,
        debug: true,
        col_handle: None,
        queue: Seq::empty(),
    }
}

/// A freshly spawned actor with the given initial movement intent.
pub open spec fn spec_new_player(time: int, move_dir: Option<Direction>) -> PlayerModel {
    spec_set_movement(spec_initial(time), move_dir)
}

/// The controllable actor: kinematic state, the discrete motion state
/// machine, and its private step scheduler.
#[allow(non_snake_case)]
#[derive(Debug, Clone, PartialEq, Eq)]
pub struct Player {
    pub time: i64,
    pub state_start_time: i64,
    pub tag: ActorType,
    pub pos: Vec2,
    pub dir: Direction,
    pub currentState: PlayerState,
    pub size: PlayerSize,
    pub moving: bool,
    pub grounded: bool,
    pub jump_time: i64,
    pub velocity: Vec2,
    pub debug: bool,
    pub col_handle: Option<u64>,
    pub step_queue: StepQueue,
}

impl View for Player {
    type V = PlayerModel;

    open spec fn view(&self) -> PlayerModel {
        PlayerModel {
            time: self.time as int,
            state_start_time: self.state_start_time as int,
            tag: self.tag,
            pos_x: self.pos.x as int,
            pos_y: self.pos.y as int,
            dir: self.dir,
            state: self.currentState,
            size: self.size,
            moving: self.moving,
            grounded: self.grounded,
            jump_time: self.jump_time as int,
            vel_x: self.velocity.x as int,
            vel_y: self.velocity.y as int,
            debug: self.debug,
            col_handle: self.col_handle,
            queue: self.step_queue@,
        }
    }
}

/// How many ticks a jump launched at the given absolute horizontal speed
/// lasts.
pub fn jump_duration(x_speed: i64) -> (d: i64)
    requires
        0 <= x_speed <= MAX_MOVE_SPEED,
    ensures
        d == spec_jump_duration(x_speed as int),
{
    JUMP_BASE_TICKS + (JUMP_BONUS_TICKS * x_speed) / MAX_MOVE_SPEED
}

/// The sign convention of the integrator, executably.
fn sign_of(x: i64) -> (s: i64)
    ensures
        s == sign_or_one(x as int),
{
    if x < 0 {
        -1
    } else {
        1
    }
}

impl Player {
    /// Spawns the actor at the drop-in spawn point. The requested position
    /// is accepted for interface symmetry with the other actors but the
    /// spawn point is fixed; the initial movement intent is applied at
    /// once.
    pub fn new(pos: Vec2, time: i64, move_dir: Option<Direction>) -> (player: Player)
        requires
            0 <= time <= TIME_LIMIT,
        ensures
            player@ == spec_new_player(time as int, move_dir),
            player@.wf(),
    {
        let _ = pos;
        let mut player = Player {
            time,
            state_start_time: time,
            tag: ActorType::Player,
            pos: Vec2 { x: -WINDOW_WIDTH_SU, y: 0 },
            dir: Direction::Right,
            currentState: PlayerState::Jumping,
            size: PlayerSize::Big,
            moving: false,
            grounded: false,
            jump_time: time,
            velocity: Vec2 { x: 0, y: 0 },
            debug: true,
            col_handle: None,
            step_queue: StepQueue::new(),
        };
        proof {
            assert(player@ == spec_initial(time as int));
        }
        player.set_movement(move_dir);
        proof {
            lemma_set_movement_preserves_wf(spec_initial(time as int), move_dir);
        }
        player
    }

    /// Registers the collision-world handle that follows this actor.
    pub fn set_col_handle(&mut self, col_handle: u64)
        ensures
            final(self)@ == (PlayerModel { col_handle: Some(col_handle), ..old(self)@ }),
    {
        self.col_handle = Some(col_handle);
    }

    /// The registered collision-world handle. Querying an actor whose
    /// handle was never registered is an initialization-order fault, so it
    /// is excluded rather than tolerated.
    #[allow(non_snake_case)]
    pub fn getColHandle(&mut self) -> (h: u64)
        requires
            old(self).col_handle is Some,
        ensures
            *final(self) == *old(self),
            h == old(self).col_handle->0,
    {
        self.col_handle.unwrap()
    }

    /// The screen-space position at which the collision world's shape for
    /// this actor is to be placed; the world's copy of the position is a
    /// follower, synced from this every tick, never authoritative.
    pub fn sync_position(&self) -> (r: Vec2)
        requires
            -POS_LIMIT <= self.pos.x <= POS_LIMIT,
            -POS_LIMIT <= self.pos.y <= POS_LIMIT,
        ensures
            r.x == self.pos.x + WINDOW_WIDTH_SU / 2,
            r.y == WINDOW_HEIGHT_SU - (self.pos.y + WINDOW_HEIGHT_SU / 2),
    {
        world_to_screen_coords(WINDOW_WIDTH_SU, WINDOW_HEIGHT_SU, self.pos)
    }

    /// Dispatches one semantic input event; see `spec_input` for the exact
    /// transition.
    pub fn input(&mut self, event: InputEvent)
        requires
            old(self)@.wf(),
            event is PressJump ==> -POS_LIMIT <= old(self).pos.x <= POS_LIMIT && -POS_LIMIT <= old(
                self,
            ).pos.y <= POS_LIMIT,
        ensures
            final(self)@ == spec_input(old(self)@, event),
    {
        match event {
            InputEvent::UpdateMovement(Some(direction)) => {
                self.dir = direction;
            },
            _ => {},
        }
        match event {
            InputEvent::UpdateMovement(None) => {
                self.currentState = PlayerState::Idle;
                self.set_movement(None);
                self.moving = false;
                self.step_queue.peek_specific(Step::Player);
            },
            InputEvent::UpdateMovement(direction) => {
                if self.currentState == PlayerState::Jumping && !self.grounded {
                    self.set_movement(direction);
                    self.step_queue.peek_specific(Step::Player);
                } else {
                    self.currentState = PlayerState::Walking;
                    self.set_movement(direction);
                    self.step_queue.peek_specific(Step::Player);
                }
            },
            InputEvent::PressJump => {
                if self.currentState != PlayerState::Jumping {
                    self.currentState = PlayerState::Jumping;
                    proof {
                        lemma_jump_preserves_wf(self@);
                    }
                    self.jump();
                    self.advance();
                }
            },
            InputEvent::TimeUpdate => {},
            InputEvent::Landed => {
                if !self.grounded {
                    self.velocity.y = 0;
                    self.grounded = true;
                    let direction: Direction = self.dir;
                    if self.moving {
                        self.currentState = PlayerState::Walking;
                        self.set_movement(Some(direction));
                    } else {
                        self.currentState = PlayerState::Idle;
                        self.set_movement(None);
                    }
                    self.step_queue.peek_specific(Step::Player);
                }
            },
        }
    }

    /// Drains one scheduled step request, stepping the actor if the
    /// request targets it.
    pub fn advance(&mut self)
        requires
            old(self)@.wf(),
            -POS_LIMIT <= old(self).pos.x <= POS_LIMIT,
            -POS_LIMIT <= old(self).pos.y <= POS_LIMIT,
        ensures
            final(self)@ == spec_advance(old(self)@),
    {
        proof {
            if old(self)@.queue.len() > 0 {
                lemma_drop_front_preserves_distinct(old(self)@.queue);
            }
        }
        match self.step_queue.pop() {
            Some(Step::Player) => self.step(),
            _ => {},
        }
    }

    /// Records a new movement intent; see `spec_set_movement`.
    pub fn set_movement(&mut self, movement: Option<Direction>)
        ensures
            final(self)@ == spec_set_movement(old(self)@, movement),
    {
        if !self.grounded && self.currentState != PlayerState::Jumping {
            self.currentState = PlayerState::Jumping;
        }
        if self.currentState == PlayerState::Jumping || self.currentState == PlayerState::Walking {
            let moving: bool;
            let dir: Direction;
            match movement {
                Some(d) => {
                    moving = true;
                    dir = d;
                },
                None => {
                    moving = false;
                    dir = self.dir;
                },
            }
            if self.moving != moving || self.dir != dir {
                self.state_start_time = self.time;
            }
            self.moving = moving;
            self.dir = dir;
        } else {
            self.moving = false;
        }
    }

    /// One fixed integration step; see `spec_step` for the exact rule.
    pub fn step(&mut self)
        requires
            old(self)@.wf(),
            -POS_LIMIT <= old(self).pos.x <= POS_LIMIT,
            -POS_LIMIT <= old(self).pos.y <= POS_LIMIT,
        ensures
            final(self)@ == spec_step(old(self)@),
    {
        let stop_accel: i64 = if self.grounded {
            STOP_ACCEL
        } else {
            MOVE_ACCEL
        };
        let rel_vel_x: i64 = self.velocity.x;
        let new_vel_x: i64 = if self.moving {
            let accel: i64 = if self.dir.movement() == sign_of(rel_vel_x) {
                MOVE_ACCEL
            } else {
                stop_accel
            };
            rel_vel_x + self.dir.movement() * accel
        } else if self.grounded {
            let magnitude: i64 = if rel_vel_x < 0 {
                -rel_vel_x
            } else {
                rel_vel_x
            };
            if magnitude > stop_accel {
                rel_vel_x - sign_of(rel_vel_x) * stop_accel
            } else {
                0
            }
        } else {
            rel_vel_x
        };
        self.velocity.x = new_vel_x;
        if self.time > self.jump_time || !self.grounded {
            self.velocity.y = self.velocity.y - FALL_ACCEL;
        }
        self.pos.x = self.pos.x + self.velocity.x;
        self.pos.y = self.pos.y + self.velocity.y;
        self.update_movement();
        self.update_grounded(false);
    }

    /// Launches a jump; see `spec_jump`. A request while airborne has no
    /// effect.
    pub fn jump(&mut self)
        requires
            old(self)@.wf(),
        ensures
            final(self)@ == spec_jump(old(self)@),
    {
        if self.grounded {
            self.grounded = false;
            self.state_start_time = self.time;
            let x_speed: i64 = if self.velocity.x < 0 {
                -self.velocity.x
            } else {
                self.velocity.x
            };
            self.jump_time = self.time + jump_duration(x_speed);
            self.velocity.y = JUMP_SPEED;
            let direction: Direction = self.dir;
            if self.moving {
                self.set_movement(Some(direction));
            } else {
                self.set_movement(None);
            }
            self.step_queue.peek_specific(Step::Player);
        }
    }

    /// Enforces the speed limits; see `spec_update_movement`.
    fn update_movement(&mut self)
        ensures
            final(self)@ == spec_update_movement(old(self)@),
    {
        if self.velocity.x < -MAX_MOVE_SPEED {
            self.velocity.x = -MAX_MOVE_SPEED;
        }
        if self.velocity.x > MAX_MOVE_SPEED {
            self.velocity.x = MAX_MOVE_SPEED;
        }
        if self.currentState == PlayerState::Jumping {
            if self.velocity.y < -MAX_FALL_SPEED {
                self.velocity.y = -MAX_FALL_SPEED;
            }
        } else {
            self.velocity.y = 0;
        }
    }

    /// Re-derives the grounded status; see `spec_update_grounded`.
    fn update_grounded(&mut self, near_ground: bool)
        requires
            old(self).time >= 0,
        ensures
            final(self)@ == spec_update_grounded(old(self)@, near_ground),
    {
        let on_ground: bool = self.velocity.y == 0 && self.currentState != PlayerState::Jumping;
        if !self.grounded && on_ground {
            self.state_start_time = self.time - GRAPHIC_STEP_TICKS;
            self.grounded = true;
            self.update_movement();
        } else if self.grounded && !on_ground && !near_ground {
            self.state_start_time = self.time;
            self.grounded = false;
            self.update_movement();
        } else if self.grounded && !on_ground && near_ground {
            self.velocity.y = -MAX_FALL_SPEED;
        }
    }

    /// Pulls the actor back inside the world's horizontal edges; see
    /// `spec_world_bounds`. The frame driver runs this once before each
    /// drain.
    pub fn apply_world_bounds(&mut self)
        requires
            old(self)@.wf(),
        ensures
            final(self)@ == spec_world_bounds(old(self)@),
    {
        if self.pos.x > RIGHT_EDGE_X || self.pos.x < LEFT_EDGE_X {
            if self.pos.x > RIGHT_EDGE_X {
                self.pos.x = RIGHT_EDGE_CLAMP_X;
            } else {
                self.pos.x = LEFT_EDGE_CLAMP_X;
            }
            self.velocity.x = 0;
            self.input(InputEvent::UpdateMovement(None));
        }
    }
}

/// Recording a movement intent keeps the state well-formed.
pub proof fn lemma_set_movement_preserves_wf(m: PlayerModel, movement: Option<Direction>)
    requires
        m.wf(),
    ensures
        spec_set_movement(m, movement).wf(),
{
}

/// One integration step keeps the state well-formed; in particular the
/// horizontal speed never exceeds `MAX_MOVE_SPEED` in either direction
/// after a step, so it stays within the limit over any number of steps.
pub proof fn lemma_step_preserves_wf(m: PlayerModel)
    requires
        m.wf(),
    ensures
        spec_step(m).wf(),
        -MAX_MOVE_SPEED <= spec_step(m).vel_x <= MAX_MOVE_SPEED,
{
}

/// A jump launch keeps the state well-formed.
pub proof fn lemma_jump_preserves_wf(m: PlayerModel)
    requires
        m.wf(),
    ensures
        spec_jump(m).wf(),
{
    if m.grounded {
        let m1 = PlayerModel {
            grounded: false,
            state_start_time: m.time,
            jump_time: m.time + spec_jump_duration(abs_of(m.vel_x)),
            vel_y: JUMP_SPEED as int,
            ..m
        };
        let m2 = if m1.moving {
            spec_set_movement(m1, Some(m1.dir))
        } else {
            spec_set_movement(m1, None)
        };
        lemma_enqueue_preserves_distinct(m2.queue, Step::Player);
    }
}

/// Draining one scheduled request keeps the state well-formed.
pub proof fn lemma_advance_preserves_wf(m: PlayerModel)
    requires
        m.wf(),
    ensures
        spec_advance(m).wf(),
{
    if m.queue.len() > 0 {
        lemma_drop_front_preserves_distinct(m.queue);
        let m1 = PlayerModel { queue: m.queue.subrange(1, m.queue.len() as int), ..m };
        if m.queue[0] == Step::Player {
            lemma_step_preserves_wf(m1);
        }
    }
}

/// Dispatching any input event keeps the state well-formed: speeds stay
/// within their physical bounds and the scheduler never holds a duplicate
/// request, whatever sequence of events arrives.
pub proof fn lemma_input_preserves_wf(m: PlayerModel, event: InputEvent)
    requires
        m.wf(),
    ensures
        spec_input(m, event).wf(),
{
    let m0 = match event {
        InputEvent::UpdateMovement(Some(d)) => PlayerModel { dir: d, ..m },
        _ => m,
    };
    match event {
        InputEvent::UpdateMovement(None) => {
            let m1 = PlayerModel { state: PlayerState::Idle, ..m0 };
            let m2 = spec_set_movement(m1, None);
            lemma_enqueue_preserves_distinct(m2.queue, Step::Player);
        },
        InputEvent::UpdateMovement(direction) => {
            if m0.state is Jumping && !m0.grounded {
                let m1 = spec_set_movement(m0, direction);
                lemma_enqueue_preserves_distinct(m1.queue, Step::Player);
            } else {
                let m1 = PlayerModel { state: PlayerState::Walking, ..m0 };
                let m2 = spec_set_movement(m1, direction);
                lemma_enqueue_preserves_distinct(m2.queue, Step::Player);
            }
        },
        InputEvent::PressJump => {
            if !(m0.state is Jumping) {
                lemma_jump_preserves_wf(PlayerModel { state: PlayerState::Jumping, ..m0 });
                lemma_advance_preserves_wf(
                    spec_jump(PlayerModel { state: PlayerState::Jumping, ..m0 }),
                );
            }
        },
        InputEvent::TimeUpdate => {},
        InputEvent::Landed => {
            if !m0.grounded {
                let m1 = PlayerModel { vel_y: 0, grounded: true, ..m0 };
                let m2 = if m1.moving {
                    spec_set_movement(PlayerModel { state: PlayerState::Walking, ..m1 }, Some(m1.dir))
                } else {
                    spec_set_movement(PlayerModel { state: PlayerState::Idle, ..m1 }, None)
                };
                lemma_enqueue_preserves_distinct(m2.queue, Step::Player);
            }
        },
    }
}

/// A jump request while the machine is already in the jumping state is an
/// exact no-op: no velocity, timer, queue or any other part of the state
/// changes. Together with the closed state enum this pins the state
/// machine: every event yields exactly one of the three states.
pub proof fn lemma_press_jump_while_jumping_is_noop(m: PlayerModel)
    ensures
        m.state is Jumping ==> spec_input(m, InputEvent::PressJump) == m,
{
}

/// After any step, a machine not in the jumping state is vertically
/// settled: its vertical velocity is exactly zero.
pub proof fn lemma_step_settles_vertical(m: PlayerModel)
    ensures
        !(spec_step(m).state is Jumping) ==> spec_step(m).vel_y == 0,
{
}

/// The jump duration is non-decreasing in the absolute horizontal speed.
pub proof fn lemma_jump_duration_monotonic(a: int, b: int)
    requires
        0 <= a <= b,
    ensures
        spec_jump_duration(a) <= spec_jump_duration(b),
{
    vstd::arithmetic::div_mod::lemma_div_is_ordered(
        JUMP_BONUS_TICKS * a,
        JUMP_BONUS_TICKS * b,
        MAX_MOVE_SPEED as int,
    );
}

/// Landing twice in a row without an intervening airborne transition
/// changes the state only on the first delivery: the second landing is an
/// exact no-op.
pub proof fn lemma_landed_idempotent(m: PlayerModel)
    ensures
        spec_input(spec_input(m, InputEvent::Landed), InputEvent::Landed) == spec_input(
            m,
            InputEvent::Landed,
        ),
{
    let m1 = spec_input(m, InputEvent::Landed);
    assert(m1.grounded == true || m1 == m);
}


} // verus!
