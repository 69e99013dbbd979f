//! The per-state policies of the character's animation state machine.
//!
//! Each behavioral state (`Idle`, `Running`) owns one [`RedHatBoyContext`]:
//! the animation frame counter, the position and the velocity. A state value
//! can only be obtained through `RedHatBoyState::<Idle>::new` or through the
//! legal transitions, so holding a `RedHatBoyState<Running>` is itself proof
//! that the machine went through `run`.

use vstd::prelude::*;

use crate::game::Point;

verus! {

/// Vertical coordinate of the ground the character stands on.
pub const FLOOR: i16 = 475;

/// Horizontal speed added to the velocity when the character starts running.
pub const RUNNING_SPEED: i16 = 3;

/// Last raw tick of the idle animation cycle before the counter wraps to 0.
pub const IDLE_FRAMES: u8 = 29;

/// Last raw tick of the running animation cycle before the counter wraps to 0.
pub const RUNNING_FRAMES: u8 = 23;

/// The sheet-name prefix of the idle animation cycle.
pub open spec fn idle_frame_name() -> Seq<char> {
    "Idle"@
}

/// The sheet-name prefix of the running animation cycle.
pub open spec fn run_frame_name() -> Seq<char> {
    "Run"@
}

/// The motion and animation data shared by every behavioral state.
#[derive(Clone, Copy, Debug, PartialEq, Eq, Structural)]
pub struct RedHatBoyContext {
    pub frame: u8,
    pub position: Point,
    pub velocity: Point,
}

/// Tag of the idle behavioral state.
#[derive(Clone, Copy)]
#[verifier::ext_equal]
pub struct Idle;

/// Tag of the running behavioral state.
#[derive(Clone, Copy)]
#[verifier::ext_equal]
pub struct Running;

/// A behavioral state: one motion context paired with the tag of its kind.
#[derive(Clone, Copy)]
#[verifier::ext_equal]
pub struct RedHatBoyState<S> {
    context: RedHatBoyContext,
    _state: S,
}

impl<S> View for RedHatBoyState<S> {
    type V = RedHatBoyContext;

    closed spec fn view(&self) -> RedHatBoyContext {
        self.context
    }
}

/// The idle state whose context is `context`, at the specification level.
pub closed spec fn spec_idle_state(context: RedHatBoyContext) -> RedHatBoyState<Idle> {
    RedHatBoyState { context, _state: Idle {} }
}

/// The running state whose context is `context`, at the specification level.
pub closed spec fn spec_running_state(context: RedHatBoyContext) -> RedHatBoyState<Running> {
    RedHatBoyState { context, _state: Running {} }
}

pub broadcast proof fn lemma_idle_state_view(context: RedHatBoyContext)
    ensures
        (#[trigger] spec_idle_state(context))@ == context,
{
}

pub broadcast proof fn lemma_running_state_view(context: RedHatBoyContext)
    ensures
        (#[trigger] spec_running_state(context))@ == context,
{
}

/// An idle state is determined by its context alone.
pub proof fn lemma_idle_state_eq(s: RedHatBoyState<Idle>)
    ensures
        s == spec_idle_state(s@),
{
    assert(s._state =~= Idle {});
    assert(s =~= spec_idle_state(s@));
}

/// A running state is determined by its context alone.
pub proof fn lemma_running_state_eq(s: RedHatBoyState<Running>)
    ensures
        s == spec_running_state(s@),
{
    assert(s._state =~= Running {});
    assert(s =~= spec_running_state(s@));
}

/// The context the character starts with: frame 0, standing on the floor,
/// not moving.
pub open spec fn spec_initial_context() -> RedHatBoyContext {
    RedHatBoyContext {
        frame: 0,
        position: Point { x: 0, y: FLOOR },
        velocity: Point { x: 0, y: 0 },
    }
}

/// One tick of a context never makes the position overflow the coordinate
/// space: the componentwise sum of position and velocity stays representable.
pub open spec fn ctx_step_fits(context: RedHatBoyContext) -> bool {
    &&& i16::MIN <= context.position.x + context.velocity.x <= i16::MAX
    &&& i16::MIN <= context.position.y + context.velocity.y <= i16::MAX
}

/// Runtime check of [`ctx_step_fits`]: whether one more tick keeps the
/// position representable. Callers use it to establish the precondition of
/// the tick functions before calling them.
pub fn check_ctx_step_fits(context: &RedHatBoyContext) -> (r: bool)
    ensures
        r == ctx_step_fits(*context),
{
    let x: i32 = context.position.x as i32 + context.velocity.x as i32;
    let y: i32 = context.position.y as i32 + context.velocity.y as i32;
    x >= i16::MIN as i32 && x <= i16::MAX as i32 && y >= i16::MIN as i32 && y <= i16::MAX as i32
}

impl RedHatBoyContext {
    /// One tick of this context: the sawtooth frame counter advances (or
    /// wraps to 0 once it passed `frame_count`) and the velocity is added to
    /// the position, componentwise.
    pub open spec fn spec_update(self, frame_count: u8) -> RedHatBoyContext {
        RedHatBoyContext {
            frame: if self.frame < frame_count {
                (self.frame + 1) as u8
            } else {
                0
            },
            position: Point {
                x: (self.position.x + self.velocity.x) as i16,
                y: (self.position.y + self.velocity.y) as i16,
            },
            velocity: self.velocity,
        }
    }

    /// This context with the frame counter set back to 0.
    pub open spec fn spec_reset_frame(self) -> RedHatBoyContext {
        RedHatBoyContext { frame: 0, position: self.position, velocity: self.velocity }
    }

    /// This context with the running speed added to the horizontal velocity.
    pub open spec fn spec_run_right(self) -> RedHatBoyContext {
        RedHatBoyContext {
            frame: self.frame,
            position: self.position,
            velocity: Point {
                x: (self.velocity.x + RUNNING_SPEED) as i16,
                y: self.velocity.y,
            },
        }
    }

    /// Advance this context by one tick. The frame counter increments until
    /// it passes `frame_count` and then wraps to 0; the position moves by
    /// exactly the velocity; the velocity is unchanged.
    pub fn update(self, frame_count: u8) -> (r: Self)
        requires
            ctx_step_fits(self),
        ensures
            r == self.spec_update(frame_count),
            r.frame == (if self.frame < frame_count {
                self.frame + 1
            } else {
                0
            }),
            self.frame <= frame_count ==> r.frame == (if self.frame == frame_count {
                0
            } else {
                self.frame + 1
            }),
            r.position.x == self.position.x + self.velocity.x,
            r.position.y == self.position.y + self.velocity.y,
            r.velocity == self.velocity,
    {
        let mut updated = self;
        if updated.frame < frame_count {
            updated.frame = updated.frame + 1;
        } else {
            updated.frame = 0;
        }
        updated.position.x = updated.position.x + updated.velocity.x;
        updated.position.y = updated.position.y + updated.velocity.y;
        updated
    }

    /// Set the frame counter back to 0; position and velocity are kept.
    pub fn reset_frame(self) -> (r: Self)
        ensures
            r == self.spec_reset_frame(),
            r.frame == 0,
            r.position == self.position,
            r.velocity == self.velocity,
    {
        let mut updated = self;
        updated.frame = 0;
        updated
    }

    /// Add the running speed to the horizontal velocity; everything else is
    /// kept.
    pub fn run_right(self) -> (r: Self)
        requires
            self.velocity.x + RUNNING_SPEED <= i16::MAX,
        ensures
            r == self.spec_run_right(),
            r.velocity.x == self.velocity.x + RUNNING_SPEED,
            r.velocity.y == self.velocity.y,
            r.frame == self.frame,
            r.position == self.position,
    {
        let mut updated = self;
        updated.velocity.x = updated.velocity.x + RUNNING_SPEED;
        updated
    }
}

impl<S> RedHatBoyState<S> {
    /// The motion context this state owns.
    pub fn context(&self) -> (r: &RedHatBoyContext)
        ensures
            *r == self@,
    {
        &self.context
    }
}

impl RedHatBoyState<Idle> {
    /// The initial state of the machine: idle at frame 0, standing on the
    /// floor, not moving.
    pub fn new() -> (r: Self)
        ensures
            r@ == spec_initial_context(),
    {
        RedHatBoyState {
            context: RedHatBoyContext {
                frame: 0,
                position: Point { x: 0, y: FLOOR },
                velocity: Point { x: 0, y: 0 },
            },
            _state: Idle {},
        }
    }

    /// One tick of the idle cycle: the owned context advances with the idle
    /// frame limit.
    pub fn update(&mut self)
        requires
            ctx_step_fits(old(self)@),
        ensures
            final(self)@ == old(self)@.spec_update(IDLE_FRAMES),
    {
        self.context = self.context.update(IDLE_FRAMES);
    }

    /// The sheet-name prefix of the idle cycle.
    pub fn frame_name(&self) -> (r: &'static str)
        ensures
            r@ == idle_frame_name(),
    {
        "Idle"
    }

    /// The only legal exit from `Idle`: consume this state and start running.
    /// The frame counter restarts at 0, the position is kept, and the running
    /// speed is added to the horizontal velocity.
    pub fn run(self) -> (r: RedHatBoyState<Running>)
        requires
            self@.velocity.x + RUNNING_SPEED <= i16::MAX,
        ensures
            r@ == self@.spec_reset_frame().spec_run_right(),
            r@.frame == 0,
            r@.position == self@.position,
            r@.velocity.x == self@.velocity.x + RUNNING_SPEED,
            r@.velocity.y == self@.velocity.y,
    {
        RedHatBoyState {
            context: self.context.reset_frame().run_right(),
            _state: Running {},
        }
    }
}

impl RedHatBoyState<Running> {
    /// One tick of the running cycle: the owned context advances with the
    /// running frame limit.
    pub fn update(&mut self)
        requires
            ctx_step_fits(old(self)@),
        ensures
            final(self)@ == old(self)@.spec_update(RUNNING_FRAMES),
    {
        self.context = self.context.update(RUNNING_FRAMES);
    }

    /// The sheet-name prefix of the running cycle.
    pub fn frame_name(&self) -> (r: &'static str)
        ensures
            r@ == run_frame_name(),
    {
        "Run"
    }
}

} // verus!
