//! The character's animation state machine and its per-tick orchestration.
//!
//! [`RedHatBoyStateMachine`] is a closed tagged union over the behavioral
//! states of `red_hat_boy_states`. Its whole transition diagram is the
//! `transition` dispatch: `(Idle, Run)` starts running, every other pairing
//! is a no-op that hands the machine back unchanged.

use vstd::prelude::*;

use crate::red_hat_boy_states::{
    check_ctx_step_fits, ctx_step_fits, idle_frame_name, lemma_idle_state_eq,
    lemma_running_state_eq, run_frame_name, spec_idle_state, spec_initial_context,
    spec_running_state, Idle, RedHatBoyContext, RedHatBoyState, Running, IDLE_FRAMES,
    RUNNING_FRAMES, RUNNING_SPEED,
};
use crate::sheet::{spec_frame_name_key, compose_frame_name, Cell, Sheet};
use vstd::arithmetic::div_mod::lemma_div_is_ordered;
use vstd::pervasive::unreached;

verus! {

broadcast use crate::red_hat_boy_states::lemma_idle_state_view, crate::red_hat_boy_states::lemma_running_state_view;

/// A 2D integer coordinate, used for both position and velocity.
#[derive(Clone, Copy, Debug, PartialEq, Eq, Structural)]
pub struct Point {
    pub x: i16,
    pub y: i16,
}

/// The external events the state machine can be asked to react to.
pub enum Event {
    Run,
}

/// The tagged union over the behavioral states: the character's entire
/// runtime state besides the static assets.
#[derive(Clone, Copy)]
pub enum RedHatBoyStateMachine {
    Idle(RedHatBoyState<Idle>),
    Running(RedHatBoyState<Running>),
}

/// The sprite index displayed for a raw frame counter value: each displayed
/// sprite persists for 3 raw ticks, and indices start at 1.
pub open spec fn spec_sprite_index(frame: u8) -> int {
    frame / 3 + 1
}

impl RedHatBoyStateMachine {
    /// The motion context of whichever state the machine currently is in.
    pub open spec fn spec_context(self) -> RedHatBoyContext {
        match self {
            RedHatBoyStateMachine::Idle(state) => state@,
            RedHatBoyStateMachine::Running(state) => state@,
        }
    }

    /// The frame limit of the current state's animation cycle.
    pub open spec fn spec_frame_count(self) -> u8 {
        match self {
            RedHatBoyStateMachine::Idle(_) => IDLE_FRAMES,
            RedHatBoyStateMachine::Running(_) => RUNNING_FRAMES,
        }
    }

    /// The sheet-name prefix of the current state's animation cycle.
    pub open spec fn spec_frame_name(self) -> Seq<char> {
        match self {
            RedHatBoyStateMachine::Idle(_) => idle_frame_name(),
            RedHatBoyStateMachine::Running(_) => run_frame_name(),
        }
    }

    /// One tick of the machine: the current state's context advances with
    /// that state's own frame limit; the variant never changes.
    pub open spec fn spec_update(self) -> Self {
        match self {
            RedHatBoyStateMachine::Idle(state) => RedHatBoyStateMachine::Idle(
                spec_idle_state(state@.spec_update(IDLE_FRAMES)),
            ),
            RedHatBoyStateMachine::Running(state) => RedHatBoyStateMachine::Running(
                spec_running_state(state@.spec_update(RUNNING_FRAMES)),
            ),
        }
    }

    /// The machine after reacting to `event`: `(Idle, Run)` starts running
    /// with the frame counter reset and the running speed added; every other
    /// pairing is a no-op.
    pub open spec fn spec_transition(self, event: Event) -> Self {
        match (self, event) {
            (RedHatBoyStateMachine::Idle(state), Event::Run) => RedHatBoyStateMachine::Running(
                spec_running_state(state@.spec_reset_frame().spec_run_right()),
            ),
            (RedHatBoyStateMachine::Running(_), Event::Run) => self,
        }
    }

    /// React to an external event. Exactly the pairing `(Idle, Run)` changes
    /// the machine: the result then runs with frame 0, the position kept and
    /// the running speed added to the horizontal velocity. Any other pairing
    /// returns the machine identical in variant and context.
    pub fn transition(self, event: Event) -> (r: Self)
        requires
            self is Idle ==> self.spec_context().velocity.x + RUNNING_SPEED <= i16::MAX,
        ensures
            r == self.spec_transition(event),
            !(self is Idle) ==> r == self,
            self is Idle ==> r is Running,
            self is Idle ==> r.spec_context().frame == 0,
            self is Idle ==> r.spec_context().position == self.spec_context().position,
            self is Idle ==> r.spec_context().velocity.x == self.spec_context().velocity.x
                + RUNNING_SPEED,
            self is Idle ==> r.spec_context().velocity.y == self.spec_context().velocity.y,
    {
        match (self, event) {
            (RedHatBoyStateMachine::Idle(state), Event::Run) => {
                let running = state.run();
                proof {
                    lemma_running_state_eq(running);
                }
                RedHatBoyStateMachine::from(running)
            },
            _ => self,
        }
    }

    /// The sheet-name prefix of the current state's animation cycle.
    pub fn frame_name(&self) -> (r: &'static str)
        ensures
            r@ == self.spec_frame_name(),
    {
        match self {
            RedHatBoyStateMachine::Idle(state) => state.frame_name(),
            RedHatBoyStateMachine::Running(state) => state.frame_name(),
        }
    }

    /// The motion context of whichever state the machine currently is in.
    pub fn context(&self) -> (r: &RedHatBoyContext)
        ensures
            *r == self.spec_context(),
    {
        match self {
            RedHatBoyStateMachine::Idle(state) => state.context(),
            RedHatBoyStateMachine::Running(state) => state.context(),
        }
    }

    /// Advance one tick: the current state's context advances with that
    /// state's own frame limit; the variant never changes.
    pub fn update(self) -> (r: Self)
        requires
            ctx_step_fits(self.spec_context()),
        ensures
            r == self.spec_update(),
            self is Idle <==> r is Idle,
            r.spec_context() == self.spec_context().spec_update(self.spec_frame_count()),
    {
        match self {
            RedHatBoyStateMachine::Idle(mut state) => {
                state.update();
                proof {
                    lemma_idle_state_eq(state);
                }
                RedHatBoyStateMachine::Idle(state)
            },
            RedHatBoyStateMachine::Running(mut state) => {
                state.update();
                proof {
                    lemma_running_state_eq(state);
                }
                RedHatBoyStateMachine::Running(state)
            },
        }
    }
}

impl From<RedHatBoyState<Running>> for RedHatBoyStateMachine {
    /// Wrap a running state into the machine.
    fn from(state: RedHatBoyState<Running>) -> Self {
        RedHatBoyStateMachine::Running(state)
    }
}

impl vstd::std_specs::convert::FromSpecImpl<RedHatBoyState<Running>> for RedHatBoyStateMachine {
    open spec fn obeys_from_spec() -> bool {
        true
    }

    open spec fn from_spec(state: RedHatBoyState<Running>) -> Self {
        RedHatBoyStateMachine::Running(state)
    }
}

/// The machine after `n` ticks without any intervening event.
pub open spec fn spec_iterate_update(m: RedHatBoyStateMachine, n: nat) -> RedHatBoyStateMachine
    decreases n,
{
    if n == 0 {
        m
    } else {
        spec_iterate_update(m, (n - 1) as nat).spec_update()
    }
}

/// While the idle cycle has not wrapped, the frame counter counts the ticks:
/// after `k <= IDLE_FRAMES` ticks from an idle machine at frame 0, the
/// machine is still idle at frame `k`.
pub proof fn lemma_idle_frame_counts_up(m: RedHatBoyStateMachine, k: nat)
    requires
        m is Idle,
        m.spec_context().frame == 0,
        k <= IDLE_FRAMES,
    ensures
        spec_iterate_update(m, k) is Idle,
        spec_iterate_update(m, k).spec_context().frame == k,
    decreases k,
{
    if k > 0 {
        lemma_idle_frame_counts_up(m, (k - 1) as nat);
    }
}

/// Round trip of the idle cycle: starting idle at frame 0, one tick more
/// than the idle frame limit brings the frame counter back to 0, with the
/// machine still idle.
pub proof fn lemma_idle_round_trip(m: RedHatBoyStateMachine)
    requires
        m is Idle,
        m.spec_context().frame == 0,
    ensures
        spec_iterate_update(m, (IDLE_FRAMES + 1) as nat) is Idle,
        spec_iterate_update(m, (IDLE_FRAMES + 1) as nat).spec_context().frame == 0,
{
    lemma_idle_frame_counts_up(m, IDLE_FRAMES as nat);
}

/// An axis-aligned rectangle, in sheet coordinates for a source and in
/// canvas coordinates for a destination.
#[derive(Clone, Copy, Debug, PartialEq, Eq, Structural)]
pub struct Rect {
    pub x: i16,
    pub y: i16,
    pub width: i16,
    pub height: i16,
}

/// What one draw pass asks the render collaborator to do: copy `source`
/// from the sheet image onto `destination` on the canvas.
#[derive(Clone, Copy, Debug, PartialEq, Eq, Structural)]
pub struct DrawCommand {
    pub source: Rect,
    pub destination: Rect,
}

/// Failure of a draw pass. The derived frame name was absent from the sheet
/// description: the state machine's naming policy and the loaded asset are
/// out of sync, which is a fatal contract violation, not a recoverable
/// condition.
#[derive(Debug, PartialEq, Eq)]
pub enum DrawError {
    CellNotFound { frame_name: String },
}

/// The character: the state machine that drives it and the sheet that names
/// its sprites. The decoded sheet image itself stays with the render
/// collaborator, which only ever passes it through.
pub struct RedHatBoy {
    state_machine: RedHatBoyStateMachine,
    sprite_sheet: Sheet,
}

impl RedHatBoy {
    /// The state machine that drives the character.
    pub closed spec fn spec_machine(self) -> RedHatBoyStateMachine {
        self.state_machine
    }

    /// The sheet description the character's sprites are looked up in.
    pub closed spec fn spec_sheet(self) -> Map<Seq<char>, Cell> {
        self.sprite_sheet@
    }

    /// The sheet key of the sprite the current tick displays.
    pub open spec fn spec_current_frame_name(self) -> Seq<char> {
        spec_frame_name_key(
            self.spec_machine().spec_frame_name(),
            spec_sprite_index(self.spec_machine().spec_context().frame),
        )
    }

    /// A new character: idle at frame 0, standing on the floor, not moving.
    pub fn new(sheet: Sheet) -> (r: Self)
        ensures
            r.spec_machine() is Idle,
            r.spec_machine().spec_context() == spec_initial_context(),
            r.spec_sheet() == sheet@,
    {
        RedHatBoy {
            state_machine: RedHatBoyStateMachine::Idle(RedHatBoyState::<Idle>::new()),
            sprite_sheet: sheet,
        }
    }

    /// The state machine that drives the character.
    pub fn state_machine(&self) -> (r: &RedHatBoyStateMachine)
        ensures
            *r == self.spec_machine(),
    {
        &self.state_machine
    }

    /// One tick: the state machine advances; the sheet is untouched.
    pub fn update(&mut self)
        requires
            ctx_step_fits(old(self).spec_machine().spec_context()),
        ensures
            final(self).spec_machine() == old(self).spec_machine().spec_update(),
            final(self).spec_sheet() == old(self).spec_sheet(),
    {
        self.state_machine = self.state_machine.update();
    }

    /// Forward a run-right sample to the state machine; a no-op unless the
    /// machine was idle.
    pub fn run_right(&mut self)
        requires
            old(self).spec_machine() is Idle ==> old(self).spec_machine().spec_context().velocity.x
                + RUNNING_SPEED <= i16::MAX,
        ensures
            final(self).spec_machine() == old(self).spec_machine().spec_transition(Event::Run),
            final(self).spec_sheet() == old(self).spec_sheet(),
    {
        self.state_machine = self.state_machine.transition(Event::Run);
    }

    /// Compute what this tick's draw pass hands the render collaborator:
    /// the source rectangle registered in the sheet under the derived frame
    /// name, and the destination rectangle of the same size at the
    /// character's position. Fails exactly when the derived name is absent
    /// from the sheet.
    pub fn draw_command(&self) -> (r: Result<DrawCommand, DrawError>)
        ensures
            r is Ok <==> self.spec_sheet().contains_key(self.spec_current_frame_name()),
            r matches Ok(cmd) ==> ({
                let cell = self.spec_sheet()[self.spec_current_frame_name()];
                let context = self.spec_machine().spec_context();
                &&& cmd.source == (Rect {
                    x: cell.frame.x,
                    y: cell.frame.y,
                    width: cell.frame.w,
                    height: cell.frame.h,
                })
                &&& cmd.destination == (Rect {
                    x: context.position.x,
                    y: context.position.y,
                    width: cell.frame.w,
                    height: cell.frame.h,
                })
            }),
            r matches Err(DrawError::CellNotFound { frame_name }) ==> frame_name@
                == self.spec_current_frame_name(),
    {
        let index: u8 = self.state_machine.context().frame / 3 + 1;
        let frame_name = compose_frame_name(self.state_machine.frame_name(), index);
        match self.sprite_sheet.frames.get(frame_name.as_str()) {
            Some(cell) => {
                let sprite = cell.frame;
                let context = self.state_machine.context();
                Ok(DrawCommand {
                    source: Rect { x: sprite.x, y: sprite.y, width: sprite.w, height: sprite.h },
                    destination: Rect {
                        x: context.position.x,
                        y: context.position.y,
                        width: sprite.w,
                        height: sprite.h,
                    },
                })
            },
            None => Err(DrawError::CellNotFound { frame_name }),
        }
    }
}

/// The machine after one sampled tick of the game: a held run-right key
/// becomes one `Run` event forwarded before the tick's update.
pub open spec fn spec_walk_update(m: RedHatBoyStateMachine, run_pressed: bool)
    -> RedHatBoyStateMachine {
    if run_pressed {
        m.spec_transition(Event::Run).spec_update()
    } else {
        m.spec_update()
    }
}

/// One sampled tick of the game never overflows the coordinate space or the
/// velocity.
pub open spec fn walk_step_fits(m: RedHatBoyStateMachine, run_pressed: bool) -> bool {
    if run_pressed {
        &&& m is Idle ==> m.spec_context().velocity.x + RUNNING_SPEED <= i16::MAX
        &&& ctx_step_fits(m.spec_transition(Event::Run).spec_context())
    } else {
        ctx_step_fits(m.spec_context())
    }
}

/// The game object: the character, once the assets are decoded and it has
/// been constructed.
pub struct WalkTheDog {
    rhb: Option<RedHatBoy>,
}

impl WalkTheDog {
    /// The character, if the game has been initialized.
    pub closed spec fn spec_rhb(self) -> Option<RedHatBoy> {
        self.rhb
    }

    /// A game that has not been initialized yet: no character.
    pub fn new() -> (r: Self)
        ensures
            r.spec_rhb() is None,
    {
        WalkTheDog { rhb: None }
    }

    /// The game once its assets are decoded: the character starts idle at
    /// frame 0 with the given sheet description.
    pub fn initialized(sheet: Sheet) -> (r: Self)
        ensures
            r.spec_rhb() is Some,
            r.spec_rhb().unwrap().spec_machine() is Idle,
            r.spec_rhb().unwrap().spec_machine().spec_context() == spec_initial_context(),
            r.spec_rhb().unwrap().spec_sheet() == sheet@,
    {
        WalkTheDog { rhb: Some(RedHatBoy::new(sheet)) }
    }

    /// Whether the game has been initialized with a character.
    pub fn is_initialized(&self) -> (r: bool)
        ensures
            r == (self.spec_rhb() is Some),
    {
        self.rhb.is_some()
    }

    /// Runtime check of [`walk_step_fits`]: whether one sampled tick keeps
    /// the velocity and the position representable. Callers use it to
    /// establish the precondition of `update` before calling it.
    pub fn step_fits(&self, run_pressed: bool) -> (r: bool)
        requires
            self.spec_rhb() is Some,
        ensures
            r == walk_step_fits(self.spec_rhb().unwrap().spec_machine(), run_pressed),
    {
        match &self.rhb {
            Some(rhb) => {
                match *rhb.state_machine() {
                    RedHatBoyStateMachine::Idle(state) => {
                        if run_pressed {
                            let context = *state.context();
                            if context.velocity.x > i16::MAX - RUNNING_SPEED {
                                return false;
                            }
                            let transitioned = RedHatBoyContext {
                                frame: 0,
                                position: context.position,
                                velocity: Point {
                                    x: context.velocity.x + RUNNING_SPEED,
                                    y: context.velocity.y,
                                },
                            };
                            check_ctx_step_fits(&transitioned)
                        } else {
                            check_ctx_step_fits(state.context())
                        }
                    },
                    RedHatBoyStateMachine::Running(state) => check_ctx_step_fits(state.context()),
                }
            },
            None => unreached(),
        }
    }

    /// One sampled tick: a held run-right key becomes one `Run` event
    /// forwarded to the machine, then the machine advances one tick.
    pub fn update(&mut self, run_pressed: bool)
        requires
            old(self).spec_rhb() is Some,
            walk_step_fits(old(self).spec_rhb().unwrap().spec_machine(), run_pressed),
        ensures
            final(self).spec_rhb() is Some,
            final(self).spec_rhb().unwrap().spec_machine() == spec_walk_update(
                old(self).spec_rhb().unwrap().spec_machine(),
                run_pressed,
            ),
            final(self).spec_rhb().unwrap().spec_sheet() == old(
                self,
            ).spec_rhb().unwrap().spec_sheet(),
    {
        match &mut self.rhb {
            Some(rhb) => {
                if run_pressed {
                    rhb.run_right();
                }
                rhb.update();
            },
            None => {},
        }
    }

    /// Compute what this tick's draw pass hands the render collaborator;
    /// see [`RedHatBoy::draw_command`].
    pub fn draw_command(&self) -> (r: Result<DrawCommand, DrawError>)
        requires
            self.spec_rhb() is Some,
        ensures
            r is Ok <==> self.spec_rhb().unwrap().spec_sheet().contains_key(
                self.spec_rhb().unwrap().spec_current_frame_name(),
            ),
            r matches Ok(cmd) ==> cmd == ({
                let boy = self.spec_rhb().unwrap();
                let cell = boy.spec_sheet()[boy.spec_current_frame_name()];
                let context = boy.spec_machine().spec_context();
                DrawCommand {
                    source: Rect {
                        x: cell.frame.x,
                        y: cell.frame.y,
                        width: cell.frame.w,
                        height: cell.frame.h,
                    },
                    destination: Rect {
                        x: context.position.x,
                        y: context.position.y,
                        width: cell.frame.w,
                        height: cell.frame.h,
                    },
                }
            }),
            r matches Err(DrawError::CellNotFound { frame_name }) ==> frame_name@ == self.spec_rhb()
                .unwrap().spec_current_frame_name(),
    {
        match &self.rhb {
            Some(rhb) => rhb.draw_command(),
            None => unreached(),
        }
    }
}

/// The frame counter of a machine stays in `[0, frame_count]` of its
/// current state: one tick establishes the bound whatever the counter held
/// before, since the counter either increments below the limit or wraps.
pub proof fn lemma_update_establishes_frame_bound(m: RedHatBoyStateMachine)
    ensures
        m.spec_update().spec_context().frame <= m.spec_update().spec_frame_count(),
{
}

/// A transition keeps the frame counter within the bound of the state it
/// lands in: starting to run resets the counter to 0, and every other
/// pairing leaves the machine unchanged.
pub proof fn lemma_transition_keeps_frame_bound(m: RedHatBoyStateMachine, event: Event)
    requires
        m.spec_context().frame <= m.spec_frame_count(),
    ensures
        m.spec_transition(event).spec_context().frame <= m.spec_transition(
            event,
        ).spec_frame_count(),
{
}

/// The sprite index is non-decreasing as the raw frame counter increases
/// within a cycle, and restarts at 1 when the counter wraps to 0.
pub proof fn lemma_sprite_index_monotonic(frame1: u8, frame2: u8, limit: u8)
    requires
        frame1 <= frame2 <= limit,
    ensures
        spec_sprite_index(frame1) <= spec_sprite_index(frame2),
        spec_sprite_index(0) == 1,
{
    lemma_div_is_ordered(frame1 as int, frame2 as int, 3);
}

} // verus!
