use vstd::prelude::*;
use crate::fix::{Fix, wrap, fix_mul, div_trunc};
use crate::search::Frame;
use crate::player::{
    digit, digit_of, bit,
    VERT_ACCEL, TERMINAL_VELOCITY, JUMP_UP_VERT_ACCEL, JUMP_UP_VERT_ACCEL_YOSHI_HOLDING_B,
    FLUTTER_JUMP_MAX_START_VERT_SPEED, FLUTTER_JUMP_UP_VERT_ACCELERATION,
    FLUTTER_JUMP_DOWN_VERT_ACCELERATION, FLUTTER_JUMP_MAX_VERT_SPEED,
};

verus! {

/// Yoshi's jump factor (3686/4096).
pub const JUMP_FACTOR: i32 = 3686;

/// Phase of Yoshi's jump.
#[derive(Clone, Copy, Debug, PartialEq, Eq, Structural, Hash)]
pub enum State {
    Wait,
    Jump,
    FlutterJump,
}

/// Vertical motion of Yoshi, with its one flutter jump per arc.
#[derive(Clone, Copy, Debug, PartialEq, Eq, Structural, Hash)]
pub struct Yoshi {
    pub position_y: Fix,
    pub velocity_y: Fix,
    pub vert_accel: Fix,
    pub terminal_velocity: Fix,
    pub can_flutter_jump: bool,
    pub state: State,
}

impl Yoshi {
    /// Yoshi about to jump, as [`Yoshi::new`] builds it.
    pub open spec fn start(horz_speed: Fix, double_jump: bool) -> Yoshi {
        let speed: int = if double_jump {
            212992
        } else {
            172032
        };
        Yoshi {
            position_y: Fix(0),
            velocity_y: Fix(fix_mul(wrap(speed + (horz_speed.0 >> 2u32)), JUMP_FACTOR)),
            vert_accel: Fix(VERT_ACCEL),
            terminal_velocity: Fix(TERMINAL_VELOCITY),
            can_flutter_jump: true,
            state: State::Wait,
        }
    }

    /// The terminal velocity is the one every Yoshi is built with.
    pub open spec fn wf(self) -> bool {
        self.terminal_velocity.0 == TERMINAL_VELOCITY
    }

    /// The mode-dependent part of a frame, before integration.
    pub open spec fn prepare(self, holding_b: bool) -> Yoshi {
        match self.state {
            State::Wait => Yoshi { state: State::Jump, ..self },
            State::Jump => if holding_b && self.can_flutter_jump && self.velocity_y.0
                < FLUTTER_JUMP_MAX_START_VERT_SPEED {
                Yoshi { state: State::FlutterJump, vert_accel: Fix(0), ..self }
            } else {
                let a = if self.velocity_y.0 < 0 {
                    div_trunc(90 * VERT_ACCEL, 100) as i32
                } else if holding_b {
                    div_trunc(90 * JUMP_UP_VERT_ACCEL_YOSHI_HOLDING_B, 100) as i32
                } else {
                    JUMP_UP_VERT_ACCEL
                };
                Yoshi { vert_accel: Fix(a), ..self }
            },
            State::FlutterJump => {
                let v = if !holding_b {
                    self.velocity_y.0
                } else if self.velocity_y.0 >= 0 {
                    wrap(self.velocity_y.0 + FLUTTER_JUMP_UP_VERT_ACCELERATION)
                } else {
                    wrap(self.velocity_y.0 + FLUTTER_JUMP_DOWN_VERT_ACCELERATION)
                };
                if !holding_b || v >= FLUTTER_JUMP_MAX_VERT_SPEED {
                    Yoshi {
                        velocity_y: Fix(v),
                        state: State::Jump,
                        can_flutter_jump: false,
                        ..self
                    }
                } else {
                    Yoshi { velocity_y: Fix(v), ..self }
                }
            },
        }
    }

    /// Velocity gains the acceleration and is clamped at the terminal
    /// velocity; position gains the velocity.
    pub open spec fn integrated(self) -> Yoshi {
        let v = wrap(self.velocity_y.0 + self.vert_accel.0);
        let v = if v >= self.terminal_velocity.0 {
            v
        } else {
            self.terminal_velocity.0
        };
        Yoshi { velocity_y: Fix(v), position_y: Fix(wrap(self.position_y.0 + v)), ..self }
    }

    /// One frame with the button held or not.
    pub open spec fn next(self, holding_b: bool) -> Yoshi {
        self.prepare(holding_b).integrated()
    }

    /// Running one more input is one more frame.
    pub proof fn lemma_run_push(self, inputs: Seq<bool>, input: bool)
        ensures
            self.run(inputs.push(input)) == self.run(inputs).next(input),
    {
        reveal_with_fuel(Yoshi::run, 2);
        assert(inputs.push(input).drop_last() =~= inputs);
    }

    /// The state after one frame for each of the given inputs, in order.
    #[verifier::opaque]
    pub open spec fn run(self, inputs: Seq<bool>) -> Yoshi
        decreases inputs.len(),
    {
        if inputs.len() == 0 {
            self
        } else {
            self.run(inputs.drop_last()).next(inputs.last())
        }
    }

    /// Yoshi on the floor about to jump (42.0, or 52.0 for a double jump,
    /// plus a quarter of the horizontal speed, times the jump factor).
    pub fn new(horz_speed: Fix, double_jump: bool) -> (r: Yoshi)
        ensures
            r.wf(),
            r == Yoshi::start(horz_speed, double_jump),
    {
        let speed = if double_jump {
            212992
        } else {
            172032
        };
        Yoshi {
            position_y: Fix::new_raw(0),
            velocity_y: (Fix::new_raw(speed) + (horz_speed >> 2)) * Fix::new_raw(JUMP_FACTOR),
            vert_accel: Fix::new_raw(VERT_ACCEL),
            terminal_velocity: Fix::new_raw(TERMINAL_VELOCITY),
            can_flutter_jump: true,
            state: State::Wait,
        }
    }

    pub fn position_y(&self) -> (r: Fix)
        ensures
            r == self.position_y,
    {
        self.position_y
    }

    pub fn velocity_y(&self) -> (r: Fix)
        ensures
            r == self.velocity_y,
    {
        self.velocity_y
    }

    /// Updates frame by frame until `cond` holds, taking each frame's input
    /// from `holding_b` (given the current state and the frame number), and
    /// returns the number of frames. Gives up after `usize::MAX` frames.
    pub fn update_until(
        &mut self,
        holding_b: impl Fn(&Yoshi, usize) -> bool,
        cond: impl Fn(&Yoshi) -> bool,
    ) -> (frames: usize)
        requires
            forall|p: Yoshi, n: usize| holding_b.requires((&p, n)),
            forall|p: Yoshi| cond.requires((&p,)),
        ensures
            exists|inputs: Seq<bool>|
                {
                    &&& inputs.len() == frames
                    &&& *final(self) == old(self).run(inputs)
                    &&& forall|k: int|
                        0 <= k < frames ==> {
                            &&& holding_b.ensures(
                                (&#[trigger] old(self).run(inputs.take(k)), k as usize),
                                inputs[k],
                            )
                            &&& cond.ensures((&old(self).run(inputs.take(k)),), false)
                        }
                },
            frames < usize::MAX ==> cond.ensures((&*final(self),), true),
    {
        let ghost start = *self;
        let ghost mut inputs: Seq<bool> = Seq::empty();
        let mut frame: usize = 0;
        proof {
            reveal_with_fuel(Yoshi::run, 1);
        }
        loop
            invariant
                forall|p: Yoshi, n: usize| holding_b.requires((&p, n)),
                forall|p: Yoshi| cond.requires((&p,)),
                start == *old(self),
                inputs.len() == frame,
                *self == start.run(inputs),
                forall|k: int|
                    0 <= k < frame ==> {
                        &&& holding_b.ensures(
                            (&#[trigger] start.run(inputs.take(k)), k as usize),
                            inputs[k],
                        )
                        &&& cond.ensures((&start.run(inputs.take(k)),), false)
                    },
            decreases usize::MAX - frame,
        {
            let current = *self;
            let done = cond(&current);
            if done || frame == usize::MAX {
                assert(inputs.take(frame as int) =~= inputs);
                return frame;
            }
            let held = holding_b(&current, frame);
            self.update(held);
            proof {
                let prev = inputs;
                inputs = inputs.push(held);
                start.lemma_run_push(prev, held);
                assert(inputs.take(frame as int) =~= prev);
                assert forall|k: int| 0 <= k < frame implies #[trigger] inputs.take(k) =~= prev.take(k) by {}
            }
            frame += 1;
        }
    }

    /// Advances one frame: the first frame arms the jump; a held button below
    /// the entry speed starts the flutter jump, which lifts Yoshi until the
    /// button is released or the exit speed is reached. Then velocity gains
    /// the acceleration, is clamped, and is added to the position.
    pub fn update(&mut self, holding_b: bool)
        ensures
            *final(self) == old(self).next(holding_b),
    {
        match self.state {
            State::Wait => {
                self.state = State::Jump;
            },
            State::Jump => {
                self.vert_accel = if self.velocity_y.0 < 0 {
                    90 * Fix::new_raw(VERT_ACCEL) / 100
                } else if holding_b {
                    90 * Fix::new_raw(JUMP_UP_VERT_ACCEL_YOSHI_HOLDING_B) / 100
                } else {
                    Fix::new_raw(JUMP_UP_VERT_ACCEL)
                };
                if holding_b && self.can_flutter_jump && self.velocity_y.0
                    < FLUTTER_JUMP_MAX_START_VERT_SPEED {
                    self.state = State::FlutterJump;
                    self.vert_accel = Fix::new_raw(0);
                }
            },
            State::FlutterJump => {
                if holding_b {
                    self.velocity_y = self.velocity_y + if self.velocity_y.0 >= 0 {
                        Fix::new_raw(FLUTTER_JUMP_UP_VERT_ACCELERATION)
                    } else {
                        Fix::new_raw(FLUTTER_JUMP_DOWN_VERT_ACCELERATION)
                    };
                }
                if !holding_b || self.velocity_y.0 >= FLUTTER_JUMP_MAX_VERT_SPEED {
                    self.state = State::Jump;
                    self.can_flutter_jump = false;
                }
            },
        }
        self.velocity_y = (self.velocity_y + self.vert_accel).max(self.terminal_velocity);
        self.position_y = self.position_y + self.velocity_y;
    }
}

impl Yoshi {
    /// Flutter flag and phase packed in three bits.
    pub open spec fn flags(self) -> int {
        bit(self.can_flutter_jump) + 2 * match self.state {
            State::Wait => 0int,
            State::Jump => 1,
            State::FlutterJump => 2,
        }
    }

    /// Position, velocity, acceleration and flags as digits of one integer.
    pub open spec fn packed(self) -> int {
        digit(self.position_y) + 0x1_0000_0000 * digit(self.velocity_y) + 0x1_0000_0000_0000_0000
            * digit(self.vert_accel) + 0x1_0000_0000_0000_0000_0000_0000 * self.flags()
    }
}

impl Frame for Yoshi {
    /// Whether B is held.
    type Input = bool;

    open spec fn inv(&self) -> bool {
        self.wf()
    }

    open spec fn spec_key(&self) -> u128 {
        self.packed() as u128
    }

    open spec fn spec_advance(&self, input: bool) -> Yoshi {
        self.next(input)
    }

    open spec fn spec_position(&self) -> i32 {
        self.position_y.0
    }

    open spec fn branches() -> Seq<bool> {
        seq![true, false]
    }

    proof fn lemma_key_injective(a: Yoshi, b: Yoshi) {
        assert(a.packed() == b.packed());
        assert(a.position_y == b.position_y);
        assert(a.velocity_y == b.velocity_y);
        assert(a.vert_accel == b.vert_accel);
        assert(a.flags() == b.flags());
        assert(a.state == b.state);
    }

    proof fn lemma_advance_inv(&self, input: bool) {
    }

    fn key(&self) -> (r: u128) {
        let phase: u128 = match self.state {
            State::Wait => 0,
            State::Jump => 2,
            State::FlutterJump => 4,
        };
        let flags: u128 = phase + if self.can_flutter_jump {
            1
        } else {
            0
        };
        digit_of(self.position_y) + 0x1_0000_0000 * digit_of(self.velocity_y)
            + 0x1_0000_0000_0000_0000 * digit_of(self.vert_accel)
            + 0x1_0000_0000_0000_0000_0000_0000 * flags
    }

    fn advance(&self, input: bool) -> (r: Yoshi) {
        let mut y = *self;
        y.update(input);
        y
    }

    fn position(&self) -> (r: i32) {
        self.position_y.0
    }

    fn branch_inputs() -> (r: Vec<bool>) {
        let r = vec![true, false];
        assert(r@ =~= seq![true, false]);
        r
    }
}

} // verus!
