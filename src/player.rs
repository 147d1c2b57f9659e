use vstd::prelude::*;
use crate::fix::{Fix, wrap, fix_mul, div_trunc};
use crate::search::Frame;

verus! {

/// Downward acceleration after the apex of a jump (-4.0).
pub const VERT_ACCEL: i32 = -16384;
/// Lowest vertical speed (-75.0).
pub const TERMINAL_VELOCITY: i32 = -307200;
/// Upward acceleration while rising without the button (-8.0).
pub const JUMP_UP_VERT_ACCEL: i32 = -32768;
/// Upward acceleration while rising and holding the button (-3.25).
pub const JUMP_UP_VERT_ACCEL_HOLDING_B: i32 = -13312;
/// Yoshi's upward acceleration while rising and holding the button (-3.0).
pub const JUMP_UP_VERT_ACCEL_YOSHI_HOLDING_B: i32 = -12288;
/// A flutter jump starts only below this vertical speed (-8.0).
pub const FLUTTER_JUMP_MAX_START_VERT_SPEED: i32 = -32768;
/// Flutter lift while moving up (1.0).
pub const FLUTTER_JUMP_UP_VERT_ACCELERATION: i32 = 4096;
/// Flutter lift while moving down (0.75).
pub const FLUTTER_JUMP_DOWN_VERT_ACCELERATION: i32 = 3072;
/// A flutter jump ends at this vertical speed (17.0).
pub const FLUTTER_JUMP_MAX_VERT_SPEED: i32 = 69632;
/// Height gained when a ground pound starts (64.0).
pub const GROUND_POUND_ASCENT: i32 = 262144;
/// Vertical speed a ground pound starts with (-50.0).
pub const GROUND_POUND_INIT_VEL: i32 = -204800;
/// Position given to a ground pound attempted from the floor (-1.0).
pub const GROUND_POUND_FROM_FLOOR_POS: i32 = -4096;

/// Initial jump speed of a single, double and triple jump (42.0, 52.0, 69.0).
pub open spec fn jump_speed(jump_index: int) -> i32 {
    if jump_index == 0 {
        172032
    } else if jump_index == 1 {
        212992
    } else {
        282624
    }
}

/// Per-character jump factor (1.0, 1.0, 3358/4096, 3686/4096).
pub open spec fn jump_factor(character: Character) -> i32 {
    match character {
        Character::Mario => 4096,
        Character::Luigi => 4096,
        Character::Wario => 3358,
        Character::Yoshi => 3686,
    }
}

/// Which character jumps; Mario and Wario share the ordinary jump rules.
#[derive(Clone, Copy, Debug, PartialEq, Eq, Structural, Hash)]
pub enum Character {
    Mario,
    Luigi,
    Wario,
    Yoshi,
}

/// Whether the jump has started: the first frame only arms it.
#[derive(Clone, Copy, Debug, PartialEq, Eq, Structural, Hash)]
pub enum State {
    Wait,
    Jump,
}

/// Vertical motion of a jumping character.
#[derive(Clone, Copy, Debug, PartialEq, Eq, Structural, Hash)]
pub struct Player {
    pub character: Character,
    pub position_y: Fix,
    pub velocity_y: Fix,
    pub vert_accel: Fix,
    pub terminal_velocity: Fix,
    pub triple_jump: bool,
    pub can_flutter_jump: bool,
    pub is_flutter_jumping: bool,
    pub state: State,
}

impl Player {
    /// A player about to jump, as [`Player::new`] builds it.
    pub open spec fn start(character: Character, position_y: Fix, horz_speed: Fix, jump_index: int) -> Player {
        Player {
            character,
            position_y,
            velocity_y: Fix(
                fix_mul(wrap(jump_speed(jump_index) + (horz_speed.0 >> 2u32)), jump_factor(character)),
            ),
            vert_accel: Fix(VERT_ACCEL),
            terminal_velocity: Fix(TERMINAL_VELOCITY),
            triple_jump: jump_index == 2,
            can_flutter_jump: true,
            is_flutter_jumping: false,
            state: State::Wait,
        }
    }

    /// The terminal velocity is the one every player is built with.
    pub open spec fn wf(self) -> bool {
        self.terminal_velocity.0 == TERMINAL_VELOCITY
    }

    /// The same player with another vertical acceleration.
    pub open spec fn with_accel(self, accel: i32) -> Player {
        Player { vert_accel: Fix(accel), ..self }
    }

    /// Acceleration of an ordinary jump.
    pub open spec fn jump_accel(self, holding_b: bool) -> i32 {
        if self.velocity_y.0 < 0 {
            VERT_ACCEL
        } else if holding_b {
            JUMP_UP_VERT_ACCEL_HOLDING_B
        } else {
            JUMP_UP_VERT_ACCEL
        }
    }

    /// Acceleration of Luigi's jump: falling is quartered while the button is held.
    pub open spec fn luigi_accel(self, holding_b: bool) -> i32 {
        if self.velocity_y.0 < 0 && holding_b {
            (VERT_ACCEL / 4) as i32
        } else {
            self.jump_accel(holding_b)
        }
    }

    /// Acceleration of Yoshi outside a flutter jump: 90% of the falling and the
    /// held rising constants, truncated toward zero.
    pub open spec fn yoshi_accel(self, holding_b: bool) -> i32 {
        if self.velocity_y.0 < 0 {
            div_trunc(90 * VERT_ACCEL, 100) as i32
        } else if holding_b {
            div_trunc(90 * JUMP_UP_VERT_ACCEL_YOSHI_HOLDING_B, 100) as i32
        } else {
            JUMP_UP_VERT_ACCEL
        }
    }

    /// Yoshi's part of a frame: flutter lift and exit, or acceleration and entry.
    pub open spec fn yoshi_jump(self, holding_b: bool) -> Player {
        if self.is_flutter_jumping {
            let v = if !holding_b {
                self.velocity_y.0
            } else if self.velocity_y.0 >= 0 {
                wrap(self.velocity_y.0 + FLUTTER_JUMP_UP_VERT_ACCELERATION)
            } else {
                wrap(self.velocity_y.0 + FLUTTER_JUMP_DOWN_VERT_ACCELERATION)
            };
            if !holding_b || v >= FLUTTER_JUMP_MAX_VERT_SPEED {
                Player {
                    velocity_y: Fix(v),
                    is_flutter_jumping: false,
                    can_flutter_jump: false,
                    ..self
                }
            } else {
                Player { velocity_y: Fix(v), ..self }
            }
        } else if holding_b && self.can_flutter_jump && self.velocity_y.0
            < FLUTTER_JUMP_MAX_START_VERT_SPEED {
            Player { is_flutter_jumping: true, ..self.with_accel(0) }
        } else {
            self.with_accel(self.yoshi_accel(holding_b))
        }
    }

    /// The mode-dependent part of a frame, before integration.
    pub open spec fn prepare(self, holding_b: bool) -> Player {
        match self.state {
            State::Wait => Player { state: State::Jump, ..self },
            State::Jump => if self.triple_jump {
                self.with_accel(self.jump_accel(true))
            } else {
                match self.character {
                    Character::Luigi => self.with_accel(self.luigi_accel(holding_b)),
                    Character::Yoshi => self.yoshi_jump(holding_b),
                    _ => self.with_accel(self.jump_accel(holding_b)),
                }
            },
        }
    }

    /// Velocity gains the acceleration and is clamped at the terminal
    /// velocity; position gains the velocity.
    pub open spec fn integrated(self) -> Player {
        let v = wrap(self.velocity_y.0 + self.vert_accel.0);
        let v = if v >= self.terminal_velocity.0 {
            v
        } else {
            self.terminal_velocity.0
        };
        Player { velocity_y: Fix(v), position_y: Fix(wrap(self.position_y.0 + v)), ..self }
    }

    /// One frame with the button held or not.
    pub open spec fn next(self, holding_b: bool) -> Player {
        self.prepare(holding_b).integrated()
    }

    /// Running one more input is one more frame.
    pub proof fn lemma_run_push(self, inputs: Seq<bool>, input: bool)
        ensures
            self.run(inputs.push(input)) == self.run(inputs).next(input),
    {
        reveal_with_fuel(Player::run, 2);
        assert(inputs.push(input).drop_last() =~= inputs);
    }

    /// The state after one frame for each of the given inputs, in order.
    #[verifier::opaque]
    pub open spec fn run(self, inputs: Seq<bool>) -> Player
        decreases inputs.len(),
    {
        if inputs.len() == 0 {
            self
        } else {
            self.run(inputs.drop_last()).next(inputs.last())
        }
    }

    /// Integrates frames until the position is negative.
    pub open spec fn fall(self) -> Player
        decreases self.position_y.0 + 0x8000_0000,
    {
        if self.position_y.0 < 0 {
            self
        } else {
            let n = self.integrated();
            if n.position_y.0 < self.position_y.0 {
                n.fall()
            } else {
                n
            }
        }
    }

    /// A ground pound followed by the fall below the floor; from the floor
    /// only the position is set to a negative value.
    pub open spec fn ground_pound(self) -> Player {
        match self.state {
            State::Wait => Player { position_y: Fix(GROUND_POUND_FROM_FLOOR_POS), ..self },
            State::Jump => Player {
                position_y: Fix(wrap(self.position_y.0 + GROUND_POUND_ASCENT)),
                velocity_y: Fix(GROUND_POUND_INIT_VEL),
                vert_accel: Fix(VERT_ACCEL),
                ..self
            }.fall(),
        }
    }
}

impl Player {
    /// A player about to jump: the first update only arms the jump, whose
    /// speed comes from the jump number, a quarter of the horizontal speed
    /// and the character's jump factor.
    pub fn new(character: Character, position_y: Fix, horz_speed: Fix, jump_index: usize) -> (r:
        Player)
        requires
            jump_index < 3,
        ensures
            r.wf(),
            r == Player::start(character, position_y, horz_speed, jump_index as int),
    {
        let speed = if jump_index == 0 {
            172032
        } else if jump_index == 1 {
            212992
        } else {
            282624
        };
        let factor = match character {
            Character::Mario => 4096,
            Character::Luigi => 4096,
            Character::Wario => 3358,
            Character::Yoshi => 3686,
        };
        Player {
            character,
            position_y,
            velocity_y: (Fix::new_raw(speed) + (horz_speed >> 2)) * Fix::new_raw(factor),
            vert_accel: Fix::new_raw(VERT_ACCEL),
            terminal_velocity: Fix::new_raw(TERMINAL_VELOCITY),
            triple_jump: jump_index == 2,
            can_flutter_jump: true,
            is_flutter_jumping: false,
            state: State::Wait,
        }
    }

    pub fn position_y(&self) -> (r: Fix)
        ensures
            r == self.position_y,
    {
        self.position_y
    }

    pub fn velocity_y(&self) -> (r: Fix)
        ensures
            r == self.velocity_y,
    {
        self.velocity_y
    }

    /// Sets the acceleration of an ordinary jump.
    pub fn update_jump(&mut self, holding_b: bool)
        ensures
            *final(self) == old(self).with_accel(old(self).jump_accel(holding_b)),
    {
        self.vert_accel = if self.velocity_y.0 < 0 {
            Fix::new_raw(VERT_ACCEL)
        } else if holding_b {
            Fix::new_raw(JUMP_UP_VERT_ACCEL_HOLDING_B)
        } else {
            Fix::new_raw(JUMP_UP_VERT_ACCEL)
        }
    }

    /// Sets the acceleration of Luigi's jump.
    pub fn update_jump_luigi(&mut self, holding_b: bool)
        ensures
            *final(self) == old(self).with_accel(old(self).luigi_accel(holding_b)),
    {
        self.vert_accel = if self.velocity_y.0 < 0 {
            if holding_b {
                let quarter = Fix::new_raw(VERT_ACCEL) >> 2;
                proof {
                    assert((-16384i32 >> 2u32) == -4096i32) by (bit_vector);
                }
                quarter
            } else {
                Fix::new_raw(VERT_ACCEL)
            }
        } else if holding_b {
            Fix::new_raw(JUMP_UP_VERT_ACCEL_HOLDING_B)
        } else {
            Fix::new_raw(JUMP_UP_VERT_ACCEL)
        }
    }

    /// Yoshi's part of a frame: flutter lift and exit, or acceleration and
    /// flutter entry.
    pub fn update_jump_yoshi(&mut self, holding_b: bool)
        ensures
            *final(self) == old(self).yoshi_jump(holding_b),
    {
        if self.is_flutter_jumping {
            if holding_b {
                self.velocity_y = self.velocity_y + if self.velocity_y.0 >= 0 {
                    Fix::new_raw(FLUTTER_JUMP_UP_VERT_ACCELERATION)
                } else {
                    Fix::new_raw(FLUTTER_JUMP_DOWN_VERT_ACCELERATION)
                };
            }
            if !holding_b || self.velocity_y.0 >= FLUTTER_JUMP_MAX_VERT_SPEED {
                self.is_flutter_jumping = false;
                self.can_flutter_jump = false;
            }
        } else {
            self.vert_accel = if self.velocity_y.0 < 0 {
                90 * Fix::new_raw(VERT_ACCEL) / 100
            } else if holding_b {
                90 * Fix::new_raw(JUMP_UP_VERT_ACCEL_YOSHI_HOLDING_B) / 100
            } else {
                Fix::new_raw(JUMP_UP_VERT_ACCEL)
            };
            if holding_b && self.can_flutter_jump && self.velocity_y.0
                < FLUTTER_JUMP_MAX_START_VERT_SPEED {
                self.is_flutter_jumping = true;
                self.vert_accel = Fix::new_raw(0);
            }
        }
    }

    /// Advances one frame: the mode-specific step, then velocity gains the
    /// acceleration, is clamped at the terminal velocity, and is added to the
    /// position. A triple jump always counts as holding the button.
    pub fn update(&mut self, holding_b: bool)
        ensures
            *final(self) == old(self).next(holding_b),
    {
        match self.state {
            State::Wait => {
                self.state = State::Jump;
            },
            State::Jump => {
                if self.triple_jump {
                    self.update_jump(true)
                } else {
                    match self.character {
                        Character::Mario | Character::Wario => self.update_jump(holding_b),
                        Character::Luigi => self.update_jump_luigi(holding_b),
                        Character::Yoshi => self.update_jump_yoshi(holding_b),
                    }
                }
            },
        }
        self.integrate();
    }

    /// Velocity gains the acceleration and is clamped at the terminal
    /// velocity; position gains the velocity.
    fn integrate(&mut self)
        ensures
            *final(self) == old(self).integrated(),
    {
        self.velocity_y = (self.velocity_y + self.vert_accel).max(self.terminal_velocity);
        self.position_y = self.position_y + self.velocity_y;
    }

    /// Updates frame by frame until `cond` holds, taking each frame's input
    /// from `holding_b` (given the current state and the frame number), and
    /// returns the number of frames. Gives up after `usize::MAX` frames.
    pub fn update_until(
        &mut self,
        holding_b: impl Fn(&Player, usize) -> bool,
        cond: impl Fn(&Player) -> bool,
    ) -> (frames: usize)
        requires
            forall|p: Player, n: usize| holding_b.requires((&p, n)),
            forall|p: Player| cond.requires((&p,)),
        ensures
            exists|inputs: Seq<bool>|
                {
                    &&& inputs.len() == frames
                    &&& *final(self) == old(self).run(inputs)
                    &&& forall|k: int|
                        0 <= k < frames ==> {
                            &&& holding_b.ensures(
                                (&#[trigger] old(self).run(inputs.take(k)), k as usize),
                                inputs[k],
                            )
                            &&& cond.ensures((&old(self).run(inputs.take(k)),), false)
                        }
                },
            frames < usize::MAX ==> cond.ensures((&*final(self),), true),
    {
        let ghost start = *self;
        let ghost mut inputs: Seq<bool> = Seq::empty();
        let mut frame: usize = 0;
        proof {
            reveal_with_fuel(Player::run, 1);
        }
        loop
            invariant
                forall|p: Player, n: usize| holding_b.requires((&p, n)),
                forall|p: Player| cond.requires((&p,)),
                start == *old(self),
                inputs.len() == frame,
                *self == start.run(inputs),
                forall|k: int|
                    0 <= k < frame ==> {
                        &&& holding_b.ensures(
                            (&#[trigger] start.run(inputs.take(k)), k as usize),
                            inputs[k],
                        )
                        &&& cond.ensures((&start.run(inputs.take(k)),), false)
                    },
            decreases usize::MAX - frame,
        {
            let current = *self;
            let done = cond(&current);
            if done || frame == usize::MAX {
                assert(inputs.take(frame as int) =~= inputs);
                return frame;
            }
            let held = holding_b(&current, frame);
            self.update(held);
            proof {
                let prev = inputs;
                inputs = inputs.push(held);
                start.lemma_run_push(prev, held);
                assert(inputs.take(frame as int) =~= prev);
                assert forall|k: int| 0 <= k < frame implies #[trigger] inputs.take(k) =~= prev.take(k) by {}
            }
            frame += 1;
        }
    }

    /// Starts a ground pound and lets the player fall until the position is
    /// negative. A ground pound from the floor is not allowed: the position is
    /// then set to -1.0.
    pub fn update_ground_pound_until_below(&mut self)
        requires
            old(self).wf(),
        ensures
            *final(self) == old(self).ground_pound(),
    {
        if self.state == State::Wait {
            self.position_y = Fix::new_raw(GROUND_POUND_FROM_FLOOR_POS);
            return;
        }
        self.position_y = self.position_y + Fix::new_raw(GROUND_POUND_ASCENT);
        self.velocity_y = Fix::new_raw(GROUND_POUND_INIT_VEL);
        self.vert_accel = Fix::new_raw(VERT_ACCEL);
        let ghost target = self.fall();
        while self.position_y.0 >= 0
            invariant
                self.wf(),
                self.vert_accel.0 == VERT_ACCEL,
                TERMINAL_VELOCITY <= self.velocity_y.0 <= GROUND_POUND_INIT_VEL,
                self.fall() == target,
            decreases self.position_y.0 + 0x8000_0000,
        {
            proof {
                assert(self.integrated().position_y.0 < self.position_y.0);
                assert(self.fall() == self.integrated().fall());
            }
            self.integrate();
        }
    }
}

/// A raw value shifted to a 32-bit digit in `0..2^32`.
pub open spec fn digit(x: Fix) -> int {
    x.0 + 0x8000_0000
}

/// 0 or 1.
pub open spec fn bit(b: bool) -> int {
    if b {
        1
    } else {
        0
    }
}

pub open spec fn character_code(c: Character) -> int {
    match c {
        Character::Mario => 0,
        Character::Luigi => 1,
        Character::Wario => 2,
        Character::Yoshi => 3,
    }
}

impl Player {
    /// Character, jump kind, flutter flags and phase packed in six bits.
    pub open spec fn flags(self) -> int {
        character_code(self.character) + 4 * bit(self.triple_jump) + 8 * bit(self.can_flutter_jump)
            + 16 * bit(self.is_flutter_jumping) + 32 * bit(self.state == State::Jump)
    }

    /// Position, velocity, acceleration and flags as digits of one integer.
    pub open spec fn packed(self) -> int {
        digit(self.position_y) + 0x1_0000_0000 * digit(self.velocity_y) + 0x1_0000_0000_0000_0000
            * digit(self.vert_accel) + 0x1_0000_0000_0000_0000_0000_0000 * self.flags()
    }

    /// Falling keeps the terminal velocity.
    proof fn lemma_fall_wf(self)
        requires
            self.wf(),
        ensures
            self.fall().wf(),
        decreases self.position_y.0 + 0x8000_0000,
    {
        if self.position_y.0 >= 0 {
            let n = self.integrated();
            if n.position_y.0 < self.position_y.0 {
                n.lemma_fall_wf();
            }
        }
    }
}

/// Exec digit of a raw value.
pub(crate) fn digit_of(x: Fix) -> (r: u128)
    ensures
        r == digit(x),
{
    (x.0 as i64 + 0x8000_0000) as u128
}

/// One frame's input: whether B is held, and whether R starts a ground pound.
#[derive(Clone, Copy, Debug, PartialEq, Eq, Structural, Hash)]
pub struct Buttons {
    pub held_b: bool,
    pub pressed_r: bool,
}

impl Frame for Player {
    type Input = Buttons;

    open spec fn inv(&self) -> bool {
        self.wf()
    }

    open spec fn spec_key(&self) -> u128 {
        self.packed() as u128
    }

    open spec fn spec_advance(&self, input: Buttons) -> Player {
        if input.pressed_r {
            self.ground_pound()
        } else {
            self.next(input.held_b)
        }
    }

    open spec fn spec_position(&self) -> i32 {
        self.position_y.0
    }

    open spec fn branches() -> Seq<Buttons> {
        seq![
            Buttons { held_b: true, pressed_r: false },
            Buttons { held_b: false, pressed_r: false },
            Buttons { held_b: true, pressed_r: true },
        ]
    }

    proof fn lemma_key_injective(a: Player, b: Player) {
        assert(a.packed() == b.packed());
        assert(a.position_y == b.position_y);
        assert(a.velocity_y == b.velocity_y);
        assert(a.vert_accel == b.vert_accel);
        assert(a.flags() == b.flags());
        assert(a.character == b.character);
        assert(a.state == b.state);
    }

    proof fn lemma_advance_inv(&self, input: Buttons) {
        if input.pressed_r && self.state == State::Jump {
            Player {
                position_y: Fix(wrap(self.position_y.0 + GROUND_POUND_ASCENT)),
                velocity_y: Fix(GROUND_POUND_INIT_VEL),
                vert_accel: Fix(VERT_ACCEL),
                ..*self
            }.lemma_fall_wf();
        }
    }

    fn key(&self) -> (r: u128) {
        let c: u128 = match self.character {
            Character::Mario => 0,
            Character::Luigi => 1,
            Character::Wario => 2,
            Character::Yoshi => 3,
        };
        let flags: u128 = c + if self.triple_jump {
            4
        } else {
            0
        } + if self.can_flutter_jump {
            8
        } else {
            0
        } + if self.is_flutter_jumping {
            16
        } else {
            0
        } + if self.state == State::Jump {
            32
        } else {
            0
        };
        digit_of(self.position_y) + 0x1_0000_0000 * digit_of(self.velocity_y)
            + 0x1_0000_0000_0000_0000 * digit_of(self.vert_accel)
            + 0x1_0000_0000_0000_0000_0000_0000 * flags
    }

    fn advance(&self, input: Buttons) -> (r: Player) {
        let mut p = *self;
        if input.pressed_r {
            p.update_ground_pound_until_below();
        } else {
            p.update(input.held_b);
        }
        p
    }

    fn position(&self) -> (r: i32) {
        self.position_y.0
    }

    fn branch_inputs() -> (r: Vec<Buttons>) {
        let r = vec![
            Buttons { held_b: true, pressed_r: false },
            Buttons { held_b: false, pressed_r: false },
            Buttons { held_b: true, pressed_r: true },
        ];
        assert(r@ =~= seq![
            Buttons { held_b: true, pressed_r: false },
            Buttons { held_b: false, pressed_r: false },
            Buttons { held_b: true, pressed_r: true },
        ]);
        r
    }
}

/// Two players built with the same parameters go through the same states
/// for the same inputs, frame by frame.
pub proof fn lemma_deterministic(
    first: Player,
    second: Player,
    character: Character,
    position_y: Fix,
    horz_speed: Fix,
    jump_index: int,
    inputs: Seq<bool>,
)
    requires
        first == Player::start(character, position_y, horz_speed, jump_index),
        second == Player::start(character, position_y, horz_speed, jump_index),
    ensures
        forall|k: int|
            0 <= k <= inputs.len() ==> #[trigger] first.run(inputs.take(k)) == second.run(
                inputs.take(k),
            ),
{
}

} // verus!
