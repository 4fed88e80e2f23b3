use vstd::prelude::*;

use crate::entity::{centred_start, in_limit, Entity, COORD_LIMIT};
use crate::geometry::{overlaps, Vec2};

verus! {

/// The playfield and the tunables of a match, all in the playfield's integer units.
#[derive(Clone, Copy, Debug, PartialEq, Eq, Structural)]
pub struct Config {
    pub field_width: i64,
    pub field_height: i64,
    /// Distance between each paddle and its edge of the playfield.
    pub paddle_inset: i64,
    /// Vertical distance a paddle moves in a frame while its control is held.
    pub paddle_speed: i64,
    /// Horizontal speed of the ball at the start and after each point.
    pub ball_speed: i64,
    /// Vertical speed given to the ball per paddle height of distance between centres.
    pub paddle_spin: i64,
    /// Horizontal speed the ball gains on each paddle hit.
    pub ball_acc: i64,
    /// The score that ends the match.
    pub win_threshold: u32,
}

/// The four controls, as held during the current frame.
#[derive(Clone, Copy, Debug, PartialEq, Eq, Structural)]
pub struct Input {
    pub player1_up: bool,
    pub player1_down: bool,
    pub player2_up: bool,
    pub player2_down: bool,
}

#[derive(Clone, Copy, Debug, PartialEq, Eq, Structural)]
pub enum Player {
    One,
    Two,
}

/// A match: two paddles, the ball and the two scores.
#[derive(Clone, Debug, PartialEq, Eq)]
pub struct GameState {
    pub player1: Entity,
    pub player2: Entity,
    pub ball: Entity,
    pub player1_score: u32,
    pub player2_score: u32,
}

impl Config {
    pub open spec fn valid(&self) -> bool {
        &&& 0 < self.field_width <= COORD_LIMIT
        &&& 0 < self.field_height <= COORD_LIMIT
        &&& in_limit(self.paddle_inset as int)
        &&& in_limit(self.paddle_speed as int)
        &&& in_limit(self.ball_speed as int)
        &&& in_limit(self.paddle_spin as int)
        &&& in_limit(self.ball_acc as int)
    }
}

pub open spec fn sign(v: int) -> int {
    if v > 0 {
        1
    } else if v < 0 {
        -1
    } else {
        0
    }
}

/// `spin * offset / height`, rounded toward zero.
pub open spec fn spin_term(spin: int, offset: int, height: int) -> int {
    let p = spin * offset;
    if p >= 0 {
        p / height
    } else {
        -((-p) / height)
    }
}

/// A paddle's `y` after a frame: up subtracts the speed, down adds it.
pub open spec fn moved_y(y: int, up: bool, down: bool, speed: int) -> int {
    y - (if up { speed } else { 0 }) + (if down { speed } else { 0 })
}

pub open spec fn with_y(e: Entity, y: int) -> Entity {
    Entity { position: Vec2 { y: y as i64, ..e.position }, ..e }
}

pub open spec fn with_velocity(e: Entity, vx: int, vy: int) -> Entity {
    Entity { velocity: Vec2 { x: vx as i64, y: vy as i64 }, ..e }
}

/// The ball served from the middle of the playfield at horizontal speed `vx`.
pub open spec fn served(ball: Entity, cfg: Config, vx: int) -> Entity {
    Entity {
        position: Vec2 {
            x: centred_start(cfg.field_width as int, ball.size.x as int) as i64,
            y: centred_start(cfg.field_height as int, ball.size.y as int) as i64,
        },
        velocity: Vec2 { x: vx as i64, y: 0 },
        ..ball
    }
}

/// Paddle movement.
pub open spec fn after_input(s: GameState, input: Input, cfg: Config) -> GameState {
    GameState {
        player1: with_y(
            s.player1,
            moved_y(s.player1.position.y as int, input.player1_up, input.player1_down, cfg.paddle_speed as int),
        ),
        player2: with_y(
            s.player2,
            moved_y(s.player2.position.y as int, input.player2_up, input.player2_down, cfg.paddle_speed as int),
        ),
        ..s
    }
}

/// The ball moves by its velocity.
pub open spec fn after_motion(s: GameState) -> GameState {
    GameState {
        ball: Entity {
            position: Vec2 {
                x: (s.ball.position.x + s.ball.velocity.x) as i64,
                y: (s.ball.position.y + s.ball.velocity.y) as i64,
            },
            ..s.ball
        },
        ..s
    }
}

/// The ball sent back from `paddle`: its horizontal speed reversed and increased,
/// its vertical speed changed by the spin of the contact point.
pub open spec fn deflected(ball: Entity, paddle: Entity, cfg: Config) -> Entity {
    let vx = ball.velocity.x as int;
    with_velocity(
        ball,
        -(vx + cfg.ball_acc * sign(vx)),
        ball.velocity.y + spin_term(
            cfg.paddle_spin as int,
            ball.centre_y() - paddle.centre_y(),
            paddle.size.y as int,
        ),
    )
}

/// Paddle one is tested first; at most one paddle deflects the ball.
pub open spec fn after_collision(s: GameState, cfg: Config) -> GameState {
    if overlaps(s.ball.bounds_spec(), s.player1.bounds_spec()) {
        GameState { ball: deflected(s.ball, s.player1, cfg), ..s }
    } else if overlaps(s.ball.bounds_spec(), s.player2.bounds_spec()) {
        GameState { ball: deflected(s.ball, s.player2, cfg), ..s }
    } else {
        s
    }
}

/// The ball's vertical speed is reversed when it touches the top or the bottom.
pub open spec fn after_walls(s: GameState, cfg: Config) -> GameState {
    if s.ball.position.y <= 0 || s.ball.position.y + s.ball.size.y >= cfg.field_height {
        GameState {
            ball: with_velocity(s.ball, s.ball.velocity.x as int, -s.ball.velocity.y),
            ..s
        }
    } else {
        s
    }
}

/// A ball past the left edge scores for player two and is served toward the left.
pub open spec fn after_left_exit(s: GameState, cfg: Config) -> GameState {
    if s.ball.position.x < 0 {
        GameState {
            player2_score: (s.player2_score + 1) as u32,
            ball: served(s.ball, cfg, -cfg.ball_speed),
            ..s
        }
    } else {
        s
    }
}

/// A ball past the right edge scores for player one and is served toward the right.
pub open spec fn after_right_exit(s: GameState, cfg: Config) -> GameState {
    if s.ball.position.x > cfg.field_width {
        GameState {
            player1_score: (s.player1_score + 1) as u32,
            ball: served(s.ball, cfg, cfg.ball_speed as int),
            ..s
        }
    } else {
        s
    }
}

pub open spec fn after_scoring(s: GameState, cfg: Config) -> GameState {
    after_right_exit(after_left_exit(s, cfg), cfg)
}

/// The state after one frame.
pub open spec fn next_state(s: GameState, input: Input, cfg: Config) -> GameState {
    after_scoring(after_walls(after_collision(after_motion(after_input(s, input, cfg)), cfg), cfg), cfg)
}

/// The winner, once a score has reached the threshold: the higher score, else player two.
pub open spec fn outcome(s: GameState, cfg: Config) -> Option<Player> {
    if s.player1_score >= cfg.win_threshold || s.player2_score >= cfg.win_threshold {
        Some(if s.player1_score > s.player2_score { Player::One } else { Player::Two })
    } else {
        None
    }
}

impl GameState {
    /// Every value is small enough for a frame to be computed exactly.
    pub open spec fn steppable(&self, cfg: Config) -> bool {
        &&& cfg.valid()
        &&& self.player1.wf() && self.player1.in_limits()
        &&& self.player2.wf() && self.player2.in_limits()
        &&& self.ball.wf() && self.ball.in_limits()
        &&& self.player1_score < u32::MAX
        &&& self.player2_score < u32::MAX
    }
}

/// `v` lies within `k` times the coordinate limit.
pub open spec fn within(v: int, k: int) -> bool {
    -k * COORD_LIMIT <= v <= k * COORD_LIMIT
}

fn sign_of(v: i64) -> (r: i64)
    ensures
        r == sign(v as int),
{
    if v > 0 {
        1
    } else if v < 0 {
        -1
    } else {
        0
    }
}

proof fn lemma_spin_bounds(spin: int, offset: int, height: int)
    requires
        within(spin, 1),
        within(offset, 5),
        height >= 1,
    ensures
        -5 * COORD_LIMIT * COORD_LIMIT <= spin * offset <= 5 * COORD_LIMIT * COORD_LIMIT,
        -5 * COORD_LIMIT * COORD_LIMIT <= spin_term(spin, offset, height) <= 5 * COORD_LIMIT
            * COORD_LIMIT,
{
    let l = COORD_LIMIT as int;
    assert(-5 * l * l <= spin * offset <= 5 * l * l) by (nonlinear_arith)
        requires
            -l <= spin <= l,
            -5 * l <= offset <= 5 * l,
            l > 0,
    ;
    let p = spin * offset;
    if p >= 0 {
        assert(0 <= p / height <= p) by (nonlinear_arith)
            requires
                p >= 0,
                height >= 1,
        ;
    } else {
        assert(0 <= (-p) / height <= -p) by (nonlinear_arith)
            requires
                -p > 0,
                height >= 1,
        ;
    }
}

/// Sends `ball` back from `paddle`, as `deflected` states.
fn deflect(ball: &mut Entity, paddle: &Entity, cfg: &Config)
    requires
        cfg.valid(),
        old(ball).wf(),
        paddle.wf(),
        within(old(ball).position.x as int, 2),
        within(old(ball).position.y as int, 2),
        within(paddle.position.x as int, 1),
        within(old(ball).velocity.x as int, 1),
        within(old(ball).velocity.y as int, 1),
        within(paddle.position.y as int, 2),
    ensures
        *final(ball) == deflected(*old(ball), *paddle, *cfg),
        within(final(ball).velocity.y as int, 5 * COORD_LIMIT + 1),
{
    let vx = ball.velocity.x;
    let acc = if vx > 0 {
        cfg.ball_acc
    } else if vx < 0 {
        -cfg.ball_acc
    } else {
        0
    };
    assert(acc == cfg.ball_acc * sign(vx as int));
    let new_vx = -(vx + acc);
    let bc = ball.centre();
    let pc = paddle.centre();
    let offset = bc.y - pc.y;
    proof {
        lemma_spin_bounds(cfg.paddle_spin as int, offset as int, paddle.size.y as int);
    }
    let p = cfg.paddle_spin * offset;
    let h = paddle.size.y;
    let term = if p >= 0 {
        p / h
    } else {
        -((-p) / h)
    };
    ball.velocity = Vec2 { x: new_vx, y: ball.velocity.y + term };
}

impl GameState {
    fn move_paddles(&mut self, input: &Input, cfg: &Config)
        requires
            old(self).steppable(*cfg),
        ensures
            *final(self) == after_input(*old(self), *input, *cfg),
    {
        let speed = cfg.paddle_speed;
        let mut y1 = self.player1.position.y;
        if input.player1_up {
            y1 = y1 - speed;
        }
        if input.player1_down {
            y1 = y1 + speed;
        }
        let mut y2 = self.player2.position.y;
        if input.player2_up {
            y2 = y2 - speed;
        }
        if input.player2_down {
            y2 = y2 + speed;
        }
        self.player1.position.y = y1;
        self.player2.position.y = y2;
    }

    fn move_ball(&mut self)
        requires
            old(self).ball.in_limits(),
        ensures
            *final(self) == after_motion(*old(self)),
    {
        let v = self.ball.velocity;
        self.ball.position = Vec2 { x: self.ball.position.x + v.x, y: self.ball.position.y + v.y };
    }

    fn collide(&mut self, cfg: &Config)
        requires
            cfg.valid(),
            old(self).ball.wf(),
            old(self).player1.wf(),
            old(self).player2.wf(),
            within(old(self).ball.position.x as int, 2),
            within(old(self).ball.position.y as int, 2),
            within(old(self).ball.velocity.x as int, 1),
            within(old(self).ball.velocity.y as int, 1),
            within(old(self).player1.position.x as int, 1),
            within(old(self).player1.position.y as int, 2),
            within(old(self).player2.position.x as int, 1),
            within(old(self).player2.position.y as int, 2),
        ensures
            *final(self) == after_collision(*old(self), *cfg),
            within(final(self).ball.velocity.y as int, 5 * COORD_LIMIT + 1),
    {
        let ball_bounds = self.ball.bounds();
        if ball_bounds.intersects(&self.player1.bounds()) {
            deflect(&mut self.ball, &self.player1, cfg);
        } else if ball_bounds.intersects(&self.player2.bounds()) {
            deflect(&mut self.ball, &self.player2, cfg);
        }
    }

    fn bounce(&mut self, cfg: &Config)
        requires
            old(self).ball.wf(),
            within(old(self).ball.position.y as int, 2),
            within(old(self).ball.velocity.y as int, 5 * COORD_LIMIT + 1),
        ensures
            *final(self) == after_walls(*old(self), *cfg),
    {
        if self.ball.position.y <= 0 || self.ball.position.y + self.ball.size.y >= cfg.field_height {
            self.ball.velocity.y = -self.ball.velocity.y;
        }
    }

    fn score(&mut self, cfg: &Config)
        requires
            cfg.valid(),
            old(self).ball.wf(),
            old(self).player1_score < u32::MAX,
            old(self).player2_score < u32::MAX,
        ensures
            *final(self) == after_scoring(*old(self), *cfg),
    {
        if self.ball.position.x < 0 {
            self.player2_score = self.player2_score + 1;
            self.ball.center(cfg.field_width, cfg.field_height);
            self.ball.velocity = Vec2 { x: -cfg.ball_speed, y: 0 };
        }
        if self.ball.position.x > cfg.field_width {
            self.player1_score = self.player1_score + 1;
            self.ball.center(cfg.field_width, cfg.field_height);
            self.ball.velocity = Vec2 { x: cfg.ball_speed, y: 0 };
        }
    }

    /// Advances the match by one frame and reports its end, if it has ended.
    pub fn step(&mut self, input: &Input, cfg: &Config) -> (r: Option<Player>)
        requires
            old(self).steppable(*cfg),
        ensures
            *final(self) == next_state(*old(self), *input, *cfg),
            r == outcome(*final(self), *cfg),
    {
        self.move_paddles(input, cfg);
        self.move_ball();
        self.collide(cfg);
        self.bounce(cfg);
        self.score(cfg);
        self.winner(cfg)
    }

    /// The end of the match: `None` while both scores are under the threshold.
    pub fn winner(&self, cfg: &Config) -> (r: Option<Player>)
        ensures
            r == outcome(*self, *cfg),
    {
        if self.player1_score >= cfg.win_threshold || self.player2_score >= cfg.win_threshold {
            if self.player1_score > self.player2_score {
                Some(Player::One)
            } else {
                Some(Player::Two)
            }
        } else {
            None
        }
    }

    /// A new match: each paddle at rest, `paddle_inset` from its edge and vertically
    /// centred; the ball centred and moving left at `ball_speed`; both scores zero.
    pub fn new(cfg: &Config, player1_size: Vec2, player2_size: Vec2, ball_size: Vec2) -> (r:
        GameState)
        requires
            cfg.valid(),
            0 < player1_size.x <= COORD_LIMIT,
            0 < player1_size.y <= COORD_LIMIT,
            0 < player2_size.x <= COORD_LIMIT,
            0 < player2_size.y <= COORD_LIMIT,
            0 < ball_size.x <= COORD_LIMIT,
            0 < ball_size.y <= COORD_LIMIT,
        ensures
            r.player1.name@ == "player1"@,
            r.player1.size == player1_size,
            r.player1.position.x == cfg.paddle_inset,
            r.player1.position.y == centred_start(cfg.field_height as int, player1_size.y as int),
            r.player1.velocity == (Vec2 { x: 0, y: 0 }),
            r.player2.name@ == "player2"@,
            r.player2.size == player2_size,
            r.player2.position.x == cfg.field_width - player2_size.x - cfg.paddle_inset,
            r.player2.position.y == centred_start(cfg.field_height as int, player2_size.y as int),
            r.player2.velocity == (Vec2 { x: 0, y: 0 }),
            r.ball.name@ == "ball"@,
            r.ball.size == ball_size,
            r.ball.position.x == centred_start(cfg.field_width as int, ball_size.x as int),
            r.ball.position.y == centred_start(cfg.field_height as int, ball_size.y as int),
            r.ball.velocity.x == -cfg.ball_speed,
            r.ball.velocity.y == 0,
            r.player1_score == 0,
            r.player2_score == 0,
    {
        let w = cfg.field_width;
        let h = cfg.field_height;
        let player1_position = Vec2::new(cfg.paddle_inset, h / 2 - player1_size.y / 2);
        let player2_position = Vec2::new(
            w - player2_size.x - cfg.paddle_inset,
            h / 2 - player2_size.y / 2,
        );
        let ball_position = Vec2::new(w / 2 - ball_size.x / 2, h / 2 - ball_size.y / 2);
        let ball_velocity = Vec2::new(-cfg.ball_speed, 0);
        GameState {
            player1: Entity::new("player1".to_owned(), player1_size, player1_position),
            player2: Entity::new("player2".to_owned(), player2_size, player2_position),
            ball: Entity::with_velocity("ball".to_owned(), ball_size, ball_position, ball_velocity),
            player1_score: 0,
            player2_score: 0,
        }
    }

    /// Whether every value is small enough for `step` to compute the next frame exactly.
    pub fn can_step(&self, cfg: &Config) -> (r: bool)
        ensures
            r == self.steppable(*cfg),
    {
        let lim = COORD_LIMIT;
        let fits = |v: i64| -> (b: bool)
            ensures
                b == in_limit(v as int),
            { -lim <= v && v <= lim };
        let sized = |e: &Entity| -> (b: bool)
            ensures
                b == (e.wf() && e.in_limits()),
            {
                0 < e.size.x && e.size.x <= lim && 0 < e.size.y && e.size.y <= lim && fits(
                    e.position.x,
                ) && fits(e.position.y) && fits(e.velocity.x) && fits(e.velocity.y)
            };
        let cfg_ok = 0 < cfg.field_width && cfg.field_width <= lim && 0 < cfg.field_height
            && cfg.field_height <= lim && fits(cfg.paddle_inset) && fits(cfg.paddle_speed) && fits(
            cfg.ball_speed,
        ) && fits(cfg.paddle_spin) && fits(cfg.ball_acc);
        cfg_ok && sized(&self.player1) && sized(&self.player2) && sized(&self.ball)
            && self.player1_score < u32::MAX && self.player2_score < u32::MAX
    }
}

} // verus!
