use vstd::prelude::*;

use crate::entity::{centred_start, Entity};
use crate::gamestate::{
    after_collision, after_input, after_motion, after_scoring, deflected, next_state, sign,
    Config, GameState, Input,
};
use crate::geometry::{overlaps, Vec2};

verus! {

/// With no control held, a frame leaves both paddles where they were.
pub proof fn lemma_idle_paddles_stay(s: GameState, input: Input, cfg: Config)
    requires
        s.steppable(cfg),
        !input.player1_up,
        !input.player1_down,
        !input.player2_up,
        !input.player2_down,
    ensures
        next_state(s, input, cfg).player1 == s.player1,
        next_state(s, input, cfg).player2 == s.player2,
{
    assert(after_input(s, input, cfg).player1 == s.player1);
    assert(after_input(s, input, cfg).player2 == s.player2);
}

/// Before any collision, wall or score is considered, the ball has moved by exactly
/// its velocity.
pub proof fn lemma_ball_moves_by_velocity(s: GameState, input: Input, cfg: Config)
    requires
        s.steppable(cfg),
    ensures
        after_motion(after_input(s, input, cfg)).ball.position.x == s.ball.position.x
            + s.ball.velocity.x,
        after_motion(after_input(s, input, cfg)).ball.position.y == s.ball.position.y
            + s.ball.velocity.y,
        after_motion(after_input(s, input, cfg)).ball.velocity == s.ball.velocity,
{
}

/// A ball that overlaps paddle one leaves with its horizontal speed reversed and
/// increased by the acceleration: `-(v + acc * sign(v))`.
pub proof fn lemma_paddle_one_returns_ball(s: GameState, cfg: Config)
    requires
        cfg.valid(),
        s.ball.in_limits(),
        overlaps(s.ball.bounds_spec(), s.player1.bounds_spec()),
    ensures
        after_collision(s, cfg).ball.velocity.x == -(s.ball.velocity.x + cfg.ball_acc * sign(
            s.ball.velocity.x as int,
        )),
{
}

/// A ball whose centre is level with the paddle's centre gets no vertical spin.
pub proof fn lemma_centre_hit_has_no_spin(ball: Entity, paddle: Entity, cfg: Config)
    requires
        cfg.valid(),
        ball.in_limits(),
        paddle.wf(),
        ball.centre_y() == paddle.centre_y(),
    ensures
        deflected(ball, paddle, cfg).velocity.y == ball.velocity.y,
{
}

/// A ball past the left edge gives player two exactly one point and is served again
/// from the middle, moving left at the serving speed with no vertical speed.
pub proof fn lemma_left_exit_scores_for_player_two(s: GameState, cfg: Config)
    requires
        cfg.valid(),
        s.ball.wf(),
        s.player1_score < u32::MAX,
        s.player2_score < u32::MAX,
        s.ball.position.x < 0,
    ensures
        after_scoring(s, cfg).player2_score == s.player2_score + 1,
        after_scoring(s, cfg).player1_score == s.player1_score,
        after_scoring(s, cfg).ball.position.x == centred_start(
            cfg.field_width as int,
            s.ball.size.x as int,
        ),
        after_scoring(s, cfg).ball.position.y == centred_start(
            cfg.field_height as int,
            s.ball.size.y as int,
        ),
        after_scoring(s, cfg).ball.velocity.x == -cfg.ball_speed,
        after_scoring(s, cfg).ball.velocity.y == 0,
{
}

/// A ball at rest inside the playfield, touching no paddle, with no control held,
/// is a fixed point of the frame: stepping again and again changes nothing.
pub proof fn lemma_still_ball_is_fixed_point(s: GameState, input: Input, cfg: Config)
    requires
        s.steppable(cfg),
        !input.player1_up,
        !input.player1_down,
        !input.player2_up,
        !input.player2_down,
        s.ball.velocity == (Vec2 { x: 0, y: 0 }),
        !overlaps(s.ball.bounds_spec(), s.player1.bounds_spec()),
        !overlaps(s.ball.bounds_spec(), s.player2.bounds_spec()),
        0 <= s.ball.position.x <= cfg.field_width,
    ensures
        next_state(s, input, cfg) == s,
        next_state(next_state(s, input, cfg), input, cfg) == s,
{
    lemma_idle_paddles_stay(s, input, cfg);
    let m = after_motion(after_input(s, input, cfg));
    assert(m.ball == s.ball);
    assert(m == s);
    assert(after_collision(m, cfg) == s);
}

} // verus!
