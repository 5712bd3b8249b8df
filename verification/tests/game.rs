use pong_core::ball::{Ball, GoalEvent};
use pong_core::game::{next_game_state, restart_requested, FrameInput, Game, GameState};
use pong_core::paddle::{Paddle, PaddleDirection, PaddleSide};
use pong_core::score::Score;

const UNIT: i64 = 1_000_000;
const SECOND: u32 = 1_000_000;

const IDLE: FrameInput = FrameInput {
    left_up: false,
    left_down: false,
    right_up: false,
    right_down: false,
    restart: false,
};

const RESTART: FrameInput = FrameInput {
    left_up: false,
    left_down: false,
    right_up: false,
    right_down: false,
    restart: true,
};

fn ball_at(x: i64, y: i64, heading: i32) -> Ball {
    Ball { x: x * UNIT, y: y * UNIT, heading }
}

/// A game whose freeze timer has run out, with the ball where it is wanted.
fn game_in_play(ball: Ball) -> Game {
    let mut game = Game::new();
    let events = game.step(IDLE, 2 * SECOND);
    assert!(events.goal.is_none() && events.game_end.is_none() && !events.restarted);
    assert!(!game.freeze_timer.is_frozen());
    game.ball = ball;
    game
}

fn is_launch(heading: i32) -> bool {
    (-45..=45).contains(&heading) || (135..=180).contains(&heading) || (-179..=-135).contains(&heading)
}

#[test]
fn game_starts_ongoing_with_everything_in_place() {
    let game = Game::new();
    assert_eq!(game.state, GameState::Ongoing);
    assert_eq!(GameState::default(), GameState::Ongoing);
    assert_eq!(
        game.left,
        Paddle { side: PaddleSide::Left, y: 0, speed: 300, direction: PaddleDirection::Still }
    );
    assert_eq!(
        game.right,
        Paddle { side: PaddleSide::Right, y: 0, speed: 300, direction: PaddleDirection::Still }
    );
    assert_eq!((game.ball.x, game.ball.y), (0, 0));
    assert!(is_launch(game.ball.heading));
    assert!(game.freeze_timer.is_frozen());
    assert_eq!(game.score, Score { left_score: 0, right_score: 0 });
}

#[test]
fn restart_is_asked_for_only_after_the_end() {
    assert!(restart_requested(GameState::End, true));
    assert!(!restart_requested(GameState::End, false));
    assert!(!restart_requested(GameState::Ongoing, true));
    assert!(!restart_requested(GameState::Ongoing, false));
}

#[test]
fn state_changes_by_win_and_by_restart_only() {
    assert_eq!(next_game_state(GameState::Ongoing, false, false), GameState::Ongoing);
    assert_eq!(next_game_state(GameState::End, false, false), GameState::End);
    assert_eq!(next_game_state(GameState::Ongoing, true, false), GameState::End);
    assert_eq!(next_game_state(GameState::End, true, false), GameState::End);
    assert_eq!(next_game_state(GameState::End, false, true), GameState::Ongoing);
    assert_eq!(next_game_state(GameState::Ongoing, true, true), GameState::Ongoing);
}

#[test]
fn ball_is_held_until_the_freeze_is_over() {
    let mut game = Game::new();
    game.ball = ball_at(0, 0, 0);
    game.step(IDLE, SECOND);
    assert_eq!(game.ball, ball_at(0, 0, 0));
    // the timer fires at the end of this frame, after the ball's turn
    game.step(IDLE, SECOND);
    assert_eq!(game.ball, ball_at(0, 0, 0));
    assert!(!game.freeze_timer.is_frozen());
    game.step(IDLE, SECOND / 10);
    assert_eq!(game.ball, ball_at(30, 0, 0));
}

#[test]
fn ball_leaving_on_the_right_scores_for_the_left_player() {
    // right edge at 305, beyond the bound of 300: no goal while the ball
    // still touches the arena
    let mut game = game_in_play(ball_at(290, 0, 0));
    let events = game.step(IDLE, SECOND / 20);
    assert_eq!(game.ball, ball_at(305, 0, 0));
    assert_eq!(events.goal, None);
    // 30 units further the left edge is at 320
    let events = game.step(IDLE, SECOND / 10);
    assert_eq!(events.goal, Some(GoalEvent { left_scored: true }));
    assert_eq!((game.ball.x, game.ball.y), (0, 0));
    assert!(is_launch(game.ball.heading));
    assert!(game.freeze_timer.is_frozen());
    assert_eq!(game.score, Score { left_score: 1, right_score: 0 });
    assert_eq!(game.state, GameState::Ongoing);
    // the ball is held again for the freeze duration, of which the frame of
    // the goal has used a tenth of a second
    let heading = game.ball.heading;
    game.step(IDLE, SECOND);
    assert_eq!(game.ball, Ball { x: 0, y: 0, heading });
    game.step(IDLE, SECOND * 9 / 10);
    assert_eq!(game.ball, Ball { x: 0, y: 0, heading });
    assert!(!game.freeze_timer.is_frozen());
}

#[test]
fn ball_leaving_on_the_left_scores_for_the_right_player() {
    let mut game = game_in_play(ball_at(-290, 50, 180));
    let events = game.step(IDLE, SECOND / 10);
    assert_eq!(events.goal, Some(GoalEvent { left_scored: false }));
    assert_eq!((game.ball.x, game.ball.y), (0, 0));
    assert_eq!(game.score, Score { left_score: 0, right_score: 1 });
    assert!(game.freeze_timer.is_frozen());
}

#[test]
fn fifth_goal_ends_the_game() {
    let mut game = game_in_play(ball_at(310, 0, 0));
    game.score = Score { left_score: 4, right_score: 2 };
    let events = game.step(IDLE, SECOND / 10);
    assert_eq!(events.goal, Some(GoalEvent { left_scored: true }));
    assert_eq!(events.game_end.unwrap().final_score, (5, 2));
    assert_eq!(game.score, Score { left_score: 0, right_score: 0 });
    assert_eq!(game.state, GameState::End);
}

#[test]
fn fourth_goal_does_not_end_the_game() {
    let mut game = game_in_play(ball_at(-310, 0, 180));
    game.score = Score { left_score: 4, right_score: 3 };
    let events = game.step(IDLE, SECOND / 10);
    assert_eq!(events.goal, Some(GoalEvent { left_scored: false }));
    assert!(events.game_end.is_none());
    assert_eq!(game.score, Score { left_score: 4, right_score: 4 });
    assert_eq!(game.state, GameState::Ongoing);
}

#[test]
fn restart_after_the_end_starts_a_new_game() {
    let mut game = game_in_play(ball_at(310, 0, 0));
    game.score = Score { left_score: 4, right_score: 2 };
    game.step(IDLE, SECOND / 10);
    assert_eq!(game.state, GameState::End);
    // let the freeze run out, so that the restart is seen to arm it
    let events = game.step(RESTART, SECOND / 10);
    assert!(events.restarted);
    assert!(events.goal.is_none() && events.game_end.is_none());
    assert_eq!(game.state, GameState::Ongoing);
    assert!(game.freeze_timer.is_frozen());
    assert_eq!(game.score, Score { left_score: 0, right_score: 0 });
    // armed from zero: the whole freeze duration lies ahead
    game.step(IDLE, 2 * SECOND - 1);
    assert!(game.freeze_timer.is_frozen());
    game.step(IDLE, 1);
    assert!(!game.freeze_timer.is_frozen());
}

#[test]
fn nothing_moves_after_the_end() {
    let mut game = game_in_play(ball_at(310, 0, 0));
    game.score = Score { left_score: 4, right_score: 2 };
    game.step(IDLE, SECOND / 10);
    assert_eq!(game.state, GameState::End);
    let ball = game.ball;
    let held = FrameInput { left_up: true, left_down: false, right_up: false, right_down: true, restart: false };
    for _ in 0..30 {
        let events = game.step(held, SECOND / 10);
        assert!(events.goal.is_none() && events.game_end.is_none() && !events.restarted);
    }
    assert_eq!(game.state, GameState::End);
    assert_eq!(game.ball, ball);
    assert_eq!(game.left.y, 0);
    assert_eq!(game.right.y, 0);
    assert_eq!(game.left.direction, PaddleDirection::Still);
    assert_eq!(game.left.speed, 300);
    // the freeze timer has not counted: the goal armed it, and it still runs
    assert!(game.freeze_timer.is_frozen());
}

#[test]
fn restart_control_does_nothing_during_a_game() {
    let mut game = game_in_play(ball_at(0, 0, 0));
    game.score = Score { left_score: 2, right_score: 1 };
    let events = game.step(RESTART, SECOND / 10);
    assert!(!events.restarted);
    assert_eq!(game.state, GameState::Ongoing);
    assert_eq!(game.score, Score { left_score: 2, right_score: 1 });
    assert_eq!(game.ball, ball_at(30, 0, 0));
    assert!(!game.freeze_timer.is_frozen());
}

#[test]
fn paddles_follow_their_keys() {
    let mut game = Game::new();
    let held = FrameInput { left_up: true, left_down: false, right_up: false, right_down: true, restart: false };
    // 50 ms: the speed timer has not fired, both move at 300 units per second
    game.step(held, 50_000);
    assert_eq!(game.left.y, 15 * UNIT);
    assert_eq!(game.right.y, -15 * UNIT);
    assert_eq!(game.left.direction, PaddleDirection::Up);
    assert_eq!(game.right.direction, PaddleDirection::Down);
    // 50 ms more: the timer fires before the paddles move, so they move at 350
    game.step(held, 50_000);
    assert_eq!((game.left.speed, game.right.speed), (350, 350));
    assert_eq!(game.left.y, 15 * UNIT + 17_500_000);
    assert_eq!(game.right.y, -15 * UNIT - 17_500_000);
    // both keys of the left paddle held: it stands still
    let both = FrameInput { left_up: true, left_down: true, right_up: false, right_down: false, restart: false };
    game.step(both, 50_000);
    assert_eq!(game.left.y, 15 * UNIT + 17_500_000);
    assert_eq!(game.left.direction, PaddleDirection::Still);
    assert_eq!(game.right.direction, PaddleDirection::Still);
}

#[test]
fn paddles_never_leave_the_arena() {
    let mut game = Game::new();
    let up = FrameInput { left_up: true, left_down: false, right_up: false, right_down: true, restart: false };
    for _ in 0..200 {
        game.step(up, 16_667);
        assert!(game.left.y <= 160 * UNIT && game.left.y >= -160 * UNIT);
        assert!(game.right.y <= 160 * UNIT && game.right.y >= -160 * UNIT);
    }
    assert_eq!(game.left.y, 160 * UNIT);
    assert_eq!(game.right.y, -160 * UNIT);
    assert_eq!((game.left.speed, game.right.speed), (800, 800));
}

#[test]
fn ball_bounces_between_paddle_and_wall_in_a_rally() {
    // towards the right paddle, which stands in the middle
    let mut game = game_in_play(ball_at(200, 0, 0));
    game.step(IDLE, SECOND / 10);
    // 230 would reach 5 units into the paddle's left face at 250
    assert_eq!(game.ball, ball_at(230, 0, 0));
    game.step(IDLE, SECOND / 10);
    // 260 strikes no single side of the paddle: the ball is put beside it
    assert_eq!(game.ball, ball_at(285, 0, 180));
    let mut game = game_in_play(ball_at(210, 0, 0));
    game.step(IDLE, SECOND / 10);
    assert_eq!(game.ball, ball_at(235, 0, 180));
    game.step(IDLE, SECOND / 10);
    assert_eq!(game.ball, ball_at(205, 0, 180));
    // straight up into the top wall
    let mut game = game_in_play(ball_at(0, 170, 90));
    game.step(IDLE, SECOND / 10);
    assert_eq!(game.ball, ball_at(0, 185, -90));
    game.step(IDLE, SECOND / 10);
    assert_eq!(game.ball, ball_at(0, 155, -90));
}

#[test]
fn long_game_stays_in_bounds() {
    let mut game = Game::new();
    let mut goals = 0;
    let mut ends = 0;
    for frame in 0..20_000u32 {
        let input = FrameInput {
            left_up: frame % 97 < 50,
            left_down: frame % 89 < 30,
            right_up: frame % 83 < 40,
            right_down: frame % 79 < 45,
            restart: frame % 500 == 0,
        };
        let events = game.step(input, 16_667);
        if events.goal.is_some() {
            goals += 1;
        }
        if events.game_end.is_some() {
            ends += 1;
            assert_eq!(game.state, GameState::End);
        }
        assert!(game.left.y.abs() <= 160 * UNIT);
        assert!(game.right.y.abs() <= 160 * UNIT);
        assert!(game.ball.x.abs() <= 315 * UNIT);
        assert!(game.ball.y.abs() <= 215 * UNIT);
        assert!(game.ball.heading > -180 && game.ball.heading <= 180);
        assert!(game.score.left_score < 5 && game.score.right_score < 5);
        assert!((300..=800).contains(&game.left.speed));
    }
    assert!(goals > 0);
    assert!(ends <= goals);
}
