use pong_core::ball::Ball;
use pong_core::command::{Command, Key};
use pong_core::config::{Config, Side};
use pong_core::paddle::Paddle;
use pong_core::serve::ServeDraw;
use pong_core::simulation::{SimulationState, Snapshot, TickReport};

const QUIET: TickReport = TickReport { wall_bounce: false, paddle_hit: false, scored: false };

fn draw() -> ServeDraw {
    ServeDraw { speed: 3_500, leftward: false, drift: -1_000 }
}

fn start() -> SimulationState {
    SimulationState::new(Config::standard()).unwrap()
}

fn playing_with(ball: Ball) -> SimulationState {
    let snapshot = Snapshot { playing: true, ball, ..start().snapshot() };
    SimulationState::restore(snapshot).unwrap()
}

#[test]
fn starts_paused_with_everything_centered() {
    let state = start();
    assert!(!state.is_playing());
    assert_eq!(state.config(), Config::standard());
    assert_eq!(state.paddle(Side::Left), Paddle { side: Side::Left, center_y: 360_000 });
    assert_eq!(state.paddle(Side::Right), Paddle { side: Side::Right, center_y: 360_000 });
    assert_eq!(state.ball(), Ball { x: 640_000, y: 360_000, vx: 5_000, vy: 5_000 });
    let snapshot = state.snapshot();
    assert!(snapshot.is_well_formed());
    assert_eq!(snapshot.left, state.paddle(Side::Left));
    assert_eq!(snapshot.right, state.paddle(Side::Right));
    assert_eq!(snapshot.ball, state.ball());
    assert_eq!(snapshot.playing, state.is_playing());
}

#[test]
fn simulations_of_different_sizes_coexist() {
    let small = Config { screen_width: 800_000, screen_height: 600_000, ..Config::standard() };
    let a = SimulationState::new(small).unwrap();
    let b = start();
    assert_eq!(a.ball(), Ball { x: 400_000, y: 300_000, vx: 5_000, vy: 5_000 });
    assert_eq!(a.paddle(Side::Right).center_y, 300_000);
    assert_eq!(b.ball(), Ball { x: 640_000, y: 360_000, vx: 5_000, vy: 5_000 });
}

#[test]
fn invalid_config_is_refused() {
    let base = Config::standard();
    assert!(SimulationState::new(Config { screen_width: 0, ..base }).is_none());
    assert!(SimulationState::new(Config { paddle_height: 720_002, ..base }).is_none());
    assert!(SimulationState::new(Config { ball_radius: 360_001, ..base }).is_none());
    assert!(SimulationState::new(Config { ball_base_speed: -1, ..base }).is_none());
    assert!(SimulationState::new(base).is_some());
}

#[test]
fn restore_takes_a_well_formed_snapshot() {
    let snapshot = Snapshot {
        playing: true,
        left: Paddle { side: Side::Left, center_y: 50_000 },
        right: Paddle { side: Side::Right, center_y: 670_000 },
        ball: Ball { x: -10_000, y: 10_000, vx: -4_000, vy: 3_000 },
        ..start().snapshot()
    };
    assert!(snapshot.is_well_formed());
    let state = SimulationState::restore(snapshot).unwrap();
    assert_eq!(state.snapshot(), snapshot);
}

#[test]
fn restore_refuses_a_malformed_snapshot() {
    let good = start().snapshot();
    let refused = |snapshot: Snapshot| {
        !snapshot.is_well_formed() && SimulationState::restore(snapshot).is_none()
    };
    assert!(SimulationState::restore(good).is_some());
    assert!(refused(Snapshot { config: Config { screen_height: 0, ..good.config }, ..good }));
    assert!(refused(Snapshot { left: Paddle { side: Side::Right, center_y: 360_000 }, ..good }));
    assert!(refused(Snapshot { right: Paddle { side: Side::Left, center_y: 360_000 }, ..good }));
    assert!(refused(Snapshot { left: Paddle { side: Side::Left, center_y: 49_999 }, ..good }));
    assert!(refused(Snapshot { right: Paddle { side: Side::Right, center_y: 670_001 }, ..good }));
    assert!(refused(Snapshot { left: Paddle { side: Side::Left, center_y: i64::MIN }, ..good }));
    let with_ball = |ball: Ball| Snapshot { ball, ..good };
    // Left the field.
    assert!(refused(with_ball(Ball { x: -10_001, y: 360_000, vx: 0, vy: 0 })));
    assert!(refused(with_ball(Ball { x: 1_290_001, y: 360_000, vx: 0, vy: 0 })));
    // Over a wall and not on its way back inside.
    assert!(refused(with_ball(Ball { x: 640_000, y: 9_999, vx: 0, vy: 0 })));
    assert!(refused(with_ball(Ball { x: 640_000, y: 9_999, vx: 0, vy: -1 })));
    assert!(refused(with_ball(Ball { x: 640_000, y: 9_000, vx: 0, vy: 999 })));
    assert!(refused(with_ball(Ball { x: 640_000, y: 710_001, vx: 0, vy: 1 })));
    assert!(refused(with_ball(Ball { x: 640_000, y: i64::MAX, vx: 0, vy: 1 })));
    assert!(refused(with_ball(Ball { x: 640_000, y: i64::MIN, vx: 0, vy: -1 })));
    // Too fast.
    assert!(refused(with_ball(Ball { x: 640_000, y: 360_000, vx: 1_000_000_000_001, vy: 0 })));
    assert!(refused(with_ball(Ball { x: 640_000, y: 360_000, vx: 0, vy: i64::MIN })));
    // Over a wall but back inside with its next step.
    assert!(!refused(with_ball(Ball { x: 640_000, y: 9_000, vx: 0, vy: 1_000 })));
    assert!(!refused(with_ball(Ball { x: 640_000, y: 711_000, vx: 0, vy: -1_000 })));
}

#[test]
fn key_presses_stand_for_commands() {
    assert_eq!(Command::from_key(Key::W), Some(Command::MoveUp(Side::Left)));
    assert_eq!(Command::from_key(Key::S), Some(Command::MoveDown(Side::Left)));
    assert_eq!(Command::from_key(Key::Up), Some(Command::MoveUp(Side::Right)));
    assert_eq!(Command::from_key(Key::Down), Some(Command::MoveDown(Side::Right)));
    assert_eq!(Command::from_key(Key::Space), Some(Command::Serve));
    assert_eq!(Command::from_key(Key::P), Some(Command::TogglePlay));
    assert_eq!(Command::from_key(Key::Escape), Some(Command::Quit));
    assert_eq!(Command::from_key(Key::Other), None);
}

#[test]
fn toggle_switches_between_paused_and_playing() {
    let mut state = start();
    let before = state.snapshot();
    state.toggle_play();
    assert!(state.is_playing());
    assert_eq!(state.snapshot(), Snapshot { playing: true, ..before });
    state.toggle_play();
    assert!(!state.is_playing());
    assert_eq!(state.snapshot(), before);
    assert!(!state.apply(Command::TogglePlay));
    assert!(state.is_playing());
}

#[test]
fn serve_starts_play_from_the_center() {
    let mut state = start();
    let before = state.snapshot();
    state.serve_with(ServeDraw { speed: 3_200, leftward: true, drift: 2_000 });
    let served = Ball { x: 640_000, y: 360_000, vx: -3_200, vy: 2_000 };
    assert_eq!(state.snapshot(), Snapshot { playing: true, ball: served, ..before });
}

#[test]
fn serve_while_playing_serves_again_and_keeps_playing() {
    let mut state = playing_with(Ball { x: 900_000, y: 100_000, vx: 3_000, vy: 0 });
    assert!(!state.apply_with(Command::Serve, draw()));
    assert!(state.is_playing());
    assert_eq!(state.ball(), Ball { x: 640_000, y: 360_000, vx: 3_500, vy: -1_000 });
}

#[test]
fn random_serve_starts_play_with_velocity_in_range() {
    let mut state = start();
    for _ in 0..200 {
        assert!(!state.apply(Command::Serve));
        assert!(state.is_playing());
        let ball = state.ball();
        assert_eq!((ball.x, ball.y), (640_000, 360_000));
        assert!(3_000 <= ball.vx.abs() && ball.vx.abs() < 4_000);
        assert!(-3_000 <= ball.vy && ball.vy < 3_000);
        state.toggle_play();
        state.serve();
        assert!(state.is_playing());
        assert_eq!((state.ball().x, state.ball().y), (640_000, 360_000));
    }
}

#[test]
fn paddles_move_by_one_step_per_command() {
    let mut state = start();
    assert!(!state.apply(Command::MoveUp(Side::Left)));
    assert_eq!(state.paddle(Side::Left).center_y, 350_000);
    assert_eq!(state.paddle(Side::Right).center_y, 360_000);
    assert!(!state.apply(Command::MoveDown(Side::Right)));
    assert!(!state.apply(Command::MoveDown(Side::Right)));
    assert_eq!(state.paddle(Side::Left).center_y, 350_000);
    assert_eq!(state.paddle(Side::Right).center_y, 380_000);
    assert!(!state.apply_with(Command::MoveDown(Side::Left), draw()));
    assert!(!state.apply_with(Command::MoveUp(Side::Right), draw()));
    assert_eq!(state.paddle(Side::Left).center_y, 360_000);
    assert_eq!(state.paddle(Side::Right).center_y, 370_000);
    assert!(!state.is_playing());
    assert_eq!(state.ball(), start().ball());
}

#[test]
fn paddles_move_whether_playing_or_paused() {
    let mut state = start();
    state.apply(Command::MoveUp(Side::Left));
    assert_eq!(state.paddle(Side::Left).center_y, 350_000);
    state.toggle_play();
    let ball = state.ball();
    state.apply(Command::MoveUp(Side::Left));
    assert_eq!(state.paddle(Side::Left).center_y, 340_000);
    assert!(state.is_playing());
    assert_eq!(state.ball(), ball);
}

#[test]
fn paddles_stay_inside_under_any_commands() {
    let mut state = start();
    for _ in 0..40 {
        state.apply(Command::MoveUp(Side::Left));
        state.apply(Command::MoveDown(Side::Right));
        let snapshot = state.snapshot();
        assert!(snapshot.left.center_y >= 50_000 && snapshot.left.center_y <= 670_000);
        assert!(snapshot.right.center_y >= 50_000 && snapshot.right.center_y <= 670_000);
    }
    assert_eq!(state.paddle(Side::Left).center_y, 50_000);
    assert_eq!(state.paddle(Side::Right).center_y, 670_000);
    state.move_paddle(Side::Left, i64::MAX);
    state.move_paddle(Side::Right, i64::MIN);
    assert_eq!(state.paddle(Side::Left).center_y, 670_000);
    assert_eq!(state.paddle(Side::Right).center_y, 50_000);
    state.move_paddle(Side::Left, -123);
    assert_eq!(state.paddle(Side::Left).center_y, 669_877);
}

#[test]
fn quit_is_passed_on_and_changes_nothing() {
    let mut state = playing_with(Ball { x: 900_000, y: 100_000, vx: 3_000, vy: 0 });
    let before = state.snapshot();
    assert!(state.apply(Command::Quit));
    assert_eq!(state.snapshot(), before);
    assert!(state.apply_with(Command::Quit, draw()));
    assert_eq!(state.snapshot(), before);
}

#[test]
fn paused_tick_changes_nothing() {
    let mut state = start();
    let before = state.snapshot();
    assert_eq!(state.tick(), QUIET);
    assert_eq!(state.snapshot(), before);
    assert_eq!(state.tick_with(draw()), QUIET);
    assert_eq!(state.snapshot(), before);
}

#[test]
fn tick_moves_the_ball_by_its_velocity() {
    let mut state = start();
    state.toggle_play();
    assert_eq!(state.tick(), QUIET);
    assert_eq!(state.ball(), Ball { x: 645_000, y: 365_000, vx: 5_000, vy: 5_000 });
    assert_eq!(state.tick_with(draw()), QUIET);
    assert_eq!(state.ball(), Ball { x: 650_000, y: 370_000, vx: 5_000, vy: 5_000 });
    assert!(state.is_playing());
}

#[test]
fn tick_bounces_the_ball_off_the_walls() {
    let mut state = playing_with(Ball { x: 640_000, y: 11_000, vx: 3_000, vy: -2_000 });
    let report = state.tick();
    assert_eq!(report, TickReport { wall_bounce: true, paddle_hit: false, scored: false });
    assert_eq!(state.ball(), Ball { x: 643_000, y: 9_000, vx: 3_000, vy: 2_000 });
    assert_eq!(state.tick(), QUIET);
    assert_eq!(state.ball(), Ball { x: 646_000, y: 11_000, vx: 3_000, vy: 2_000 });

    let mut state = playing_with(Ball { x: 640_000, y: 709_000, vx: -3_000, vy: 2_000 });
    let report = state.tick();
    assert_eq!(report, TickReport { wall_bounce: true, paddle_hit: false, scored: false });
    assert_eq!(state.ball(), Ball { x: 637_000, y: 711_000, vx: -3_000, vy: -2_000 });
    assert_eq!(state.tick(), QUIET);
    assert_eq!(state.ball(), Ball { x: 634_000, y: 709_000, vx: -3_000, vy: -2_000 });
}

#[test]
fn tick_turns_the_ball_back_at_a_paddle() {
    // The right paddle reaches from 1_222_500 to 1_237_500.
    let mut state = playing_with(Ball { x: 1_205_000, y: 360_000, vx: 4_000, vy: 0 });
    assert_eq!(state.tick(), QUIET);
    let report = state.tick();
    assert_eq!(report, TickReport { wall_bounce: false, paddle_hit: true, scored: false });
    assert_eq!(state.ball(), Ball { x: 1_213_000, y: 360_000, vx: -4_000, vy: 0 });
    assert_eq!(state.tick(), QUIET);
    assert_eq!(state.ball().x, 1_209_000);
}

#[test]
fn ball_passes_a_paddle_that_is_elsewhere() {
    let mut state = playing_with(Ball { x: 70_000, y: 100_000, vx: -4_000, vy: 0 });
    for _ in 0..10 {
        assert_eq!(state.tick(), QUIET);
    }
    assert_eq!(state.ball(), Ball { x: 30_000, y: 100_000, vx: -4_000, vy: 0 });
}

#[test]
fn ball_inside_a_paddle_turns_on_every_tick() {
    let mut state = playing_with(Ball { x: 60_000, y: 360_000, vx: -4_000, vy: 0 });
    assert!(state.tick().paddle_hit);
    assert_eq!(state.ball(), Ball { x: 56_000, y: 360_000, vx: 4_000, vy: 0 });
    assert!(state.tick().paddle_hit);
    assert_eq!(state.ball(), Ball { x: 60_000, y: 360_000, vx: -4_000, vy: 0 });
}

#[test]
fn meeting_both_paddles_turns_the_ball_once() {
    // A field so narrow that the paddles overlap: the ball meets both.
    let config = Config { screen_width: 100_000, ..Config::standard() };
    let snapshot = Snapshot {
        playing: true,
        ball: Ball { x: 50_000, y: 360_000, vx: 1_000, vy: 0 },
        ..SimulationState::new(config).unwrap().snapshot()
    };
    let ball = Ball { x: 51_000, y: 360_000, vx: 1_000, vy: 0 };
    assert!(ball.collides_with(&snapshot.left, &config));
    assert!(ball.collides_with(&snapshot.right, &config));
    let mut state = SimulationState::restore(snapshot).unwrap();
    let report = state.tick();
    assert!(report.paddle_hit);
    assert_eq!(state.ball(), Ball { x: 51_000, y: 360_000, vx: -1_000, vy: 0 });
}

#[test]
fn ball_leaving_on_the_left_is_served_again_and_play_pauses() {
    let mut state = playing_with(Ball { x: -8_000, y: 200_000, vx: -4_000, vy: 1_000 });
    let before = state.snapshot();
    let report = state.tick_with(ServeDraw { speed: 3_700, leftward: true, drift: 5 });
    assert_eq!(report, TickReport { wall_bounce: false, paddle_hit: false, scored: true });
    let served = Ball { x: 640_000, y: 360_000, vx: -3_700, vy: 5 };
    assert_eq!(state.snapshot(), Snapshot { playing: false, ball: served, ..before });
}

#[test]
fn ball_leaving_on_the_right_is_served_again_and_play_pauses() {
    let mut state = playing_with(Ball { x: 1_288_000, y: 200_000, vx: 4_000, vy: 1_000 });
    let report = state.tick();
    assert_eq!(report, TickReport { wall_bounce: false, paddle_hit: false, scored: true });
    assert!(!state.is_playing());
    let ball = state.ball();
    assert_eq!((ball.x, ball.y), (640_000, 360_000));
    assert!(3_000 <= ball.vx.abs() && ball.vx.abs() < 4_000);
    assert!(-3_000 <= ball.vy && ball.vy < 3_000);
}

#[test]
fn ball_at_the_edge_is_still_in_play() {
    let mut state = playing_with(Ball { x: -6_000, y: 200_000, vx: -4_000, vy: 0 });
    assert_eq!(state.tick(), QUIET);
    assert_eq!(state.ball().x, -10_000);
    assert!(state.is_playing());
    assert!(state.tick().scored);
    assert!(!state.is_playing());
}

#[test]
fn scoring_ball_can_bounce_in_the_same_tick() {
    let mut state = playing_with(Ball { x: -9_000, y: 11_000, vx: -4_000, vy: -2_000 });
    let report = state.tick_with(draw());
    assert_eq!(report, TickReport { wall_bounce: true, paddle_hit: false, scored: true });
    assert_eq!(state.ball(), Ball { x: 640_000, y: 360_000, vx: 3_500, vy: -1_000 });
}

#[test]
fn end_to_end_scenario() {
    let mut state = start();
    assert!(!state.is_playing());

    // Serve: the game plays, the ball is at the centre with a fresh velocity.
    assert!(!state.apply(Command::Serve));
    assert!(state.is_playing());
    let ball = state.ball();
    assert_eq!((ball.x, ball.y), (640_000, 360_000));
    assert!(3_000 <= ball.vx.abs() && ball.vx.abs() < 4_000);
    assert!(-3_000 <= ball.vy && ball.vy < 3_000);

    // The ball next to the left paddle, at its height, moving left.
    let left = state.paddle(Side::Left);
    let near = Ball { x: 70_000, y: left.center_y, vx: -4_000, vy: 0 };
    let mut state =
        SimulationState::restore(Snapshot { ball: near, ..state.snapshot() }).unwrap();
    let report = state.tick();
    assert!(report.paddle_hit);
    assert!(!report.scored);
    assert_eq!(state.ball(), Ball { x: 66_000, y: 360_000, vx: 4_000, vy: 0 });
    state.tick();
    assert_eq!(state.ball(), Ball { x: 70_000, y: 360_000, vx: 4_000, vy: 0 });
    assert!(state.is_playing());

    // The ball behind the paddle, moving left until it has left the field.
    let behind = Ball { x: 30_000, y: left.center_y, vx: -4_000, vy: 0 };
    let mut state =
        SimulationState::restore(Snapshot { ball: behind, ..state.snapshot() }).unwrap();
    let mut ticks = 0;
    loop {
        let x_before = state.ball().x;
        let report = state.tick();
        ticks += 1;
        if report.scored {
            assert!(x_before - 4_000 < -10_000 - 1);
            break;
        }
        assert!(state.is_playing());
        assert_eq!(state.ball().x, x_before - 4_000);
        assert!(ticks < 100);
    }
    assert_eq!(ticks, 11);
    assert!(!state.is_playing());
    let ball = state.ball();
    assert_eq!((ball.x, ball.y), (640_000, 360_000));
    assert!(3_000 <= ball.vx.abs() && ball.vx.abs() < 4_000);

    // Paused again: ticks do nothing until the next serve.
    let paused = state.snapshot();
    assert_eq!(state.tick(), QUIET);
    assert_eq!(state.snapshot(), paused);
}

#[test]
fn long_game_keeps_the_state_well_formed() {
    let mut state = start();
    let mut served = 0;
    for round in 0..20_000 {
        if !state.is_playing() {
            state.apply(Command::Serve);
            served += 1;
        }
        if round % 3 == 0 {
            state.apply(Command::MoveUp(Side::Left));
        }
        if round % 5 == 0 {
            state.apply(Command::MoveDown(Side::Right));
        }
        let report = state.tick();
        let snapshot = state.snapshot();
        assert!(snapshot.is_well_formed());
        assert_eq!(snapshot.playing, !report.scored);
        assert!(snapshot.ball.y >= 10_000 - 3_000 && snapshot.ball.y <= 710_000 + 3_000);
    }
    assert!(served >= 1);
}
