use ball_game::enemy::{bounce_sound_needed, bump_sound_path, EnemyBounce};
use ball_game::player::{
    enemy_hit_player, key_from_pair_pressed, player_hit_star, player_movement_x, player_movement_y,
};
use ball_game::score::{GameOver, HighScores, Score};
use ball_game::score::update_highscores;
use ball_game::state::{
    pause_simulation, resume_simulation, toggle_simulation, transition_to_game_state,
    transition_to_main_menu_state, AppState, SimulationState,
};
use ball_game::{NUMBER_OF_ENEMIES, NUMBER_OF_STARS};

#[test]
fn score_starts_at_zero() {
    let score = Score::default();
    assert_eq!(score.value, 0);
}

#[test]
fn high_score_table_starts_empty() {
    let table = HighScores::default();
    assert!(table.scores.is_empty());
}

#[test]
fn update_highscores_appends_the_run() {
    let mut table = HighScores::default();
    update_highscores(&mut table, &GameOver { score: 9 });
    assert_eq!(table.scores.len(), 1);
    assert_eq!(table.scores[0].0, "Player 1");
    assert_eq!(table.scores[0].1, 9);
}

#[test]
fn update_highscores_keeps_earlier_runs() {
    let mut table = HighScores::default();
    update_highscores(&mut table, &GameOver { score: 3 });
    update_highscores(&mut table, &GameOver { score: 11 });
    assert_eq!(table.scores.len(), 2);
    assert_eq!(table.scores[0], ("Player 1".to_string(), 3));
    assert_eq!(table.scores[1], ("Player 1".to_string(), 11));
}

#[test]
fn app_opens_on_main_menu() {
    assert_eq!(AppState::default(), AppState::MainMenu);
}

#[test]
fn simulation_starts_paused() {
    assert_eq!(SimulationState::default(), SimulationState::Paused);
}

#[test]
fn pause_and_resume_pick_their_states() {
    assert_eq!(pause_simulation(), SimulationState::Paused);
    assert_eq!(resume_simulation(), SimulationState::Running);
}

#[test]
fn toggle_flips_the_simulation_state() {
    assert_eq!(
        toggle_simulation(true, SimulationState::Running),
        Some(SimulationState::Paused)
    );
    assert_eq!(
        toggle_simulation(true, SimulationState::Paused),
        Some(SimulationState::Running)
    );
}

#[test]
fn toggle_without_the_key_queues_nothing() {
    assert_eq!(toggle_simulation(false, SimulationState::Running), None);
    assert_eq!(toggle_simulation(false, SimulationState::Paused), None);
}

#[test]
fn game_key_switches_to_the_game_screen() {
    assert_eq!(
        transition_to_game_state(true, AppState::MainMenu),
        Some(AppState::Game)
    );
    assert_eq!(
        transition_to_game_state(true, AppState::GameOver),
        Some(AppState::Game)
    );
}

#[test]
fn game_key_is_ignored_on_the_game_screen() {
    assert_eq!(transition_to_game_state(true, AppState::Game), None);
    assert_eq!(transition_to_game_state(false, AppState::MainMenu), None);
}

#[test]
fn menu_key_switches_to_the_main_menu() {
    assert_eq!(
        transition_to_main_menu_state(true, AppState::Game),
        Some(AppState::MainMenu)
    );
    assert_eq!(transition_to_main_menu_state(true, AppState::MainMenu), None);
    assert_eq!(transition_to_main_menu_state(false, AppState::Game), None);
}

#[test]
fn either_key_of_a_pair_moves() {
    assert!(!key_from_pair_pressed([false, false]));
    assert!(key_from_pair_pressed([true, false]));
    assert!(key_from_pair_pressed([false, true]));
    assert!(key_from_pair_pressed([true, true]));
}

#[test]
fn horizontal_axis_signs() {
    assert_eq!(player_movement_x(false, false), 0);
    assert_eq!(player_movement_x(true, false), -1);
    assert_eq!(player_movement_x(false, true), 1);
}

#[test]
fn vertical_axis_signs() {
    assert_eq!(player_movement_y(false, false), 0);
    assert_eq!(player_movement_y(true, false), 1);
    assert_eq!(player_movement_y(false, true), -1);
}

#[test]
fn right_wins_when_both_horizontal_keys_are_held() {
    assert_eq!(player_movement_x(true, true), 1);
}

#[test]
fn down_wins_when_both_vertical_keys_are_held() {
    assert_eq!(player_movement_y(true, true), -1);
}

#[test]
fn each_flagged_star_scores_one_point() {
    let mut score = Score { value: 5 };
    player_hit_star(&mut score, &vec![true, false, true]);
    assert_eq!(score.value, 7);
}

#[test]
fn no_flagged_star_leaves_the_score() {
    let mut score = Score { value: 5 };
    player_hit_star(&mut score, &vec![false, false, false]);
    assert_eq!(score.value, 5);
    player_hit_star(&mut score, &vec![]);
    assert_eq!(score.value, 5);
}

#[test]
fn an_overlapping_enemy_ends_the_run() {
    let score = Score { value: 4 };
    let outcome = enemy_hit_player(&vec![false, true, false], &score);
    assert!(matches!(outcome, Some(GameOver { score: 4 })));
}

#[test]
fn no_overlapping_enemy_keeps_the_run_going() {
    let score = Score { value: 4 };
    assert!(enemy_hit_player(&vec![false, false, false], &score).is_none());
    assert!(enemy_hit_player(&vec![], &score).is_none());
}

#[test]
fn bump_sound_plays_only_on_a_bounce() {
    let still = EnemyBounce {
        hit_vertical_bound: false,
        hit_horizontal_bound: false,
    };
    let off_wall = EnemyBounce {
        hit_vertical_bound: true,
        hit_horizontal_bound: false,
    };
    let off_floor = EnemyBounce {
        hit_vertical_bound: false,
        hit_horizontal_bound: true,
    };
    assert!(!bounce_sound_needed(&vec![]));
    assert!(!bounce_sound_needed(&vec![still, still]));
    assert!(bounce_sound_needed(&vec![still, off_wall]));
    assert!(bounce_sound_needed(&vec![off_floor, still]));
}

#[test]
fn the_coin_picks_the_pluck_sound() {
    assert_eq!(bump_sound_path(true), "audio/pluck_001.ogg");
    assert_eq!(bump_sound_path(false), "audio/pluck_002.ogg");
}

#[test]
fn initial_spawn_counts() {
    assert_eq!(NUMBER_OF_ENEMIES, 6);
    assert_eq!(NUMBER_OF_STARS, 10);
}
