use yulaven::state::{pause_menu_choice, GameEvent, GameState};

#[test]
fn default_screen_is_title() {
    assert_eq!(GameState::default(), GameState::MainMenu);
}

#[test]
fn full_round_of_play() {
    let mut s = GameState::default();
    for (event, expected) in [
        (GameEvent::MenuExitFinished, GameState::CharacterSelect),
        (GameEvent::HeroChosen, GameState::Playing),
        (GameEvent::LevelUp, GameState::LevelUp),
        (GameEvent::UpgradeChosen, GameState::Playing),
        (GameEvent::PausePressed, GameState::Paused),
        (GameEvent::ContinuePressed, GameState::Playing),
        (GameEvent::PlayerDied, GameState::GameOver),
        (GameEvent::RestartPressed, GameState::Playing),
        (GameEvent::PausePressed, GameState::Paused),
        (GameEvent::ExitPressed, GameState::MainMenu),
    ] {
        s = s.transition(event).expect("event handled");
        assert_eq!(s, expected);
    }
}

#[test]
fn ignored_events() {
    assert_eq!(GameState::MainMenu.transition(GameEvent::PlayerDied), None);
    assert_eq!(GameState::Paused.transition(GameEvent::LevelUp), None);
    assert_eq!(GameState::GameOver.transition(GameEvent::PausePressed), None);
    assert_eq!(GameState::CharacterDetail.transition(GameEvent::HeroChosen), None);
}

#[test]
fn pause_menu_continue_wins() {
    assert_eq!(pause_menu_choice(true, true), Some(GameEvent::ContinuePressed));
    assert_eq!(pause_menu_choice(false, true), Some(GameEvent::ExitPressed));
    assert_eq!(pause_menu_choice(false, false), None);
}
