use vstd::prelude::*;

verus! {

/// The screens of the game.
#[derive(Clone, Copy, Debug, PartialEq, Eq, Hash, Structural)]
pub enum GameState {
    /// Initial screen: Yulaven title and Play button.
    MainMenu,
    /// Second screen: the player picks their hero.
    CharacterSelect,
    /// Detailed view of a character before selection.
    CharacterDetail,
    Playing,
    LevelUp,
    Paused,
    GameOver,
}

impl Default for GameState {
    fn default() -> (s: Self)
        ensures
            s == GameState::MainMenu,
    {
        GameState::MainMenu
    }
}

/// What the screens react to.
#[derive(Clone, Copy, Debug, PartialEq, Eq, Structural)]
pub enum GameEvent {
    /// The title screen's exit flourish has played out after Play was pressed.
    MenuExitFinished,
    /// A hero card was pressed on the selection screen.
    HeroChosen,
    /// The player collected enough experience for a new level.
    LevelUp,
    /// The player's health fell to zero.
    PlayerDied,
    /// The pause button was pressed.
    PausePressed,
    /// Continue was pressed on the pause menu.
    ContinuePressed,
    /// Exit was pressed on the pause menu.
    ExitPressed,
    /// An upgrade card was pressed on the level-up screen.
    UpgradeChosen,
    /// Restart was pressed on the game-over screen.
    RestartPressed,
}

/// The screen that `event` leads to from `state`, or `None` when that
/// screen does not listen to the event.
pub open spec fn spec_transition(state: GameState, event: GameEvent) -> Option<GameState> {
    match (state, event) {
        (GameState::MainMenu, GameEvent::MenuExitFinished) => Some(GameState::CharacterSelect),
        (GameState::CharacterSelect, GameEvent::HeroChosen) => Some(GameState::Playing),
        (GameState::Playing, GameEvent::LevelUp) => Some(GameState::LevelUp),
        (GameState::Playing, GameEvent::PlayerDied) => Some(GameState::GameOver),
        (GameState::Playing, GameEvent::PausePressed) => Some(GameState::Paused),
        (GameState::LevelUp, GameEvent::UpgradeChosen) => Some(GameState::Playing),
        (GameState::Paused, GameEvent::ContinuePressed) => Some(GameState::Playing),
        (GameState::Paused, GameEvent::ExitPressed) => Some(GameState::MainMenu),
        (GameState::GameOver, GameEvent::RestartPressed) => Some(GameState::Playing),
        _ => None,
    }
}

impl GameState {
    /// The screen that `event` leads to from this one, or `None` when
    /// this screen does not listen to the event.
    pub fn transition(self, event: GameEvent) -> (next: Option<GameState>)
        ensures
            next == spec_transition(self, event),
    {
        match (self, event) {
            (GameState::MainMenu, GameEvent::MenuExitFinished) => Some(GameState::CharacterSelect),
            (GameState::CharacterSelect, GameEvent::HeroChosen) => Some(GameState::Playing),
            (GameState::Playing, GameEvent::LevelUp) => Some(GameState::LevelUp),
            (GameState::Playing, GameEvent::PlayerDied) => Some(GameState::GameOver),
            (GameState::Playing, GameEvent::PausePressed) => Some(GameState::Paused),
            (GameState::LevelUp, GameEvent::UpgradeChosen) => Some(GameState::Playing),
            (GameState::Paused, GameEvent::ContinuePressed) => Some(GameState::Playing),
            (GameState::Paused, GameEvent::ExitPressed) => Some(GameState::MainMenu),
            (GameState::GameOver, GameEvent::RestartPressed) => Some(GameState::Playing),
            _ => None,
        }
    }
}

/// The pause menu's reaction to one frame of presses: Continue wins
/// over Exit when both were pressed.
pub open spec fn spec_pause_menu_choice(continue_pressed: bool, exit_pressed: bool) -> Option<GameEvent> {
    if continue_pressed {
        Some(GameEvent::ContinuePressed)
    } else if exit_pressed {
        Some(GameEvent::ExitPressed)
    } else {
        None
    }
}

/// The pause menu's reaction to one frame of presses.
pub fn pause_menu_choice(continue_pressed: bool, exit_pressed: bool) -> (event: Option<GameEvent>)
    ensures
        event == spec_pause_menu_choice(continue_pressed, exit_pressed),
        continue_pressed ==> event == Some(GameEvent::ContinuePressed),
        !continue_pressed && exit_pressed ==> event == Some(GameEvent::ExitPressed),
        !continue_pressed && !exit_pressed ==> (event is None),
{
    if continue_pressed {
        Some(GameEvent::ContinuePressed)
    } else if exit_pressed {
        Some(GameEvent::ExitPressed)
    } else {
        None
    }
}

/// The game-over screen is reached only from play, and only by the
/// player's death.
pub proof fn lemma_game_over_only_by_death(state: GameState, event: GameEvent)
    ensures
        spec_transition(state, event) == Some(GameState::GameOver) <==> (state
            == GameState::Playing && event == GameEvent::PlayerDied),
{
}

/// Every screen that leads back into play leads there by a player's
/// choice: a hero, an upgrade, Continue or Restart.
pub proof fn lemma_play_resumes_by_choice(state: GameState, event: GameEvent)
    ensures
        spec_transition(state, event) == Some(GameState::Playing) <==> (
        (state == GameState::CharacterSelect && event == GameEvent::HeroChosen)
        || (state == GameState::LevelUp && event == GameEvent::UpgradeChosen)
        || (state == GameState::Paused && event == GameEvent::ContinuePressed)
        || (state == GameState::GameOver && event == GameEvent::RestartPressed)),
{
}

/// The pause screen is left only for play or the title screen.
pub proof fn lemma_pause_exits(event: GameEvent)
    ensures
        match spec_transition(GameState::Paused, event) {
            Some(next) => next == GameState::Playing || next == GameState::MainMenu,
            None => true,
        },
{
}

/// Every screen but the detail view answers some event, so no screen
/// but that one is a dead end.
pub proof fn lemma_no_dead_end(state: GameState)
    requires
        state != GameState::CharacterDetail,
    ensures
        exists|event: GameEvent| #[trigger] spec_transition(state, event) is Some,
{
    match state {
        GameState::MainMenu => assert(spec_transition(state, GameEvent::MenuExitFinished) is Some),
        GameState::CharacterSelect => assert(spec_transition(state, GameEvent::HeroChosen) is Some),
        GameState::Playing => assert(spec_transition(state, GameEvent::PlayerDied) is Some),
        GameState::LevelUp => assert(spec_transition(state, GameEvent::UpgradeChosen) is Some),
        GameState::Paused => assert(spec_transition(state, GameEvent::ContinuePressed) is Some),
        GameState::GameOver => assert(spec_transition(state, GameEvent::RestartPressed) is Some),
        GameState::CharacterDetail => {},
    }
}

/// A Continue press always resumes play, whatever else was pressed;
/// Exit alone returns to the title; with no press the menu stays.
pub proof fn lemma_pause_menu_presses(continue_pressed: bool, exit_pressed: bool)
    ensures
        continue_pressed ==> spec_pause_menu_choice(continue_pressed, exit_pressed) == Some(
            GameEvent::ContinuePressed,
        ),
        continue_pressed ==> spec_transition(
            GameState::Paused,
            spec_pause_menu_choice(continue_pressed, exit_pressed).unwrap(),
        ) == Some(GameState::Playing),
        !continue_pressed && exit_pressed ==> spec_transition(
            GameState::Paused,
            spec_pause_menu_choice(continue_pressed, exit_pressed).unwrap(),
        ) == Some(GameState::MainMenu),
        !continue_pressed && !exit_pressed ==> (spec_pause_menu_choice(
            continue_pressed,
            exit_pressed,
        ) is None),
{
}

/// The main path of the game: the title leads to hero selection, a hero
/// to play, a level-up to its screen and back, a death to game over and
/// a restart back to play.
pub proof fn lemma_main_path()
    ensures
        spec_transition(GameState::MainMenu, GameEvent::MenuExitFinished) == Some(
            GameState::CharacterSelect,
        ),
        spec_transition(GameState::CharacterSelect, GameEvent::HeroChosen) == Some(GameState::Playing),
        spec_transition(GameState::Playing, GameEvent::LevelUp) == Some(GameState::LevelUp),
        spec_transition(GameState::LevelUp, GameEvent::UpgradeChosen) == Some(GameState::Playing),
        spec_transition(GameState::Playing, GameEvent::PausePressed) == Some(GameState::Paused),
        spec_transition(GameState::Playing, GameEvent::PlayerDied) == Some(GameState::GameOver),
        spec_transition(GameState::GameOver, GameEvent::RestartPressed) == Some(GameState::Playing),
{
}

/// Events a screen does not listen to change nothing: each event is
/// answered by one screen only (pause-menu Continue and Exit by the
/// pause screen, and so on), so from any other screen it gives `None`.
pub proof fn lemma_events_answered_once(state: GameState, event: GameEvent)
    ensures
        spec_transition(state, event) is Some ==> match event {
            GameEvent::MenuExitFinished => state == GameState::MainMenu,
            GameEvent::HeroChosen => state == GameState::CharacterSelect,
            GameEvent::LevelUp | GameEvent::PlayerDied | GameEvent::PausePressed => state
                == GameState::Playing,
            GameEvent::UpgradeChosen => state == GameState::LevelUp,
            GameEvent::ContinuePressed | GameEvent::ExitPressed => state == GameState::Paused,
            GameEvent::RestartPressed => state == GameState::GameOver,
        },
{
}

} // verus!
