use nonogram::app::{App, GlobalState, Screen};
use nonogram::board::{BoardState, Mark};
use nonogram::input::{InputEvent, KeyCode, KeyEvent, KeyEventKind};
use nonogram::render::RegionSize;
use nonogram::screens::end::EndState;
use nonogram::screens::game::{GameSettings, GameState};

fn press(code: KeyCode) -> InputEvent {
    InputEvent::Key(KeyEvent { code, kind: KeyEventKind::Press })
}

fn app_on(screen: Screen) -> App {
    App { state: GlobalState { screen }, exit: false }
}

fn one_cell_game() -> GameState {
    GameState {
        settings: GameSettings { size: 1 },
        board_state: BoardState::with_solution(vec![vec![true]]).unwrap(),
    }
}

#[test]
fn app_starts_on_the_home_screen() {
    let app = App::default();
    assert!(!app.exit);
    match &app.state.screen {
        Screen::Home(home) => assert_eq!(home.selected_button(), 0),
        _ => panic!("expected the home screen"),
    }
}

#[test]
fn app_quits_on_q_from_every_screen() {
    let screens = [
        Screen::Home(Default::default()),
        Screen::Settings(Default::default()),
        Screen::Game(one_cell_game()),
        Screen::End(EndState::from(one_cell_game())),
    ];
    for screen in screens {
        let mut app = app_on(screen);
        app.handle_events(press(KeyCode::Char('q')));
        assert!(app.exit);
    }
}

#[test]
fn app_quits_on_q_whatever_happened_to_the_key() {
    for kind in [KeyEventKind::Press, KeyEventKind::Repeat, KeyEventKind::Release] {
        let mut app = App::default();
        app.handle_events(InputEvent::Key(KeyEvent { code: KeyCode::Char('q'), kind }));
        assert!(app.exit);
        assert!(matches!(app.state.screen, Screen::Home(_)));
    }
}

#[test]
fn app_quit_leaves_the_screen_as_it_is() {
    let mut app = App::default();
    app.handle_events(press(KeyCode::Down));
    app.handle_events(press(KeyCode::Char('q')));
    assert!(app.exit);
    match &app.state.screen {
        Screen::Home(home) => assert_eq!(home.selected_button(), 1),
        _ => panic!("expected the home screen"),
    }
}

#[test]
fn app_does_not_quit_on_other_keys() {
    let mut app = App::default();
    for event in [
        press(KeyCode::Char('Q')),
        press(KeyCode::Char('c')),
        press(KeyCode::Char(' ')),
        press(KeyCode::Left),
        press(KeyCode::Other),
        InputEvent::Other,
    ] {
        app.handle_events(event);
        assert!(!app.exit);
        assert!(matches!(app.state.screen, Screen::Home(_)));
    }
}

#[test]
fn app_exits_by_the_quit_entry() {
    let mut app = App::default();
    app.handle_events(press(KeyCode::Down));
    app.handle_events(press(KeyCode::Enter));
    assert!(app.exit);
    assert!(matches!(app.state.screen, Screen::Home(_)));
}

#[test]
fn app_goes_from_home_to_settings_and_back() {
    let mut app = App::default();
    app.handle_events(press(KeyCode::Enter));
    assert!(matches!(app.state.screen, Screen::Settings(_)));
    app.handle_events(press(KeyCode::Down));
    app.handle_events(press(KeyCode::Down));
    app.handle_events(press(KeyCode::Enter));
    assert!(!app.exit);
    match &app.state.screen {
        Screen::Home(home) => assert_eq!(home.selected_button(), 0),
        _ => panic!("expected the home screen"),
    }
}

#[test]
fn app_goes_from_settings_to_a_game_of_five() {
    let mut app = App::default();
    app.handle_events(press(KeyCode::Enter));
    app.handle_events(press(KeyCode::Enter));
    assert!(!app.exit);
    match &app.state.screen {
        Screen::Game(game) => {
            assert_eq!(game.settings.size, 5);
            assert_eq!(game.board_state.size(), 5);
        }
        _ => panic!("expected the game screen"),
    }
}

#[test]
fn app_plays_a_game_to_the_end() {
    let mut app = app_on(Screen::Game(one_cell_game()));
    app.handle_events(press(KeyCode::Char('c')));
    match &app.state.screen {
        Screen::Game(game) => assert_eq!(game.board_state.invalid_tile(), Some((0, 0))),
        _ => panic!("expected the game screen"),
    }
    app.handle_events(press(KeyCode::Char(' ')));
    match &app.state.screen {
        Screen::Game(game) => assert_eq!(game.board_state.assigned_values()[0][0], Mark::Filled),
        _ => panic!("expected the game screen"),
    }
    app.handle_events(press(KeyCode::Char('c')));
    assert!(!app.exit);
    match &app.state.screen {
        Screen::End(end) => {
            assert_eq!(end.get_game_stats().total_squares, 1);
            assert_eq!(end.get_game_stats().black_squares, 1);
            assert_eq!(end.end_game_state().board_state.invalid_tile(), None);
        }
        _ => panic!("expected the end screen"),
    }
    app.handle_events(press(KeyCode::Enter));
    assert!(!app.exit);
    assert!(matches!(app.state.screen, Screen::End(_)));
    app.handle_events(press(KeyCode::Char('q')));
    assert!(app.exit);
}

#[test]
fn app_draws_the_screen_that_is_up() {
    let mut app = App::default();
    let frame = app.render_frame();
    assert_eq!(frame.regions.len(), 2);
    assert_eq!(frame.regions[0].lines[0][0].text, "Play!");
    assert!(frame.regions[0].lines[0][0].emphasis);
    app.handle_events(press(KeyCode::Enter));
    let frame = app.render_frame();
    assert_eq!(frame.regions.len(), 3);
    assert_eq!(frame.regions[2].lines[0][0].text, "Back");
    app.handle_events(press(KeyCode::Enter));
    let frame = app.render_frame();
    assert_eq!(frame.regions.len(), 2);
    assert_eq!(frame.regions[0].size, RegionSize::Percentage(20));
    assert_eq!(frame.regions[1].size, RegionSize::Length(2));
    assert_eq!(frame.regions[1].lines[0][0].text, "None");
    let mut app = app_on(Screen::End(EndState::from(one_cell_game())));
    let frame = app.render_frame();
    assert_eq!(frame.regions.len(), 1);
    assert_eq!(
        frame.regions[0].lines[0][0].text,
        "EndGameStats { total_squares: 1, black_squares: 1 }"
    );
    app.handle_events(press(KeyCode::Up));
    assert_eq!(app.render_frame().regions.len(), 1);
}
