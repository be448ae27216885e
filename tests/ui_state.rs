use blastar::game_state::{
    init_game_state, translate_input, DPadDirection, EventOutbox, GameInput, Key, LinuxWindowServer,
    RawEvent, ScreenName, StartMenuOptions, StartMenuState, Ui, UiError, Unimplemented,
};

fn direction(d: DPadDirection) -> GameInput {
    GameInput { d_pad_input: d, confirm_gesture: false }
}

fn confirm() -> GameInput {
    GameInput { d_pad_input: DPadDirection::Neutral, confirm_gesture: true }
}

fn key(k: Key) -> RawEvent {
    RawEvent::KeyDown(k)
}

#[test]
fn fresh_session_state() {
    let s = init_game_state();
    assert_eq!(s.global_config.width, 800);
    assert_eq!(s.global_config.height, 600);
    assert_eq!(s.global_config.linux_window_server, LinuxWindowServer::Wayland);
    assert_eq!(s.global_config.desired_frame_time_ns, 8_333_000);
    assert!(s.should_continue);
    assert!(!s.debug_mode);
    assert_eq!(
        s.current_ui,
        Ui::Start(StartMenuState { selected_option: StartMenuOptions::StartNewGame })
    );
    assert_eq!(s.event_sender.len(), 0);
}

#[test]
fn direction_toggles_twice_back() {
    for first in [DPadDirection::Up, DPadDirection::Down] {
        for second in [DPadDirection::Up, DPadDirection::Down] {
            let mut menu = StartMenuState { selected_option: StartMenuOptions::StartNewGame };
            let mut out = EventOutbox::new();
            assert_eq!(menu.update_state(&direction(first), &mut out, 1), Ok(()));
            assert_eq!(menu.selected_option, StartMenuOptions::ExitGame);
            assert_eq!(menu.update_state(&direction(second), &mut out, 2), Ok(()));
            assert_eq!(menu.selected_option, StartMenuOptions::StartNewGame);
            assert_eq!(out.len(), 0);
        }
    }
}

#[test]
fn up_and_down_toggle_alike() {
    let mut a = StartMenuState { selected_option: StartMenuOptions::ExitGame };
    let mut b = StartMenuState { selected_option: StartMenuOptions::ExitGame };
    let mut out = EventOutbox::new();
    a.update_state(&direction(DPadDirection::Up), &mut out, 0).unwrap();
    b.update_state(&direction(DPadDirection::Down), &mut out, 0).unwrap();
    assert_eq!(a, b);
    assert_eq!(a.selected_option, StartMenuOptions::StartNewGame);
}

#[test]
fn direction_wins_over_confirm() {
    let mut menu = StartMenuState { selected_option: StartMenuOptions::ExitGame };
    let mut out = EventOutbox::new();
    let input = GameInput { d_pad_input: DPadDirection::Down, confirm_gesture: true };
    assert_eq!(menu.update_state(&input, &mut out, 3), Ok(()));
    assert_eq!(menu.selected_option, StartMenuOptions::StartNewGame);
    assert_eq!(out.len(), 0);
}

#[test]
fn sideways_direction_changes_nothing() {
    let mut menu = StartMenuState { selected_option: StartMenuOptions::StartNewGame };
    let mut out = EventOutbox::new();
    assert_eq!(menu.update_state(&direction(DPadDirection::Left), &mut out, 3), Ok(()));
    assert_eq!(menu.update_state(&direction(DPadDirection::Right), &mut out, 3), Ok(()));
    assert_eq!(menu.selected_option, StartMenuOptions::StartNewGame);
    assert_eq!(out.len(), 0);
}

#[test]
fn confirm_on_exit_queues_one_quit() {
    let mut menu = StartMenuState { selected_option: StartMenuOptions::ExitGame };
    let mut out = EventOutbox::new();
    assert_eq!(menu.update_state(&confirm(), &mut out, 42), Ok(()));
    assert_eq!(menu.selected_option, StartMenuOptions::ExitGame);
    assert_eq!(out.drain(), vec![RawEvent::Quit { timestamp: 42 }]);
    assert_eq!(out.len(), 0);
}

#[test]
fn confirm_on_start_new_game_is_not_implemented() {
    let mut menu = StartMenuState { selected_option: StartMenuOptions::StartNewGame };
    let mut out = EventOutbox::new();
    assert_eq!(
        menu.update_state(&confirm(), &mut out, 42),
        Err(UiError::NotImplemented(Unimplemented::StartNewGame))
    );
    assert_eq!(menu.selected_option, StartMenuOptions::StartNewGame);
    assert_eq!(out.len(), 0);
}

#[test]
fn other_screens_fail_to_update() {
    let mut out = EventOutbox::new();
    let mut game = Ui::Game;
    assert_eq!(
        game.update_ui_state(&confirm(), &mut out, 0),
        Err(UiError::NotImplemented(Unimplemented::Screen(ScreenName::Game)))
    );
    let mut settings = Ui::Settings;
    assert_eq!(
        settings.update_ui_state(&direction(DPadDirection::Up), &mut out, 0),
        Err(UiError::NotImplemented(Unimplemented::Screen(ScreenName::Settings)))
    );
    assert_eq!(game, Ui::Game);
    assert_eq!(out.len(), 0);
}

#[test]
fn start_screen_update_goes_to_menu() {
    let mut out = EventOutbox::new();
    let mut ui = Ui::Start(StartMenuState { selected_option: StartMenuOptions::StartNewGame });
    assert_eq!(ui.update_ui_state(&direction(DPadDirection::Down), &mut out, 0), Ok(()));
    assert_eq!(ui, Ui::Start(StartMenuState { selected_option: StartMenuOptions::ExitGame }));
}

#[test]
fn screen_names_and_descriptions() {
    let start = Ui::Start(StartMenuState { selected_option: StartMenuOptions::ExitGame });
    assert_eq!(start.describe(), "Ui: Start");
    assert_eq!(Ui::Game.describe(), "Ui: Game");
    assert_eq!(Ui::Settings.describe(), "Ui: Settings");
    assert_eq!(start.screen_name(), ScreenName::Start);
    assert_eq!(Ui::Settings.screen_name(), ScreenName::Settings);
}

#[test]
fn empty_input_has_nothing() {
    let e = GameInput::empty();
    assert_eq!(e.d_pad_input, DPadDirection::Neutral);
    assert!(!e.confirm_gesture);
    assert!(!e.has_input());
    assert!(confirm().has_input());
    assert!(direction(DPadDirection::Left).has_input());
}

#[test]
fn translation_last_direction_wins() {
    let t = translate_input(&vec![key(Key::Up), key(Key::Down), key(Key::Other)], false);
    assert_eq!(t.input.d_pad_input, DPadDirection::Down);
    assert!(!t.input.confirm_gesture);
    assert!(!t.quit);
    let t = translate_input(&vec![key(Key::Down), key(Key::Return), key(Key::Up)], true);
    assert_eq!(t.input.d_pad_input, DPadDirection::Up);
    assert!(t.input.confirm_gesture);
    assert!(t.debug_mode);
}

#[test]
fn translation_ignores_other_events() {
    let t = translate_input(&vec![RawEvent::Ignored, key(Key::Other)], false);
    assert_eq!(t.input, GameInput::empty());
    assert!(!t.debug_mode);
    assert!(!t.quit);
    let t = translate_input(&vec![], true);
    assert_eq!(t.input, GameInput::empty());
    assert!(t.debug_mode);
}

#[test]
fn quit_halts_the_batch() {
    let mut s = init_game_state();
    let batch = vec![RawEvent::Quit { timestamp: 5 }, key(Key::Down), key(Key::F3)];
    assert_eq!(s.update_game_state(&batch, 9), Ok(()));
    assert!(!s.should_continue);
    assert!(!s.debug_mode);
    assert_eq!(
        s.current_ui,
        Ui::Start(StartMenuState { selected_option: StartMenuOptions::StartNewGame })
    );
}

#[test]
fn escape_is_quit_class() {
    let mut s = init_game_state();
    let batch = vec![key(Key::F3), key(Key::Escape), key(Key::F3), key(Key::Return)];
    assert_eq!(s.update_game_state(&batch, 9), Ok(()));
    assert!(!s.should_continue);
    assert!(s.debug_mode);
    assert_eq!(s.event_sender.len(), 0);
}

#[test]
fn quit_skips_the_screen_update() {
    let mut s = init_game_state();
    let batch = vec![key(Key::Down), RawEvent::Quit { timestamp: 1 }];
    assert_eq!(s.update_game_state(&batch, 9), Ok(()));
    assert!(!s.should_continue);
    assert_eq!(
        s.current_ui,
        Ui::Start(StartMenuState { selected_option: StartMenuOptions::StartNewGame })
    );
}

#[test]
fn double_f3_restores_debug_mode() {
    let mut s = init_game_state();
    s.update_game_state(&vec![key(Key::F3), key(Key::F3)], 0).unwrap();
    assert!(!s.debug_mode);
    s.update_game_state(&vec![key(Key::F3)], 0).unwrap();
    assert!(s.debug_mode);
    s.update_game_state(&vec![key(Key::F3), key(Key::F3)], 0).unwrap();
    assert!(s.debug_mode);
    s.update_game_state(&vec![key(Key::F3)], 0).unwrap();
    assert!(!s.debug_mode);
}

#[test]
fn confirm_alone_updates_the_screen() {
    let mut s = init_game_state();
    assert_eq!(
        s.update_game_state(&vec![key(Key::Return)], 0),
        Err(UiError::NotImplemented(Unimplemented::StartNewGame))
    );
    assert!(s.should_continue);
}

#[test]
fn idle_frame_changes_nothing() {
    let mut s = init_game_state();
    assert_eq!(s.update_game_state(&vec![RawEvent::Ignored], 0), Ok(()));
    assert!(s.should_continue);
    assert_eq!(
        s.current_ui,
        Ui::Start(StartMenuState { selected_option: StartMenuOptions::StartNewGame })
    );
}

#[test]
fn outbox_keeps_push_order() {
    let mut out = EventOutbox::new();
    out.push_event(RawEvent::Quit { timestamp: 1 });
    out.push_event(key(Key::Up));
    assert_eq!(out.len(), 2);
    assert_eq!(out.drain(), vec![RawEvent::Quit { timestamp: 1 }, key(Key::Up)]);
    assert_eq!(out.len(), 0);
}
