use blastar::draw_system::{
    DebugUiTextures, DrawCommand, DrawSystem, Layer, Rect, RenderError, Scene, SolidRect,
    StartUiTextures, TextureHandle, UiTexture, Color,
};
use blastar::game_func::{game_func, pacing_delay, run_frame, FrameFeed, GameError};
use blastar::game_state::{
    init_game_state, Key, RawEvent, ScreenName, StartMenuOptions, StartMenuState, Ui, UiError,
    Unimplemented,
};

fn draw_system() -> DrawSystem {
    let t = |id| TextureHandle { id, width: 200, height: 20 };
    DrawSystem::init(UiTexture {
        debug: DebugUiTextures { debug_info_labels: t(0) },
        start: StartUiTextures { start_new_game_label: t(1), exit_game_label: t(2) },
    })
}

fn scene() -> Scene {
    Scene {
        layers: vec![Layer {
            solid_rects: vec![SolidRect {
                rect: Rect { x: 5, y: 5, w: 20, h: 20 },
                fill_color: Color { r: 255, g: 0, b: 0, a: 255 },
            }],
            texture_units: vec![],
        }],
    }
}

fn frame(events: Vec<RawEvent>, ns_since_init: u64) -> FrameFeed {
    FrameFeed { events, ns_since_init }
}

#[test]
fn pacing_sleeps_the_rest_of_the_target() {
    assert_eq!(pacing_delay(3_000_000, 8_330_000), 5_330_000);
    assert_eq!(pacing_delay(3_000_000, 8_333_000), 5_333_000);
    assert_eq!(pacing_delay(0, 8_333_000), 8_333_000);
}

#[test]
fn pacing_never_catches_up() {
    assert_eq!(pacing_delay(8_333_000, 8_333_000), 0);
    assert_eq!(pacing_delay(12_000_000, 8_333_000), 0);
    assert_eq!(pacing_delay(u64::MAX, 8_333_000), 0);
    // the frame after an overrun gets its ordinary remainder
    assert_eq!(pacing_delay(3_000_000, 8_333_000), 5_333_000);
}

#[test]
fn end_to_end_down_then_return_quits() {
    let ds = draw_system();
    let sc = scene();
    let mut state = init_game_state();

    let f1 = run_frame(&mut state, &ds, &sc, &vec![RawEvent::KeyDown(Key::Down)], 10).unwrap();
    assert!(f1.is_some());
    assert_eq!(state.current_ui, Ui::Start(StartMenuState { selected_option: StartMenuOptions::ExitGame }));
    assert!(state.should_continue);

    let f2 = run_frame(&mut state, &ds, &sc, &vec![RawEvent::KeyDown(Key::Return)], 20).unwrap();
    assert!(f2.is_some());
    assert!(state.should_continue);
    let emitted = state.event_sender.drain();
    assert_eq!(emitted, vec![RawEvent::Quit { timestamp: 20 }]);

    let f3 = run_frame(&mut state, &ds, &sc, &emitted, 30).unwrap();
    assert!(f3.is_none());
    assert!(!state.should_continue);
}

#[test]
fn replayed_session_quits_through_the_queue() {
    let feed = vec![
        frame(vec![RawEvent::KeyDown(Key::Down)], 10),
        frame(vec![RawEvent::KeyDown(Key::Return)], 20),
        frame(vec![], 30),
        frame(vec![RawEvent::KeyDown(Key::F3)], 40),
    ];
    let session = game_func(&draw_system(), &scene(), &feed).unwrap();
    assert!(!session.state.should_continue);
    assert!(!session.state.debug_mode);
    assert_eq!(
        session.state.current_ui,
        Ui::Start(StartMenuState { selected_option: StartMenuOptions::ExitGame })
    );
    assert_eq!(session.state.event_sender.len(), 0);
    assert_eq!(session.frames.len(), 2);
    assert_eq!(session.frames[0].last(), Some(&DrawCommand::Present));
    assert_eq!(session.frames[0][1], DrawCommand::FillRect {
        rect: Rect { x: 5, y: 5, w: 20, h: 20 },
        color: Color { r: 255, g: 0, b: 0, a: 255 },
    });
}

#[test]
fn replay_stops_when_feed_runs_out() {
    let feed = vec![frame(vec![RawEvent::KeyDown(Key::F3)], 1), frame(vec![], 2)];
    let session = game_func(&draw_system(), &scene(), &feed).unwrap();
    assert!(session.state.should_continue);
    assert!(session.state.debug_mode);
    assert_eq!(session.frames.len(), 2);
    assert_eq!(session.frames[0].len(), 7);
    assert_eq!(session.frames[1].len(), 7);
    let empty = game_func(&draw_system(), &scene(), &vec![]).unwrap();
    assert!(empty.frames.is_empty());
    assert!(empty.state.should_continue);
}

#[test]
fn replay_ends_on_screen_error() {
    let feed = vec![frame(vec![RawEvent::KeyDown(Key::Return)], 1), frame(vec![], 2)];
    assert_eq!(
        game_func(&draw_system(), &scene(), &feed).err(),
        Some(GameError::Ui(UiError::NotImplemented(Unimplemented::StartNewGame)))
    );
}

#[test]
fn render_error_is_fatal() {
    let mut state = init_game_state();
    state.current_ui = Ui::Settings;
    assert_eq!(
        run_frame(&mut state, &draw_system(), &scene(), &vec![], 0),
        Err(GameError::Render(RenderError::UnimplementedUi(ScreenName::Settings)))
    );
}

#[test]
fn window_close_skips_rendering() {
    let mut state = init_game_state();
    state.current_ui = Ui::Game;
    let r = run_frame(&mut state, &draw_system(), &scene(), &vec![RawEvent::Quit { timestamp: 0 }], 0);
    assert_eq!(r, Ok(None));
    assert!(!state.should_continue);
}
