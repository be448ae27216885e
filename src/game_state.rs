//! Session state, the per-frame input model and the screen state machine.

use vstd::prelude::*;

verus! {

/// Display server the window is opened on when running under Linux.
#[derive(Clone, Copy, Debug, PartialEq, Eq, Structural)]
pub enum LinuxWindowServer {
    Xorg,
    Wayland,
}

/// Fixed configuration of a session.
#[derive(Clone, Copy, Debug, PartialEq, Eq, Structural)]
pub struct GlobalConfig {
    pub width: u32,
    pub height: u32,
    pub linux_window_server: LinuxWindowServer,
    /// Target duration of one frame, in nanoseconds.
    pub desired_frame_time_ns: u64,
}

/// Direction pressed during a frame.
#[derive(Clone, Copy, Debug, PartialEq, Eq, Structural)]
pub enum DPadDirection {
    Neutral,
    Up,
    Down,
    Left,
    Right,
}

/// Normalised input of one frame.
#[derive(Clone, Copy, Debug, PartialEq, Eq, Structural)]
pub struct GameInput {
    /// The direction pressed last in the frame.
    pub d_pad_input: DPadDirection,
    /// The confirmation gesture has been triggered by the user.
    pub confirm_gesture: bool,
}

/// Entries of the start menu.
#[derive(Clone, Copy, Debug, PartialEq, Eq, Structural)]
pub enum StartMenuOptions {
    StartNewGame,
    ExitGame,
}

/// State of the start screen: the entry that is selected.
#[derive(Clone, Copy, Debug, PartialEq, Eq, Structural)]
pub struct StartMenuState {
    pub selected_option: StartMenuOptions,
}

/// The screens of the game, each with its own state.
#[derive(Clone, Copy, Debug, PartialEq, Eq, Structural)]
pub enum Ui {
    Start(StartMenuState),
    Game,
    Settings,
}

/// Name of a screen.
#[derive(Clone, Copy, Debug, PartialEq, Eq, Structural)]
pub enum ScreenName {
    Start,
    Game,
    Settings,
}

/// What is asked for but not built yet.
#[derive(Clone, Copy, Debug, PartialEq, Eq, Structural)]
pub enum Unimplemented {
    /// Confirming "start new game" on the start screen.
    StartNewGame,
    /// Updating a screen that has no update rule yet.
    Screen(ScreenName),
}

/// Failure of the screen state machine.
#[derive(Clone, Copy, Debug, PartialEq, Eq, Structural)]
pub enum UiError {
    NotImplemented(Unimplemented),
}

/// Keys the input translator tells apart.
#[derive(Clone, Copy, Debug, PartialEq, Eq, Structural)]
pub enum Key {
    F3,
    Escape,
    Up,
    Down,
    Return,
    Other,
}

/// A raw event of the platform's queue.
#[derive(Clone, Copy, Debug, PartialEq, Eq, Structural)]
pub enum RawEvent {
    /// The window was closed, or a quit was requested; `timestamp` is in
    /// nanoseconds since the platform finished initialising.
    Quit { timestamp: u64 },
    KeyDown(Key),
    /// Any event the core does not react to.
    Ignored,
}

pub open spec fn is_vertical(d: DPadDirection) -> bool {
    d == DPadDirection::Up || d == DPadDirection::Down
}

pub open spec fn toggled(o: StartMenuOptions) -> StartMenuOptions {
    match o {
        StartMenuOptions::StartNewGame => StartMenuOptions::ExitGame,
        StartMenuOptions::ExitGame => StartMenuOptions::StartNewGame,
    }
}

/// One update of the start menu: the next state, the events it emits and its
/// outcome.
pub open spec fn menu_update(
    menu: StartMenuState,
    input: GameInput,
    timestamp: u64,
) -> (StartMenuState, Seq<RawEvent>, Result<(), UiError>) {
    if is_vertical(input.d_pad_input) {
        (StartMenuState { selected_option: toggled(menu.selected_option) }, seq![], Ok(()))
    } else if input.confirm_gesture && menu.selected_option == StartMenuOptions::ExitGame {
        (menu, seq![RawEvent::Quit { timestamp }], Ok(()))
    } else if input.confirm_gesture {
        (menu, seq![], Err(UiError::NotImplemented(Unimplemented::StartNewGame)))
    } else {
        (menu, seq![], Ok(()))
    }
}

impl StartMenuState {
    /// Applies one frame's input to the start menu. A vertical direction flips
    /// the selection; otherwise a confirmation on "exit game" queues a quit
    /// event on `event_sender`, and one on "start new game" fails.
    pub fn update_state(
        &mut self,
        game_input: &GameInput,
        event_sender: &mut EventOutbox,
        timestamp: u64,
    ) -> (r: Result<(), UiError>)
        ensures
            ({
                let (next, emitted, res) = menu_update(*old(self), *game_input, timestamp);
                &&& *final(self) == next
                &&& final(event_sender)@ == old(event_sender)@ + emitted
                &&& r == res
            }),
    {
        let vertical = game_input.d_pad_input == DPadDirection::Up || game_input.d_pad_input
            == DPadDirection::Down;
        match (self.selected_option, vertical, game_input.confirm_gesture) {
            (StartMenuOptions::ExitGame, true, _) => {
                self.selected_option = StartMenuOptions::StartNewGame;
                Ok(())
            },
            (StartMenuOptions::StartNewGame, true, _) => {
                self.selected_option = StartMenuOptions::ExitGame;
                Ok(())
            },
            (StartMenuOptions::ExitGame, false, true) => {
                event_sender.push_event(RawEvent::Quit { timestamp });
                Ok(())
            },
            (StartMenuOptions::StartNewGame, false, true) => {
                Err(UiError::NotImplemented(Unimplemented::StartNewGame))
            },
            (_, false, false) => Ok(()),
        }
    }
}

/// The queue of events that the game emits for itself; they are read back on
/// a later poll of the platform's event stream.
pub struct EventOutbox {
    queued: Vec<RawEvent>,
}

impl View for EventOutbox {
    type V = Seq<RawEvent>;

    closed spec fn view(&self) -> Seq<RawEvent> {
        self.queued@
    }
}

impl EventOutbox {
    pub fn new() -> (r: EventOutbox)
        ensures
            r@ == Seq::<RawEvent>::empty(),
    {
        EventOutbox { queued: Vec::new() }
    }

    /// Queues `event` behind those already queued.
    pub fn push_event(&mut self, event: RawEvent)
        ensures
            final(self)@ == old(self)@.push(event),
    {
        self.queued.push(event);
    }

    /// Hands out the queued events in the order they were pushed and empties
    /// the queue.
    pub fn drain(&mut self) -> (r: Vec<RawEvent>)
        ensures
            r@ == old(self)@,
            final(self)@ == Seq::<RawEvent>::empty(),
    {
        let mut out: Vec<RawEvent> = Vec::new();
        std::mem::swap(&mut out, &mut self.queued);
        out
    }

    pub fn len(&self) -> (r: usize)
        ensures
            r == self@.len(),
    {
        self.queued.len()
    }
}


impl GameInput {
    /// The input of a frame in which nothing was pressed.
    pub fn empty() -> (r: GameInput)
        ensures
            r == empty_input(),
    {
        GameInput { d_pad_input: DPadDirection::Neutral, confirm_gesture: false }
    }

    /// Whether the frame asks anything of the screen state machine.
    pub fn has_input(&self) -> (r: bool)
        ensures
            r == has_input(*self),
    {
        self.d_pad_input != DPadDirection::Neutral || self.confirm_gesture
    }
}

pub open spec fn empty_input() -> GameInput {
    GameInput { d_pad_input: DPadDirection::Neutral, confirm_gesture: false }
}

pub open spec fn has_input(input: GameInput) -> bool {
    input.d_pad_input != DPadDirection::Neutral || input.confirm_gesture
}

/// One update of a screen: the next screen state, the events it emits and
/// its outcome.
pub open spec fn ui_update(ui: Ui, input: GameInput, timestamp: u64) -> (
    Ui,
    Seq<RawEvent>,
    Result<(), UiError>,
) {
    match ui {
        Ui::Start(menu) => {
            let (next, emitted, res) = menu_update(menu, input, timestamp);
            (Ui::Start(next), emitted, res)
        },
        Ui::Game => (ui, seq![], Err(UiError::NotImplemented(Unimplemented::Screen(ScreenName::Game)))),
        Ui::Settings => (
            ui,
            seq![],
            Err(UiError::NotImplemented(Unimplemented::Screen(ScreenName::Settings))),
        ),
    }
}

pub open spec fn screen_name(ui: Ui) -> ScreenName {
    match ui {
        Ui::Start(_) => ScreenName::Start,
        Ui::Game => ScreenName::Game,
        Ui::Settings => ScreenName::Settings,
    }
}

impl Ui {
    /// Processes one frame's input on the active screen. Only the start
    /// screen has an update rule; the others fail.
    pub fn update_ui_state(
        &mut self,
        input: &GameInput,
        event_sender: &mut EventOutbox,
        timestamp: u64,
    ) -> (r: Result<(), UiError>)
        ensures
            ({
                let (next, emitted, res) = ui_update(*old(self), *input, timestamp);
                &&& *final(self) == next
                &&& final(event_sender)@ == old(event_sender)@ + emitted
                &&& r == res
            }),
    {
        match self {
            Ui::Start(start_menu_option) => {
                start_menu_option.update_state(input, event_sender, timestamp)
            },
            Ui::Game => Err(UiError::NotImplemented(Unimplemented::Screen(ScreenName::Game))),
            Ui::Settings => Err(UiError::NotImplemented(Unimplemented::Screen(ScreenName::Settings))),
        }
    }

    /// The name of the active screen.
    pub fn screen_name(&self) -> (r: ScreenName)
        ensures
            r == screen_name(*self),
    {
        match self {
            Ui::Start(_) => ScreenName::Start,
            Ui::Game => ScreenName::Game,
            Ui::Settings => ScreenName::Settings,
        }
    }

    /// Text that names the active screen, as in "Ui: Start".
    pub fn describe(&self) -> (r: String)
        ensures
            r@ == (match *self {
                Ui::Start(_) => "Ui: Start"@,
                Ui::Game => "Ui: Game"@,
                Ui::Settings => "Ui: Settings"@,
            }),
    {
        match self {
            Ui::Start(_) => String::from_str("Ui: Start"),
            Ui::Game => String::from_str("Ui: Game"),
            Ui::Settings => String::from_str("Ui: Settings"),
        }
    }
}

/// What a batch of raw events amounts to: the frame's input, the debug flag
/// and whether a quit-class event was met.
#[derive(Clone, Copy, Debug, PartialEq, Eq, Structural)]
pub struct TranslatedInput {
    pub input: GameInput,
    pub debug_mode: bool,
    pub quit: bool,
}

pub open spec fn is_quit_class(e: RawEvent) -> bool {
    e is Quit || e == RawEvent::KeyDown(Key::Escape)
}

/// The effect of one raw event. Once a quit-class event has been met, later
/// events change nothing.
pub open spec fn translate_event(t: TranslatedInput, e: RawEvent) -> TranslatedInput {
    if t.quit {
        t
    } else if is_quit_class(e) {
        TranslatedInput { input: t.input, debug_mode: t.debug_mode, quit: true }
    } else {
        match e {
            RawEvent::KeyDown(Key::F3) => TranslatedInput {
                input: t.input,
                debug_mode: !t.debug_mode,
                quit: false,
            },
            RawEvent::KeyDown(Key::Up) => TranslatedInput {
                input: GameInput { d_pad_input: DPadDirection::Up, confirm_gesture: t.input.confirm_gesture },
                debug_mode: t.debug_mode,
                quit: false,
            },
            RawEvent::KeyDown(Key::Down) => TranslatedInput {
                input: GameInput { d_pad_input: DPadDirection::Down, confirm_gesture: t.input.confirm_gesture },
                debug_mode: t.debug_mode,
                quit: false,
            },
            RawEvent::KeyDown(Key::Return) => TranslatedInput {
                input: GameInput { d_pad_input: t.input.d_pad_input, confirm_gesture: true },
                debug_mode: t.debug_mode,
                quit: false,
            },
            _ => t,
        }
    }
}

/// A batch folded in order, starting from no input and the given debug flag.
pub open spec fn translate_batch(events: Seq<RawEvent>, debug_mode: bool) -> TranslatedInput
    decreases events.len(),
{
    if events.len() == 0 {
        TranslatedInput { input: empty_input(), debug_mode, quit: false }
    } else {
        translate_event(translate_batch(events.drop_last(), debug_mode), events.last())
    }
}

proof fn lemma_quit_is_final(events: Seq<RawEvent>, debug_mode: bool, i: int)
    requires
        0 <= i <= events.len(),
        translate_batch(events.take(i), debug_mode).quit,
    ensures
        translate_batch(events, debug_mode) == translate_batch(events.take(i), debug_mode),
    decreases events.len() - i,
{
    if i < events.len() {
        let next = events.take(i + 1);
        assert(next.drop_last() =~= events.take(i));
        lemma_quit_is_final(events, debug_mode, i + 1);
    } else {
        assert(events.take(i) =~= events);
    }
}

/// Folds a batch of raw events into one frame's input. Events are taken in
/// order; the first quit-class event (a quit or Escape) ends the batch and
/// later events are discarded. F3 flips the debug flag, Up and Down set the
/// direction (the last one wins), Return sets the confirmation.
pub fn translate_input(events: &Vec<RawEvent>, debug_mode: bool) -> (r: TranslatedInput)
    ensures
        r == translate_batch(events@, debug_mode),
{
    let mut t = TranslatedInput { input: GameInput::empty(), debug_mode, quit: false };
    let mut i: usize = 0;
    while i < events.len() && !t.quit
        invariant
            0 <= i <= events.len(),
            t == translate_batch(events@.take(i as int), debug_mode),
        decreases events.len() - i,
    {
        let e = events[i];
        proof {
            assert(events@.take(i + 1).drop_last() =~= events@.take(i as int));
        }
        match e {
            RawEvent::Quit { .. } | RawEvent::KeyDown(Key::Escape) => {
                t.quit = true;
            },
            RawEvent::KeyDown(Key::F3) => {
                t.debug_mode = !t.debug_mode;
            },
            RawEvent::KeyDown(Key::Up) => {
                t.input.d_pad_input = DPadDirection::Up;
            },
            RawEvent::KeyDown(Key::Down) => {
                t.input.d_pad_input = DPadDirection::Down;
            },
            RawEvent::KeyDown(Key::Return) => {
                t.input.confirm_gesture = true;
            },
            _ => {},
        }
        i = i + 1;
    }
    proof {
        if t.quit {
            lemma_quit_is_final(events@, debug_mode, i as int);
        } else {
            assert(events@.take(i as int) =~= events@);
        }
    }
    t
}

/// The root mutable record of a session.
pub struct GameState {
    pub global_config: GlobalConfig,
    pub should_continue: bool,
    pub debug_mode: bool,
    pub current_ui: Ui,
    /// Where the game emits events for itself.
    pub event_sender: EventOutbox,
}

/// What a `GameState` holds, with the emitted events as a sequence.
pub struct GameStateModel {
    pub global_config: GlobalConfig,
    pub should_continue: bool,
    pub debug_mode: bool,
    pub current_ui: Ui,
    pub pending: Seq<RawEvent>,
}

impl View for GameState {
    type V = GameStateModel;

    open spec fn view(&self) -> GameStateModel {
        GameStateModel {
            global_config: self.global_config,
            should_continue: self.should_continue,
            debug_mode: self.debug_mode,
            current_ui: self.current_ui,
            pending: self.event_sender@,
        }
    }
}

/// One frame's update of the session: the batch is translated; a quit-class
/// event stops the session and skips the screen update; otherwise the screen
/// is updated when the frame holds a direction or a confirmation.
pub open spec fn game_update(s: GameStateModel, events: Seq<RawEvent>, timestamp: u64) -> (
    GameStateModel,
    Result<(), UiError>,
) {
    let t = translate_batch(events, s.debug_mode);
    let s1 = GameStateModel { debug_mode: t.debug_mode, ..s };
    if t.quit {
        (GameStateModel { should_continue: false, ..s1 }, Ok(()))
    } else if !has_input(t.input) {
        (s1, Ok(()))
    } else {
        let (ui, emitted, res) = ui_update(s.current_ui, t.input, timestamp);
        (GameStateModel { current_ui: ui, pending: s.pending + emitted, ..s1 }, res)
    }
}

impl GameState {
    /// Processes the frame's batch of raw events and updates the active
    /// screen. `timestamp` is the time since the platform was initialised, in
    /// nanoseconds; it stamps the events the screen emits.
    pub fn update_game_state(&mut self, events: &Vec<RawEvent>, timestamp: u64) -> (r: Result<
        (),
        UiError,
    >)
        ensures
            (final(self)@, r) == game_update(old(self)@, events@, timestamp),
    {
        let t = translate_input(events, self.debug_mode);
        self.debug_mode = t.debug_mode;
        if t.quit {
            self.should_continue = false;
            return Ok(());
        }
        if !t.input.has_input() {
            return Ok(());
        }
        self.current_ui.update_ui_state(&t.input, &mut self.event_sender, timestamp)
    }
}

pub open spec fn initial_state() -> GameStateModel {
    GameStateModel {
        global_config: GlobalConfig {
            width: 800,
            height: 600,
            linux_window_server: LinuxWindowServer::Wayland,
            desired_frame_time_ns: DEFAULT_FRAME_TIME_NS,
        },
        should_continue: true,
        debug_mode: false,
        current_ui: Ui::Start(StartMenuState { selected_option: StartMenuOptions::StartNewGame }),
        pending: Seq::empty(),
    }
}

/// Nanoseconds in the target frame time of 1/120 s, counted in whole
/// microseconds.
pub const DEFAULT_FRAME_TIME_NS: u64 = 8_333_000;

/// The state a session starts in: an 800x600 window on Wayland, a target of
/// 120 frames per second, the start screen with "start new game" selected,
/// debug overlay off and nothing emitted.
pub fn init_game_state() -> (r: GameState)
    ensures
        r@ == initial_state(),
{
    let gc = GlobalConfig {
        width: 800,
        height: 600,
        linux_window_server: LinuxWindowServer::Wayland,
        desired_frame_time_ns: DEFAULT_FRAME_TIME_NS,
    };
    GameState {
        global_config: gc,
        should_continue: true,
        debug_mode: false,
        current_ui: Ui::Start(StartMenuState { selected_option: StartMenuOptions::StartNewGame }),
        event_sender: EventOutbox::new(),
    }
}


/// A vertical direction flips the start menu's selection whatever its sign,
/// succeeds and emits nothing; so two such inputs in a row bring the menu back
/// to where it was, and from "start new game" one of them selects "exit game".
pub proof fn lemma_direction_toggles_selection(
    menu: StartMenuState,
    first: GameInput,
    second: GameInput,
    t1: u64,
    t2: u64,
)
    requires
        is_vertical(first.d_pad_input),
        is_vertical(second.d_pad_input),
    ensures
        menu_update(menu, first, t1).1 == Seq::<RawEvent>::empty(),
        menu_update(menu, first, t1).2 == Ok::<(), UiError>(()),
        menu_update(menu_update(menu, first, t1).0, second, t2).0 == menu,
        menu.selected_option == StartMenuOptions::StartNewGame ==> menu_update(
            menu,
            first,
            t1,
        ).0.selected_option == StartMenuOptions::ExitGame,
        menu_update(menu, GameInput { d_pad_input: DPadDirection::Up, ..first }, t1)
            == menu_update(menu, GameInput { d_pad_input: DPadDirection::Down, ..first }, t1),
{
}

/// A confirmation without a vertical direction: on "exit game" it queues
/// exactly one quit event, stamped with the given time, and keeps the
/// selection; on "start new game" it fails as not implemented, keeps the
/// selection and emits nothing.
pub proof fn lemma_confirm_outcome(menu: StartMenuState, input: GameInput, timestamp: u64)
    requires
        input.confirm_gesture,
        !is_vertical(input.d_pad_input),
    ensures
        menu.selected_option == StartMenuOptions::ExitGame ==> menu_update(menu, input, timestamp)
            == (menu, seq![RawEvent::Quit { timestamp }], Ok::<(), UiError>(())),
        menu.selected_option == StartMenuOptions::StartNewGame ==> menu_update(
            menu,
            input,
            timestamp,
        ) == (
            menu,
            Seq::<RawEvent>::empty(),
            Err::<(), UiError>(UiError::NotImplemented(Unimplemented::StartNewGame)),
        ),
{
}

/// A quit-class event ends its batch: whatever follows it in the same batch
/// changes neither the translated input nor the session.
pub proof fn lemma_quit_halts_batch(
    s: GameStateModel,
    before: Seq<RawEvent>,
    quit: RawEvent,
    after: Seq<RawEvent>,
    timestamp: u64,
)
    requires
        is_quit_class(quit),
    ensures
        translate_batch(before + seq![quit] + after, s.debug_mode) == translate_batch(
            before + seq![quit],
            s.debug_mode,
        ),
        translate_batch(before + seq![quit], s.debug_mode).quit,
        game_update(s, before + seq![quit] + after, timestamp) == game_update(
            s,
            before + seq![quit],
            timestamp,
        ),
        !game_update(s, before + seq![quit] + after, timestamp).0.should_continue,
{
    let head = before + seq![quit];
    let all = head + after;
    assert(head.drop_last() =~= before);
    assert(all.take(head.len() as int) =~= head);
    lemma_quit_is_final(all, s.debug_mode, head.len() as int);
}

/// Two F3 presses next to each other in a batch cancel out: the batch acts as
/// if both were absent. One F3 alone flips the debug flag.
pub proof fn lemma_double_f3_cancels(
    s: GameStateModel,
    before: Seq<RawEvent>,
    after: Seq<RawEvent>,
    timestamp: u64,
)
    ensures
        translate_batch(
            before + seq![RawEvent::KeyDown(Key::F3), RawEvent::KeyDown(Key::F3)] + after,
            s.debug_mode,
        ) == translate_batch(before + after, s.debug_mode),
        game_update(
            s,
            before + seq![RawEvent::KeyDown(Key::F3), RawEvent::KeyDown(Key::F3)] + after,
            timestamp,
        ) == game_update(s, before + after, timestamp),
        translate_batch(seq![RawEvent::KeyDown(Key::F3)], s.debug_mode).debug_mode
            == !s.debug_mode,
        game_update(s, seq![RawEvent::KeyDown(Key::F3)], timestamp).0.debug_mode
            == !s.debug_mode,
{
    lemma_double_f3_translates(before, after, s.debug_mode);
    let one = seq![RawEvent::KeyDown(Key::F3)];
    assert(one.drop_last() =~= Seq::<RawEvent>::empty());
    assert(translate_batch(one.drop_last(), s.debug_mode).debug_mode == s.debug_mode);
}

proof fn lemma_double_f3_translates(before: Seq<RawEvent>, after: Seq<RawEvent>, debug_mode: bool)
    ensures
        translate_batch(
            before + seq![RawEvent::KeyDown(Key::F3), RawEvent::KeyDown(Key::F3)] + after,
            debug_mode,
        ) == translate_batch(before + after, debug_mode),
    decreases after.len(),
{
    let pair = seq![RawEvent::KeyDown(Key::F3), RawEvent::KeyDown(Key::F3)];
    if after.len() == 0 {
        let one = before + seq![RawEvent::KeyDown(Key::F3)];
        assert((before + pair + after).drop_last() =~= one);
        assert(one.drop_last() =~= before);
        assert(before + after =~= before);
        assert(translate_batch(one, debug_mode) == translate_event(
            translate_batch(before, debug_mode),
            RawEvent::KeyDown(Key::F3),
        ));
    } else {
        lemma_double_f3_translates(before, after.drop_last(), debug_mode);
        assert((before + pair + after).drop_last() =~= before + pair + after.drop_last());
        assert((before + after).drop_last() =~= before + after.drop_last());
    }
}

} // verus!
