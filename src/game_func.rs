//! The frame loop's decisions: the pacing delay, the work of one frame, and a
//! whole session replayed from recorded input.

use vstd::prelude::*;
use crate::draw_system::{DrawCommand, DrawSystem, RenderError, Scene, frame_trace, UiTexture};
use crate::game_state::{
    GameState, GameStateModel, RawEvent, UiError, game_update, init_game_state, initial_state,
};

verus! {

/// A fatal error of a frame; it ends the session.
#[derive(Clone, Copy, Debug, PartialEq, Eq, Structural)]
pub enum GameError {
    Ui(UiError),
    Render(RenderError),
}

/// How long to sleep after a frame that took `measured_ns`, for a target of
/// `target_ns`: the rest of the target, or nothing after an overrun. The
/// delay depends on this frame alone, so an overrun is never made up later.
pub fn pacing_delay(measured_ns: u64, target_ns: u64) -> (r: u64)
    ensures
        r == if measured_ns < target_ns {
            target_ns - measured_ns
        } else {
            0
        },
        r <= target_ns,
{
    if measured_ns < target_ns {
        target_ns - measured_ns
    } else {
        0
    }
}

/// One frame: the batch updates the session; unless a quit-class event
/// stopped it, the frame is rendered. A screen or render error is fatal.
pub open spec fn frame_step(
    textures: UiTexture,
    scene: Scene,
    s: GameStateModel,
    events: Seq<RawEvent>,
    timestamp: u64,
) -> (GameStateModel, Result<Option<Seq<DrawCommand>>, GameError>) {
    let (s1, updated) = game_update(s, events, timestamp);
    match updated {
        Err(e) => (s1, Err(GameError::Ui(e))),
        Ok(()) => if !s1.should_continue {
            (s1, Ok(None))
        } else {
            match frame_trace(textures, scene, s1.debug_mode, s1.current_ui) {
                Ok(cmds) => (s1, Ok(Some(cmds))),
                Err(e) => (s1, Err(GameError::Render(e))),
            }
        },
    }
}

pub open spec fn frame_view(r: Result<Option<Vec<DrawCommand>>, GameError>) -> Result<
    Option<Seq<DrawCommand>>,
    GameError,
> {
    match r {
        Ok(Some(cmds)) => Ok(Some(cmds@)),
        Ok(None) => Ok(None),
        Err(e) => Err(e),
    }
}

/// Runs the decisions of one frame on the batch of raw events polled for it:
/// input translation, then the screen update, then rendering. Hands back the
/// frame's draw commands, or `None` when a quit-class event ended the
/// session and nothing is to be drawn.
pub fn run_frame(
    state: &mut GameState,
    draw_system: &DrawSystem,
    scene: &Scene,
    events: &Vec<RawEvent>,
    timestamp: u64,
) -> (r: Result<Option<Vec<DrawCommand>>, GameError>)
    ensures
        (final(state)@, frame_view(r)) == frame_step(
            draw_system.textures(),
            *scene,
            old(state)@,
            events@,
            timestamp,
        ),
{
    match state.update_game_state(events, timestamp) {
        Err(e) => Err(GameError::Ui(e)),
        Ok(()) => {
            if !state.should_continue {
                return Ok(None);
            }
            match draw_system.draw_function(scene, state.debug_mode, &state.current_ui) {
                Ok(cmds) => Ok(Some(cmds)),
                Err(e) => Err(GameError::Render(e)),
            }
        },
    }
}

/// The raw events polled for one frame and the time of the poll, in
/// nanoseconds since the platform was initialised.
pub struct FrameFeed {
    pub events: Vec<RawEvent>,
    pub ns_since_init: u64,
}

/// The outcome of a replayed session: the final state and every frame drawn.
pub struct Session {
    pub state: GameState,
    pub frames: Vec<Vec<DrawCommand>>,
}

pub open spec fn drawn(d: Option<Seq<DrawCommand>>) -> Seq<Seq<DrawCommand>> {
    match d {
        Some(cmds) => seq![cmds],
        None => Seq::empty(),
    }
}

pub open spec fn with_earlier_frames(
    earlier: Seq<Seq<DrawCommand>>,
    r: Result<(GameStateModel, Seq<Seq<DrawCommand>>), GameError>,
) -> Result<(GameStateModel, Seq<Seq<DrawCommand>>), GameError> {
    match r {
        Ok((s, frames)) => Ok((s, earlier + frames)),
        Err(e) => Err(e),
    }
}

/// A session from state `s` over the recorded frames: while the session
/// goes on and frames remain, each frame's batch is the events the game
/// emitted for itself during the frame before, then the polled ones.
pub open spec fn replay(
    textures: UiTexture,
    scene: Scene,
    s: GameStateModel,
    feed: Seq<FrameFeed>,
) -> Result<(GameStateModel, Seq<Seq<DrawCommand>>), GameError>
    decreases feed.len(),
{
    if feed.len() == 0 || !s.should_continue {
        Ok((s, Seq::empty()))
    } else {
        let batch = s.pending + feed[0].events@;
        let (s1, r) = frame_step(
            textures,
            scene,
            GameStateModel { pending: Seq::empty(), ..s },
            batch,
            feed[0].ns_since_init,
        );
        match r {
            Err(e) => Err(e),
            Ok(d) => with_earlier_frames(drawn(d), replay(textures, scene, s1, feed.drop_first())),
        }
    }
}

pub open spec fn frames_view(frames: Seq<Vec<DrawCommand>>) -> Seq<Seq<DrawCommand>> {
    frames.map_values(|f: Vec<DrawCommand>| f@)
}

proof fn lemma_no_earlier_frames(r: Result<(GameStateModel, Seq<Seq<DrawCommand>>), GameError>)
    ensures
        with_earlier_frames(Seq::empty(), r) == r,
{
    if let Ok((s, frames)) = r {
        assert(Seq::<Seq<DrawCommand>>::empty() + frames =~= frames);
    }
}

proof fn lemma_earlier_frames_join(
    a: Seq<Seq<DrawCommand>>,
    b: Seq<Seq<DrawCommand>>,
    r: Result<(GameStateModel, Seq<Seq<DrawCommand>>), GameError>,
)
    ensures
        with_earlier_frames(a, with_earlier_frames(b, r)) == with_earlier_frames(a + b, r),
{
    if let Ok((s, frames)) = r {
        assert(a + (b + frames) =~= a + b + frames);
    }
}

fn append_events(batch: &mut Vec<RawEvent>, events: &Vec<RawEvent>)
    ensures
        final(batch)@ == old(batch)@ + events@,
{
    let mut i: usize = 0;
    while i < events.len()
        invariant
            i <= events@.len(),
            batch@ == old(batch)@ + events@.take(i as int),
        decreases events.len() - i,
    {
        batch.push(events[i]);
        proof {
            assert(old(batch)@ + events@.take(i + 1) =~= (old(batch)@ + events@.take(i as int)).push(
                events@[i as int],
            ));
        }
        i = i + 1;
    }
    proof {
        assert(events@.take(i as int) =~= events@);
    }
}

/// Runs a session from its first frame over recorded input, one entry of
/// `feed` per frame, until the session stops or the feed runs out. The
/// events the game emits for itself during a frame come back at the head of
/// the next frame's batch. The first screen or render error ends the run.
pub fn game_func(draw_system: &DrawSystem, scene: &Scene, feed: &Vec<FrameFeed>) -> (r: Result<
    Session,
    GameError,
>)
    ensures
        match r {
            Ok(session) => replay(draw_system.textures(), *scene, initial_state(), feed@) == Ok::<
                _,
                GameError,
            >((session.state@, frames_view(session.frames@))),
            Err(e) => replay(draw_system.textures(), *scene, initial_state(), feed@) == Err::<
                (GameStateModel, Seq<Seq<DrawCommand>>),
                GameError,
            >(e),
        },
{
    let ghost textures = draw_system.textures();
    let mut game_state = init_game_state();
    let mut frames: Vec<Vec<DrawCommand>> = Vec::new();
    let mut i: usize = 0;
    proof {
        assert(feed@.skip(0) =~= feed@);
        lemma_no_earlier_frames(replay(textures, *scene, game_state@, feed@));
    }
    while i < feed.len() && game_state.should_continue
        invariant
            i <= feed@.len(),
            textures == draw_system.textures(),
            replay(textures, *scene, initial_state(), feed@) == with_earlier_frames(
                frames_view(frames@),
                replay(textures, *scene, game_state@, feed@.skip(i as int)),
            ),
        decreases feed.len() - i,
    {
        let ghost before = game_state@;
        let mut batch = game_state.event_sender.drain();
        append_events(&mut batch, &feed[i].events);
        let ghost rest = feed@.skip(i as int);
        proof {
            assert(rest[0] == feed@[i as int]);
            assert(rest.drop_first() =~= feed@.skip(i + 1));
            assert(game_state@ == GameStateModel { pending: Seq::empty(), ..before });
        }
        let step = run_frame(&mut game_state, draw_system, scene, &batch, feed[i].ns_since_init);
        match step {
            Err(e) => {
                return Err(e);
            },
            Ok(d) => {
                let ghost shown = frame_view(Ok(d));
                let ghost earlier = frames_view(frames@);
                proof {
                    lemma_earlier_frames_join(
                        earlier,
                        drawn(shown->Ok_0),
                        replay(textures, *scene, game_state@, feed@.skip(i + 1)),
                    );
                }
                match d {
                    Some(cmds) => {
                        frames.push(cmds);
                    },
                    None => {},
                }
                proof {
                    assert(frames_view(frames@) =~= earlier + drawn(shown->Ok_0));
                }
            },
        }
        i = i + 1;
    }
    proof {
        let f = frames_view(frames@);
        assert(f + Seq::<Seq<DrawCommand>>::empty() =~= f);
    }
    Ok(Session { state: game_state, frames })
}

} // verus!
