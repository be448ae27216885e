//! The layered scene model and the renderer. Rendering a frame yields the
//! ordered list of draw commands that the surface is to carry out; nothing of
//! it is carried out when rendering fails.

use vstd::prelude::*;
use crate::game_state::{ScreenName, StartMenuOptions, StartMenuState, Ui, screen_name};

verus! {

/// An RGBA colour.
#[derive(Clone, Copy, Debug, PartialEq, Eq, Structural)]
pub struct Color {
    pub r: u8,
    pub g: u8,
    pub b: u8,
    pub a: u8,
}

/// An axis-aligned rectangle in pixels; width and height are never negative.
#[derive(Clone, Copy, Debug, PartialEq, Eq, Structural)]
pub struct Rect {
    pub x: i32,
    pub y: i32,
    pub w: u32,
    pub h: u32,
}

/// A point on the surface, in pixels.
#[derive(Clone, Copy, Debug, PartialEq, Eq, Structural)]
pub struct Point {
    pub x: i32,
    pub y: i32,
}

/// A texture that lives on the drawing surface: its key in the surface's
/// table of textures, and its size.
#[derive(Clone, Copy, Debug, PartialEq, Eq, Structural)]
pub struct TextureHandle {
    pub id: usize,
    pub width: u32,
    pub height: u32,
}

/// A rectangle filled with one colour.
#[derive(Clone, Copy, Debug, PartialEq, Eq, Structural)]
pub struct SolidRect {
    pub rect: Rect,
    pub fill_color: Color,
}

/// A copy of part of a texture onto the surface.
#[derive(Clone, Copy, Debug, PartialEq, Eq, Structural)]
pub struct TexturedRect {
    pub render_rect: Rect,
    pub texture_source_rect: Rect,
}

/// One texture and the copies made from it.
pub struct TextureRectRenderingUnit {
    pub texture_rects: Vec<TexturedRect>,
    pub texture: TextureHandle,
}

/// A drawing bucket: its solid rectangles are drawn before its textured
/// units.
pub struct Layer {
    pub solid_rects: Vec<SolidRect>,
    pub texture_units: Vec<TextureRectRenderingUnit>,
}

/// The layers of a scene, starting with the lowest: later layers cover
/// earlier ones.
pub struct Scene {
    pub layers: Vec<Layer>,
}

/// Pre-rendered label of the debug overlay.
#[derive(Clone, Copy, Debug, PartialEq, Eq, Structural)]
pub struct DebugUiTextures {
    pub debug_info_labels: TextureHandle,
}

/// Pre-rendered labels of the start menu.
#[derive(Clone, Copy, Debug, PartialEq, Eq, Structural)]
pub struct StartUiTextures {
    pub start_new_game_label: TextureHandle,
    pub exit_game_label: TextureHandle,
}

/// Every pre-rendered label the renderer draws.
#[derive(Clone, Copy, Debug, PartialEq, Eq, Structural)]
pub struct UiTexture {
    pub debug: DebugUiTextures,
    pub start: StartUiTextures,
}

/// One operation on the drawing surface. Every command that paints carries
/// its own colour.
#[derive(Clone, Copy, Debug, PartialEq, Eq, Structural)]
pub enum DrawCommand {
    /// Paint the whole surface.
    Clear { color: Color },
    FillRect { rect: Rect, color: Color },
    /// Copy `source` of the texture (all of it when `None`) to `dest`, without
    /// rotation or flip.
    CopyTexture { texture: usize, source: Option<Rect>, dest: Rect },
    DrawLine { from: Point, to: Point, color: Color },
    /// Make the frame visible.
    Present,
}

/// Failure of the renderer.
#[derive(Clone, Copy, Debug, PartialEq, Eq, Structural)]
pub enum RenderError {
    /// A textured copy reads outside its texture.
    PrimitiveDraw,
    /// The active screen has no drawing rule yet.
    UnimplementedUi(ScreenName),
}

pub open spec fn background() -> Color {
    Color { r: 0, g: 0, b: 0, a: 255 }
}

pub open spec fn selection_color() -> Color {
    Color { r: 255, g: 0, b: 0, a: 255 }
}

pub open spec fn debug_label_rect() -> Rect {
    Rect { x: 20, y: 20, w: 200, h: 20 }
}

pub open spec fn start_new_game_rect() -> Rect {
    Rect { x: 60, y: 40, w: 200, h: 20 }
}

pub open spec fn exit_game_rect() -> Rect {
    Rect { x: 60, y: 80, w: 200, h: 20 }
}

pub open spec fn solid_command(s: SolidRect) -> DrawCommand {
    DrawCommand::FillRect { rect: s.rect, color: s.fill_color }
}

pub open spec fn copy_command(texture: usize, t: TexturedRect) -> DrawCommand {
    DrawCommand::CopyTexture {
        texture,
        source: Some(t.texture_source_rect),
        dest: t.render_rect,
    }
}

pub open spec fn solids_trace(solids: Seq<SolidRect>) -> Seq<DrawCommand> {
    solids.map_values(|s: SolidRect| solid_command(s))
}

pub open spec fn copies_trace(texture: usize, rects: Seq<TexturedRect>) -> Seq<DrawCommand> {
    rects.map_values(|t: TexturedRect| copy_command(texture, t))
}

pub open spec fn unit_trace(u: TextureRectRenderingUnit) -> Seq<DrawCommand> {
    copies_trace(u.texture.id, u.texture_rects@)
}

/// The units' copies, unit after unit, each in its own order.
pub open spec fn units_trace(units: Seq<TextureRectRenderingUnit>) -> Seq<DrawCommand>
    decreases units.len(),
{
    if units.len() == 0 {
        Seq::empty()
    } else {
        units_trace(units.drop_last()) + unit_trace(units.last())
    }
}

/// A layer's commands: all its solid rectangles, then all its copies.
pub open spec fn layer_trace(l: Layer) -> Seq<DrawCommand> {
    solids_trace(l.solid_rects@) + units_trace(l.texture_units@)
}

/// The scene's commands: layer after layer, from the lowest.
pub open spec fn layers_trace(layers: Seq<Layer>) -> Seq<DrawCommand>
    decreases layers.len(),
{
    if layers.len() == 0 {
        Seq::empty()
    } else {
        layers_trace(layers.drop_last()) + layer_trace(layers.last())
    }
}

/// The source of a copy lies within its texture.
pub open spec fn source_in_bounds(t: TexturedRect, texture: TextureHandle) -> bool {
    let s = t.texture_source_rect;
    &&& s.x >= 0
    &&& s.y >= 0
    &&& s.x + s.w <= texture.width
    &&& s.y + s.h <= texture.height
}

pub open spec fn unit_in_bounds(u: TextureRectRenderingUnit) -> bool {
    forall|i: int|
        0 <= i < u.texture_rects@.len() ==> source_in_bounds(
            #[trigger] u.texture_rects@[i],
            u.texture,
        )
}

pub open spec fn layer_in_bounds(l: Layer) -> bool {
    forall|j: int| 0 <= j < l.texture_units@.len() ==> unit_in_bounds(#[trigger] l.texture_units@[j])
}

/// Every copy of the scene reads within its texture.
pub open spec fn scene_in_bounds(scene: Scene) -> bool {
    forall|k: int| 0 <= k < scene.layers@.len() ==> layer_in_bounds(#[trigger] scene.layers@[k])
}

pub open spec fn debug_trace(textures: UiTexture, debug_mode: bool) -> Seq<DrawCommand> {
    if debug_mode {
        seq![
            DrawCommand::CopyTexture {
                texture: textures.debug.debug_info_labels.id,
                source: None,
                dest: debug_label_rect(),
            },
        ]
    } else {
        Seq::empty()
    }
}

/// The line that marks the selected entry runs along the bottom edge of its
/// label.
pub open spec fn underline(r: Rect) -> DrawCommand {
    DrawCommand::DrawLine {
        from: Point { x: r.x, y: (r.y + r.h) as i32 },
        to: Point { x: (r.x + r.w) as i32, y: (r.y + r.h) as i32 },
        color: selection_color(),
    }
}

pub open spec fn start_menu_trace(textures: UiTexture, menu: StartMenuState) -> Seq<DrawCommand> {
    let selected = match menu.selected_option {
        StartMenuOptions::StartNewGame => start_new_game_rect(),
        StartMenuOptions::ExitGame => exit_game_rect(),
    };
    seq![
        DrawCommand::CopyTexture {
            texture: textures.start.start_new_game_label.id,
            source: None,
            dest: start_new_game_rect(),
        },
        DrawCommand::CopyTexture {
            texture: textures.start.exit_game_label.id,
            source: None,
            dest: exit_game_rect(),
        },
        underline(selected),
    ]
}

pub open spec fn ui_trace(textures: UiTexture, ui: Ui) -> Result<Seq<DrawCommand>, RenderError> {
    match ui {
        Ui::Start(menu) => Ok(start_menu_trace(textures, menu)),
        _ => Err(RenderError::UnimplementedUi(screen_name(ui))),
    }
}

/// A whole frame: clear to black, the scene, the debug overlay when it is
/// on, the active screen, then present. A copy out of its texture's bounds,
/// or a screen without a drawing rule, fails the frame.
pub open spec fn frame_trace(textures: UiTexture, scene: Scene, debug_mode: bool, ui: Ui) -> Result<
    Seq<DrawCommand>,
    RenderError,
> {
    if !scene_in_bounds(scene) {
        Err(RenderError::PrimitiveDraw)
    } else {
        match ui_trace(textures, ui) {
            Err(e) => Err(e),
            Ok(screen) => Ok(
                seq![DrawCommand::Clear { color: background() }] + layers_trace(scene.layers@)
                    + debug_trace(textures, debug_mode) + screen + seq![DrawCommand::Present],
            ),
        }
    }
}

/// The commands of a rendered frame, as a sequence.
pub open spec fn frame_result_view(r: Result<Vec<DrawCommand>, RenderError>) -> Result<
    Seq<DrawCommand>,
    RenderError,
> {
    match r {
        Ok(cmds) => Ok(cmds@),
        Err(e) => Err(e),
    }
}

/// The trace of a scene is an order-preserving flattening: cut its layers
/// anywhere, and the commands of the lower part all come before those of the
/// upper part, each part in its own order.
pub proof fn lemma_layer_order(layers: Seq<Layer>, k: int)
    requires
        0 <= k <= layers.len(),
    ensures
        layers_trace(layers) == layers_trace(layers.take(k)) + layers_trace(layers.skip(k)),
    decreases layers.len(),
{
    if k == layers.len() {
        assert(layers.take(k) =~= layers);
        assert(layers.skip(k) =~= Seq::<Layer>::empty());
        assert(layers_trace(layers) + Seq::<DrawCommand>::empty() =~= layers_trace(layers));
    } else {
        let init = layers.drop_last();
        lemma_layer_order(init, k);
        assert(init.take(k) =~= layers.take(k));
        assert(layers.skip(k).drop_last() =~= init.skip(k));
        assert(layers.skip(k).last() == layers.last());
        assert(layers_trace(layers.take(k)) + layers_trace(init.skip(k)) + layer_trace(layers.last())
            =~= layers_trace(layers.take(k)) + (layers_trace(init.skip(k)) + layer_trace(
            layers.last(),
        )));
    }
}

fn rect(x: i32, y: i32, w: u32, h: u32) -> (r: Rect)
    ensures
        r == (Rect { x, y, w, h }),
{
    Rect { x, y, w, h }
}

impl Layer {
    /// A layer with nothing in it.
    pub fn empty_layer() -> (r: Layer)
        ensures
            r.solid_rects@.len() == 0,
            r.texture_units@.len() == 0,
    {
        Layer { solid_rects: Vec::new(), texture_units: Vec::new() }
    }
}

impl Scene {
    /// A scene of `number_of_layers` empty layers.
    pub fn empty_scene(number_of_layers: usize) -> (r: Scene)
        ensures
            r.layers@.len() == number_of_layers,
            forall|k: int|
                0 <= k < number_of_layers ==> (#[trigger] r.layers@[k]).solid_rects@.len() == 0
                    && r.layers@[k].texture_units@.len() == 0,
    {
        let mut layers: Vec<Layer> = Vec::new();
        let mut i: usize = 0;
        while i < number_of_layers
            invariant
                i <= number_of_layers,
                layers@.len() == i,
                forall|k: int|
                    0 <= k < i ==> (#[trigger] layers@[k]).solid_rects@.len() == 0
                        && layers@[k].texture_units@.len() == 0,
            decreases number_of_layers - i,
        {
            layers.push(Layer::empty_layer());
            i = i + 1;
        }
        Scene { layers }
    }
}

/// Appends the copies of one texture unit; fails, leaving `cmds` in an
/// unspecified state, when a copy reads outside the texture.
fn draw_texture_unit(unit: &TextureRectRenderingUnit, cmds: &mut Vec<DrawCommand>) -> (ok: bool)
    ensures
        ok == unit_in_bounds(*unit),
        ok ==> final(cmds)@ == old(cmds)@ + unit_trace(*unit),
{
    let rects = &unit.texture_rects;
    let texture = unit.texture;
    let mut i: usize = 0;
    while i < rects.len()
        invariant
            i <= rects@.len(),
            rects == &unit.texture_rects,
            texture == unit.texture,
            forall|k: int| 0 <= k < i ==> source_in_bounds(#[trigger] rects@[k], texture),
            cmds@ == old(cmds)@ + copies_trace(texture.id, rects@.take(i as int)),
        decreases rects.len() - i,
    {
        let t = rects[i];
        let s = t.texture_source_rect;
        if !(s.x >= 0 && s.y >= 0 && s.x as i64 + s.w as i64 <= texture.width as i64 && s.y as i64
            + s.h as i64 <= texture.height as i64) {
            return false;
        }
        cmds.push(
            DrawCommand::CopyTexture { texture: texture.id, source: Some(s), dest: t.render_rect },
        );
        proof {
            assert(copies_trace(texture.id, rects@.take(i + 1)) =~= copies_trace(
                texture.id,
                rects@.take(i as int),
            ).push(copy_command(texture.id, t)));
        }
        i = i + 1;
    }
    proof {
        assert(rects@.take(i as int) =~= rects@);
    }
    true
}

/// Appends a layer's commands: its solid rectangles, then its texture units;
/// fails, leaving `cmds` in an unspecified state, when a copy reads outside
/// its texture.
fn draw_layer(layer: &Layer, cmds: &mut Vec<DrawCommand>) -> (ok: bool)
    ensures
        ok == layer_in_bounds(*layer),
        ok ==> final(cmds)@ == old(cmds)@ + layer_trace(*layer),
{
    let solids = &layer.solid_rects;
    let mut i: usize = 0;
    while i < solids.len()
        invariant
            i <= solids@.len(),
            solids == &layer.solid_rects,
            cmds@ == old(cmds)@ + solids_trace(solids@.take(i as int)),
        decreases solids.len() - i,
    {
        let s = solids[i];
        cmds.push(DrawCommand::FillRect { rect: s.rect, color: s.fill_color });
        proof {
            assert(solids_trace(solids@.take(i + 1)) =~= solids_trace(solids@.take(i as int)).push(
                solid_command(s),
            ));
        }
        i = i + 1;
    }
    proof {
        assert(solids@.take(i as int) =~= solids@);
    }
    let units = &layer.texture_units;
    let ghost after_solids = cmds@;
    let mut j: usize = 0;
    while j < units.len()
        invariant
            j <= units@.len(),
            units == &layer.texture_units,
            forall|k: int| 0 <= k < j ==> unit_in_bounds(#[trigger] units@[k]),
            cmds@ == after_solids + units_trace(units@.take(j as int)),
        decreases units.len() - j,
    {
        if !draw_texture_unit(&units[j], cmds) {
            return false;
        }
        proof {
            assert(units@.take(j + 1).drop_last() =~= units@.take(j as int));
        }
        j = j + 1;
    }
    proof {
        assert(units@.take(j as int) =~= units@);
    }
    true
}

/// The renderer: it owns the pre-rendered labels of the screens.
pub struct DrawSystem {
    ui_textures: UiTexture,
}

impl DrawSystem {
    /// The labels the renderer draws with.
    pub closed spec fn textures(&self) -> UiTexture {
        self.ui_textures
    }

    pub fn init(ui_textures: UiTexture) -> (r: DrawSystem)
        ensures
            r.textures() == ui_textures,
    {
        DrawSystem { ui_textures }
    }

    /// Renders one frame: clears to black; draws the layers from the lowest,
    /// each one's solid rectangles before its textured copies, in order;
    /// overlays the debug label when `debug_mode` is on; draws the active
    /// screen; presents. On failure no command is handed out.
    pub fn draw_function(&self, scene: &Scene, debug_mode: bool, ui: &Ui) -> (r: Result<
        Vec<DrawCommand>,
        RenderError,
    >)
        ensures
            frame_result_view(r) == frame_trace(self.textures(), *scene, debug_mode, *ui),
    {
        let mut cmds: Vec<DrawCommand> = Vec::new();
        cmds.push(DrawCommand::Clear { color: Color { r: 0, g: 0, b: 0, a: 255 } });
        let ghost after_clear = cmds@;
        let layers = &scene.layers;
        let mut k: usize = 0;
        while k < layers.len()
            invariant
                k <= layers@.len(),
                layers == &scene.layers,
                forall|m: int| 0 <= m < k ==> layer_in_bounds(#[trigger] layers@[m]),
                cmds@ == after_clear + layers_trace(layers@.take(k as int)),
            decreases layers.len() - k,
        {
            if !draw_layer(&layers[k], &mut cmds) {
                return Err(RenderError::PrimitiveDraw);
            }
            proof {
                assert(layers@.take(k + 1).drop_last() =~= layers@.take(k as int));
            }
            k = k + 1;
        }
        proof {
            assert(layers@.take(k as int) =~= layers@);
        }
        if debug_mode {
            self.draw_debug(&mut cmds);
        }
        let drawn = self.draw_ui(ui, &mut cmds);
        match drawn {
            Err(e) => Err(e),
            Ok(()) => {
                cmds.push(DrawCommand::Present);
                proof {
                    assert(cmds@ =~= seq![DrawCommand::Clear { color: background() }]
                        + layers_trace(scene.layers@) + debug_trace(self.textures(), debug_mode)
                        + start_menu_trace(self.textures(), ui->Start_0) + seq![DrawCommand::Present]);
                }
                Ok(cmds)
            },
        }
    }

    fn draw_ui(&self, ui: &Ui, cmds: &mut Vec<DrawCommand>) -> (r: Result<(), RenderError>)
        ensures
            match ui_trace(self.textures(), *ui) {
                Ok(screen) => r is Ok && final(cmds)@ == old(cmds)@ + screen,
                Err(e) => r == Err::<(), RenderError>(e),
            },
    {
        match ui {
            Ui::Start(menu) => {
                self.draw_start_menu(menu, cmds);
                Ok(())
            },
            _ => Err(RenderError::UnimplementedUi(ui.screen_name())),
        }
    }

    fn draw_debug(&self, cmds: &mut Vec<DrawCommand>)
        ensures
            final(cmds)@ == old(cmds)@ + debug_trace(self.textures(), true),
    {
        let dest_rect = rect(20, 20, 200, 20);
        cmds.push(
            DrawCommand::CopyTexture {
                texture: self.ui_textures.debug.debug_info_labels.id,
                source: None,
                dest: dest_rect,
            },
        );
        proof {
            assert(final(cmds)@ =~= old(cmds)@ + debug_trace(self.textures(), true));
        }
    }

    fn draw_start_menu(&self, menu: &StartMenuState, cmds: &mut Vec<DrawCommand>)
        ensures
            final(cmds)@ == old(cmds)@ + start_menu_trace(self.textures(), *menu),
    {
        let start_new_game_rect = rect(60, 40, 200, 20);
        let exit_rect = rect(60, 80, 200, 20);
        cmds.push(
            DrawCommand::CopyTexture {
                texture: self.ui_textures.start.start_new_game_label.id,
                source: None,
                dest: start_new_game_rect,
            },
        );
        cmds.push(
            DrawCommand::CopyTexture {
                texture: self.ui_textures.start.exit_game_label.id,
                source: None,
                dest: exit_rect,
            },
        );
        let selected = match menu.selected_option {
            StartMenuOptions::StartNewGame => start_new_game_rect,
            StartMenuOptions::ExitGame => exit_rect,
        };
        let bottom = selected.y + selected.h as i32;
        cmds.push(
            DrawCommand::DrawLine {
                from: Point { x: selected.x, y: bottom },
                to: Point { x: selected.x + selected.w as i32, y: bottom },
                color: Color { r: 255, g: 0, b: 0, a: 255 },
            },
        );
        proof {
            assert(final(cmds)@ =~= old(cmds)@ + start_menu_trace(self.textures(), *menu));
        }
    }
}

} // verus!
