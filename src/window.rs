//! The window frame: a 9-slice border built once from a skin atlas, an
//! open/close animation, the palette held in the skin, and the content
//! surface that the text engine draws into.

use vstd::prelude::*;

use crate::graphics::{Color, DrawOp, IntRect, Placement};

verus! {

/// Inner padding between the frame's edge and its content surface.
pub const CONTENT_PADDING: u32 = 5;

/// Openness is counted in steps of one fifth: 0 is closed, 5 fully open.
pub const OPENNESS_STEPS: u32 = 5;

/// Offset of the content layer from the frame layer.
pub const CONTENT_OFFSET: u32 = 4;

/// Full opacity.
pub const OPAQUE: u8 = 255;

/// The animation phase of a window.
#[derive(Clone, Copy, Debug, PartialEq, Eq, Structural)]
pub enum WindowState {
    Opening,
    Static,
    Closing,
}

/// The pixels of a window skin atlas, row-major. Besides the frame tiles it
/// holds 32 palette swatches of 8x8 pixels, 8 per row, from (64, 96).
pub struct Skin {
    pub width: u32,
    pub height: u32,
    pub pixels: Vec<Color>,
}

impl Skin {
    /// The pixels fill the stated size, and the size covers the atlas layout.
    pub open spec fn is_valid(&self) -> bool {
        &&& self.width >= 128
        &&& self.height >= 128
        &&& self.pixels.len() == self.width as int * self.height as int
    }

    pub open spec fn pixel(&self, x: int, y: int) -> Color {
        self.pixels@[y * self.width + x]
    }

    /// The colour of palette swatch `id` (for `id < 32`).
    pub open spec fn swatch(&self, id: int) -> Color {
        self.pixel(64 + (id % 8) * 8, 96 + (id / 8) * 8)
    }

    pub fn is_well_formed(&self) -> (r: bool)
        ensures
            r == self.is_valid(),
    {
        proof {
            assert(self.width as int * self.height as int <= u32::MAX as int * u32::MAX as int)
                by (nonlinear_arith)
                requires self.width <= u32::MAX, self.height <= u32::MAX;
        }
        let area: u64 = self.width as u64 * self.height as u64;
        self.width >= 128 && self.height >= 128 && self.pixels.len() as u64 == area
    }

    pub fn get_pixel(&self, x: u32, y: u32) -> (r: Color)
        requires
            self.is_valid(),
            x < self.width,
            y < self.height,
        ensures
            r == self.pixel(x as int, y as int),
    {
        proof {
            assert(y * self.width + x < self.width as int * self.height as int)
                by (nonlinear_arith)
                requires x < self.width, y < self.height;
        }
        self.pixels[y as usize * self.width as usize + x as usize]
    }
}

/// A tile of the skin atlas stretched onto a rectangle of the frame surface.
#[derive(Clone, Copy, Debug, PartialEq, Eq, Structural)]
pub struct FramePiece {
    pub source: IntRect,
    pub dest: Placement,
}

/// How one surface is composited: its origin is the centre of the frame
/// (`width / 2`, `height / 2`), it is placed at `(x + width / 2, y + height / 2)`,
/// scaled vertically by `openness / OPENNESS_STEPS`, and drawn with `alpha`.
#[derive(Clone, Copy, Debug, PartialEq, Eq, Structural)]
pub struct Layer {
    pub x: i64,
    pub y: i64,
    pub width: u32,
    pub height: u32,
    pub openness: u32,
    pub alpha: u8,
}

pub open spec fn piece(sx: u32, sy: u32, sw: u32, sh: u32, dx: int, dy: int, dw: int, dh: int) -> FramePiece {
    FramePiece {
        source: IntRect { left: sx, top: sy, width: sw, height: sh },
        dest: Placement { x: dx as i64, y: dy as i64, width: dw as i64, height: dh as i64 },
    }
}

/// The 9-slice frame of a `w` x `h` window in drawing order: the background
/// stretched over the interior, the four 16x16 corners, then the top and
/// bottom 32x16 edges stretched across and the left and right 16x32 edges
/// stretched down between the corners.
pub open spec fn frame_layout(w: int, h: int) -> Seq<FramePiece> {
    let pad = CONTENT_PADDING as int;
    seq![
        piece(0, 0, 64, 64, pad / 2, pad / 2, w - pad, h - pad),
        piece(64, 0, 16, 16, 0, 0, 16, 16),
        piece(112, 0, 16, 16, w - 16, 0, 16, 16),
        piece(64, 48, 16, 16, 0, h - 16, 16, 16),
        piece(112, 48, 16, 16, w - 16, h - 16, 16, 16),
        piece(80, 0, 32, 16, 16, 0, w - 32, 16),
        piece(80, 48, 32, 16, 16, h - 16, w - 32, 16),
        piece(64, 16, 16, 32, 0, 16, 16, h - 32),
        piece(112, 16, 16, 32, w - 16, 16, 16, h - 32),
    ]
}

/// The 32 palette colours of a skin.
pub open spec fn palette_of(skin: Skin) -> Seq<Color> {
    Seq::new(32, |i: int| skin.swatch(i))
}

/// What a window is, as plain values.
pub struct WindowView {
    pub frame: Seq<FramePiece>,
    pub contents: Seq<DrawOp>,
    pub palette: Seq<Color>,
    pub x: i32,
    pub y: i32,
    pub width: u32,
    pub height: u32,
    pub content_width: u32,
    pub content_height: u32,
    pub content_x: u32,
    pub content_y: u32,
    pub visible: bool,
    pub window_alpha: u8,
    pub content_alpha: u8,
    pub openness: u32,
    pub state: WindowState,
}

impl WindowView {
    /// A window at (x, y) of `width` x `height` pixels, closed and opening,
    /// its frame built from `skin` and its content surface blank.
    pub open spec fn initial(skin: Skin, x: i32, y: i32, width: u32, height: u32) -> WindowView {
        WindowView {
            frame: frame_layout(width as int, height as int),
            contents: Seq::empty(),
            palette: palette_of(skin),
            x,
            y,
            width,
            height,
            content_width: (width - 2 * CONTENT_PADDING) as u32,
            content_height: (height - 2 * CONTENT_PADDING) as u32,
            content_x: CONTENT_OFFSET,
            content_y: CONTENT_OFFSET,
            visible: true,
            window_alpha: OPAQUE,
            content_alpha: OPAQUE,
            openness: 0,
            state: WindowState::Opening,
        }
    }

    pub open spec fn wf(self) -> bool {
        &&& self.openness <= OPENNESS_STEPS
        &&& self.palette.len() == 32
    }

    pub open spec fn is_open(self) -> bool {
        self.openness >= OPENNESS_STEPS
    }

    /// One tick of the animation: opening and closing move openness one
    /// step and settle to `Static` once it reaches its end.
    pub open spec fn step(self) -> WindowView {
        match self.state {
            WindowState::Opening => {
                let o = if self.openness < OPENNESS_STEPS { self.openness + 1 } else { self.openness as int };
                if o >= OPENNESS_STEPS {
                    WindowView { openness: OPENNESS_STEPS, state: WindowState::Static, ..self }
                } else {
                    WindowView { openness: o as u32, ..self }
                }
            },
            WindowState::Closing => {
                let o = if self.openness > 0 { self.openness - 1 } else { self.openness as int };
                if o <= 0 {
                    WindowView { openness: 0, state: WindowState::Static, ..self }
                } else {
                    WindowView { openness: o as u32, ..self }
                }
            },
            WindowState::Static => self,
        }
    }

    /// The palette colour for `id`; an id past the palette gives colour 0.
    pub open spec fn color(self, id: int) -> Color {
        if 0 <= id < 32 { self.palette[id] } else { self.palette[0] }
    }
}

/// The window after `n` ticks.
pub open spec fn window_steps(v: WindowView, n: nat) -> WindowView
    decreases n,
{
    if n == 0 { v } else { window_steps(v, (n - 1) as nat).step() }
}

pub struct Window {
    frame: Vec<FramePiece>,
    contents: Vec<DrawOp>,
    palette: Vec<Color>,
    x: i32,
    y: i32,
    width: u32,
    height: u32,
    content_width: u32,
    content_height: u32,
    content_x: u32,
    content_y: u32,
    visible: bool,
    window_alpha: u8,
    content_alpha: u8,
    openness: u32,
    state: WindowState,
}

impl View for Window {
    type V = WindowView;

    closed spec fn view(&self) -> WindowView {
        WindowView {
            frame: self.frame@,
            contents: self.contents@,
            palette: self.palette@,
            x: self.x,
            y: self.y,
            width: self.width,
            height: self.height,
            content_width: self.content_width,
            content_height: self.content_height,
            content_x: self.content_x,
            content_y: self.content_y,
            visible: self.visible,
            window_alpha: self.window_alpha,
            content_alpha: self.content_alpha,
            openness: self.openness,
            state: self.state,
        }
    }
}

impl Window {
    /// A window at (x, y) of `width` x `height` pixels, closed and opening,
    /// its frame built from `skin` and its content surface blank.
    pub fn new(skin: &Skin, x: i32, y: i32, width: u32, height: u32) -> (r: Window)
        requires
            skin.is_valid(),
            width >= 2 * CONTENT_PADDING,
            height >= 2 * CONTENT_PADDING,
        ensures
            r@.wf(),
            r@ == WindowView::initial(*skin, x, y, width, height),
    {
        Window {
            frame: Self::produce_window(width, height),
            contents: Vec::new(),
            palette: Self::read_palette(skin),
            x,
            y,
            width,
            height,
            content_width: width - 2 * CONTENT_PADDING,
            content_height: height - 2 * CONTENT_PADDING,
            content_x: CONTENT_OFFSET,
            content_y: CONTENT_OFFSET,
            visible: true,
            window_alpha: OPAQUE,
            content_alpha: OPAQUE,
            openness: 0,
            state: WindowState::Opening,
        }
    }

    fn new_piece(sx: u32, sy: u32, sw: u32, sh: u32, dx: i64, dy: i64, dw: i64, dh: i64) -> (r: FramePiece)
        ensures
            r == piece(sx, sy, sw, sh, dx as int, dy as int, dw as int, dh as int),
    {
        FramePiece {
            source: IntRect { left: sx, top: sy, width: sw, height: sh },
            dest: Placement { x: dx, y: dy, width: dw, height: dh },
        }
    }

    /// The pieces of the frame surface of a `width` x `height` window.
    fn produce_window(width: u32, height: u32) -> (r: Vec<FramePiece>)
        ensures
            r@ == frame_layout(width as int, height as int),
    {
        let w = width as i64;
        let h = height as i64;
        let pad = CONTENT_PADDING as i64;
        let mut pieces: Vec<FramePiece> = Vec::new();
        pieces.push(Self::new_piece(0, 0, 64, 64, pad / 2, pad / 2, w - pad, h - pad));
        pieces.push(Self::new_piece(64, 0, 16, 16, 0, 0, 16, 16));
        pieces.push(Self::new_piece(112, 0, 16, 16, w - 16, 0, 16, 16));
        pieces.push(Self::new_piece(64, 48, 16, 16, 0, h - 16, 16, 16));
        pieces.push(Self::new_piece(112, 48, 16, 16, w - 16, h - 16, 16, 16));
        pieces.push(Self::new_piece(80, 0, 32, 16, 16, 0, w - 32, 16));
        pieces.push(Self::new_piece(80, 48, 32, 16, 16, h - 16, w - 32, 16));
        pieces.push(Self::new_piece(64, 16, 16, 32, 0, 16, 16, h - 32));
        pieces.push(Self::new_piece(112, 16, 16, 32, w - 16, 16, 16, h - 32));
        assert(pieces@ =~= frame_layout(width as int, height as int));
        pieces
    }

    /// Reads the 32 palette swatches of the skin, row by row.
    fn read_palette(skin: &Skin) -> (r: Vec<Color>)
        requires
            skin.is_valid(),
        ensures
            r@ == palette_of(*skin),
    {
        let mut palette: Vec<Color> = Vec::new();
        let mut id: u32 = 0;
        while id < 32
            invariant
                skin.is_valid(),
                id <= 32,
                palette@.len() == id,
                forall|i: int| 0 <= i < id ==> palette@[i] == skin.swatch(i),
            decreases 32 - id,
        {
            let row = id / 8;
            let col = id % 8;
            let c = skin.get_pixel(64 + col * 8, 96 + row * 8);
            palette.push(c);
            id = id + 1;
        }
        assert(palette@ =~= palette_of(*skin));
        palette
    }

    /// The pieces that make up the frame surface, in drawing order.
    pub fn get_frame(&self) -> (r: &Vec<FramePiece>)
        ensures
            r@ == self@.frame,
    {
        &self.frame
    }

    /// What has been drawn on the content surface since it was last cleared.
    pub fn get_contents(&self) -> (r: &Vec<DrawOp>)
        ensures
            r@ == self@.contents,
    {
        &self.contents
    }

    /// Draws one more thing on the content surface.
    pub fn draw_content(&mut self, op: DrawOp)
        ensures
            final(self)@ == (WindowView { contents: old(self)@.contents.push(op), ..old(self)@ }),
    {
        self.contents.push(op);
    }

    /// Clears the content surface to fully transparent.
    pub fn clear_contents(&mut self)
        ensures
            final(self)@ == (WindowView { contents: Seq::empty(), ..old(self)@ }),
    {
        self.contents = Vec::new();
    }

    /// One tick of the open/close animation.
    pub fn update(&mut self)
        requires
            old(self)@.wf(),
        ensures
            final(self)@ == old(self)@.step(),
            final(self)@.wf(),
    {
        match self.state {
            WindowState::Opening => {
                if self.openness < OPENNESS_STEPS {
                    self.openness = self.openness + 1;
                }
                if self.openness >= OPENNESS_STEPS {
                    self.openness = OPENNESS_STEPS;
                    self.state = WindowState::Static;
                }
            },
            WindowState::Closing => {
                if self.openness > 0 {
                    self.openness = self.openness - 1;
                }
                if self.openness == 0 {
                    self.state = WindowState::Static;
                }
            },
            WindowState::Static => {},
        }
    }

    /// Sets the animation phase, to open or close the window.
    pub fn set_state(&mut self, new_state: WindowState)
        ensures
            final(self)@ == (WindowView { state: new_state, ..old(self)@ }),
    {
        self.state = new_state;
    }

    pub fn set_visible(&mut self, visible: bool)
        ensures
            final(self)@ == (WindowView { visible, ..old(self)@ }),
    {
        self.visible = visible;
    }

    pub fn get_state(&self) -> (r: WindowState)
        ensures
            r == self@.state,
    {
        self.state
    }

    /// Openness in fifths.
    pub fn get_openness(&self) -> (r: u32)
        ensures
            r == self@.openness,
    {
        self.openness
    }

    pub fn is_open(&self) -> (r: bool)
        ensures
            r == self@.is_open(),
    {
        self.openness >= OPENNESS_STEPS
    }

    /// The palette colour `id`; an id of 32 or more gives colour 0.
    pub fn get_color(&self, id: u32) -> (r: Color)
        requires
            self@.wf(),
        ensures
            r == self@.color(id as int),
    {
        if id >= 32 {
            self.palette[0]
        } else {
            self.palette[id as usize]
        }
    }

    /// How the frame surface and then the content surface are composited;
    /// the content is drawn last, on top.
    pub fn layers(&self) -> (r: (Layer, Layer))
        ensures
            r.0 == (Layer {
                x: self@.x as i64,
                y: self@.y as i64,
                width: self@.width,
                height: self@.height,
                openness: self@.openness,
                alpha: self@.window_alpha,
            }),
            r.1 == (Layer {
                x: (self@.x + self@.content_x) as i64,
                y: (self@.y + self@.content_y) as i64,
                width: self@.width,
                height: self@.height,
                openness: self@.openness,
                alpha: self@.content_alpha,
            }),
    {
        let frame = Layer {
            x: self.x as i64,
            y: self.y as i64,
            width: self.width,
            height: self.height,
            openness: self.openness,
            alpha: self.window_alpha,
        };
        let content = Layer {
            x: self.x as i64 + self.content_x as i64,
            y: self.y as i64 + self.content_y as i64,
            width: self.width,
            height: self.height,
            openness: self.openness,
            alpha: self.content_alpha,
        };
        (frame, content)
    }
}

/// Every tick keeps openness within [0, OPENNESS_STEPS].
pub proof fn lemma_step_keeps_bounds(v: WindowView, n: nat)
    requires
        v.wf(),
    ensures
        window_steps(v, n).wf(),
        window_steps(v, n).openness <= OPENNESS_STEPS,
    decreases n,
{
    if n > 0 {
        lemma_step_keeps_bounds(v, (n - 1) as nat);
    }
}

proof fn lemma_opening_progress(v: WindowView, k: nat)
    requires
        v.wf(),
        v.openness == 0,
        v.state == WindowState::Opening,
        k < OPENNESS_STEPS,
    ensures
        window_steps(v, k) == (WindowView { openness: k as u32, ..v }),
    decreases k,
{
    if k > 0 {
        lemma_opening_progress(v, (k - 1) as nat);
    }
}

/// A window that starts closed and opening is fully open and `Static` after
/// exactly `OPENNESS_STEPS` ticks, opening one step per tick before that,
/// and its openness never leaves [0, OPENNESS_STEPS] on any tick.
pub proof fn lemma_opening_takes_five_ticks(v: WindowView)
    requires
        v.wf(),
        v.openness == 0,
        v.state == WindowState::Opening,
    ensures
        forall|k: nat| k < OPENNESS_STEPS ==> (#[trigger] window_steps(v, k)).openness == k
            && window_steps(v, k).state == WindowState::Opening,
        window_steps(v, OPENNESS_STEPS as nat).openness == OPENNESS_STEPS,
        window_steps(v, OPENNESS_STEPS as nat).state == WindowState::Static,
        forall|n: nat| (#[trigger] window_steps(v, n)).openness <= OPENNESS_STEPS,
{
    assert forall|k: nat| k < OPENNESS_STEPS implies (#[trigger] window_steps(v, k)).openness == k
        && window_steps(v, k).state == WindowState::Opening by {
        lemma_opening_progress(v, k);
    }
    lemma_opening_progress(v, 4);
    assert forall|n: nat| (#[trigger] window_steps(v, n)).openness <= OPENNESS_STEPS by {
        lemma_step_keeps_bounds(v, n);
    }
}

/// A palette id past the palette always gives the same colour as id 0.
pub proof fn lemma_color_fallback(v: WindowView, id: int)
    requires
        v.wf(),
        id >= 32,
    ensures
        v.color(id) == v.color(0),
{
}

} // verus!
