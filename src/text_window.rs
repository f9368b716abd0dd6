//! The typewriter engine: reveals a text into a window's content surface one
//! character per tick, reading inline escape codes that draw icons, change
//! the style or pause the reveal.

use vstd::prelude::*;
use vstd::string::StrSliceExecFns;

use crate::escape_code::{
    code_resume, escape_code_spec, lemma_code_resume_bounds, read_escape_code, EscapeCode,
};
use crate::game_settings_manager::GameSettingsManager;
use crate::graphics::{sat_add, saturating_add, Color, DrawOp};
use crate::iconset::Iconset;
use crate::window::{Window, WindowState, WindowView};

verus! {

/// The character that starts an escape code.
pub const ESCAPE: char = '\\';

/// The colour of text before any colour code.
pub open spec fn white() -> Color {
    Color { r: 255, g: 255, b: 255, a: 255 }
}

/// The phase of a reveal.
#[derive(Clone, Copy, Debug, PartialEq, Eq, Structural)]
pub enum TextWindowState {
    Typing,
    /// Ticks left before typing resumes.
    Paused(u32),
    Done,
}

/// An escape code with its colour resolved against the window's palette.
#[derive(Clone, Copy, Debug, PartialEq, Eq, Structural)]
pub enum TextCode {
    Icon(usize),
    ChangeColor(Color),
    ChangeSize(u32),
    Pause(u32),
    Unknown,
}

/// What a text window is, as plain values.
pub struct TextWindowView {
    pub window: WindowView,
    pub icons: Iconset,
    pub target: Seq<char>,
    /// How many characters of `target` have been read.
    pub revealed: nat,
    /// The characters drawn so far, in order.
    pub drawn: Seq<char>,
    pub state: TextWindowState,
    pub pen_x: u32,
    pub pen_y: u32,
    pub font_size: u32,
    pub color: Color,
}

impl TextWindowView {
    pub open spec fn wf(self) -> bool {
        &&& self.window.wf()
        &&& self.icons.is_valid()
        &&& self.revealed <= self.target.len()
        &&& (self.state matches TextWindowState::Paused(n) ==> n > 0)
    }

    /// Typing happens only while the frame is settled and fully open.
    pub open spec fn frame_ready(self) -> bool {
        self.window.state == WindowState::Static && self.window.is_open()
    }

    pub open spec fn resolve(self, code: EscapeCode) -> TextCode {
        match code {
            EscapeCode::Icon(i) => TextCode::Icon(i),
            EscapeCode::Color(id) => TextCode::ChangeColor(self.window.color(id as int)),
            EscapeCode::Size(s) => TextCode::ChangeSize(s),
            EscapeCode::Pause(n) => TextCode::Pause(n),
            EscapeCode::Unknown => TextCode::Unknown,
        }
    }

    /// An icon is drawn at the pen, which moves past it; a pause of no ticks
    /// does nothing.
    pub open spec fn apply(self, code: TextCode) -> TextWindowView {
        match code {
            TextCode::Icon(i) => {
                let source = self.icons.cell(i as int);
                TextWindowView {
                    window: WindowView {
                        contents: self.window.contents.push(
                            DrawOp::Icon { source, x: self.pen_x, y: self.pen_y },
                        ),
                        ..self.window
                    },
                    pen_x: sat_add(self.pen_x, source.width),
                    ..self
                }
            },
            TextCode::ChangeColor(c) => TextWindowView { color: c, ..self },
            TextCode::ChangeSize(s) => TextWindowView { font_size: s, ..self },
            TextCode::Pause(n) => if n > 0 {
                TextWindowView { state: TextWindowState::Paused(n), ..self }
            } else {
                self
            },
            TextCode::Unknown => self,
        }
    }

    /// Reads the next character: an escape code is read whole and applied, a
    /// newline moves the pen to the start of the next line, anything else is
    /// drawn at the pen. Reading the last character ends the reveal.
    pub open spec fn type_next(self) -> TextWindowView {
        if self.revealed >= self.target.len() {
            TextWindowView { state: TextWindowState::Done, ..self }
        } else {
            let r: int = self.revealed as int + 1;
            let ch = self.target[r - 1];
            let t = if ch == ESCAPE {
                let code = escape_code_spec(self.target, r);
                TextWindowView {
                    revealed: code_resume(self.target, r) as nat,
                    ..self
                }.apply(self.resolve(code))
            } else if ch == '\n' {
                TextWindowView {
                    revealed: r as nat,
                    pen_x: 0,
                    pen_y: sat_add(self.pen_y, self.font_size),
                    ..self
                }
            } else {
                TextWindowView {
                    revealed: r as nat,
                    drawn: self.drawn.push(ch),
                    window: WindowView {
                        contents: self.window.contents.push(
                            DrawOp::Glyph {
                                ch,
                                x: self.pen_x,
                                y: self.pen_y,
                                size: self.font_size,
                                color: self.color,
                            },
                        ),
                        ..self.window
                    },
                    ..self
                }
            };
            if t.revealed == t.target.len() {
                TextWindowView { state: TextWindowState::Done, ..t }
            } else {
                t
            }
        }
    }

    /// One tick of the reveal, the frame's animation aside.
    pub open spec fn typed(self) -> TextWindowView {
        match self.state {
            TextWindowState::Typing => self.type_next(),
            TextWindowState::Paused(n) => if n <= 1 {
                TextWindowView { state: TextWindowState::Typing, ..self }
            } else {
                TextWindowView { state: TextWindowState::Paused((n - 1) as u32), ..self }
            },
            TextWindowState::Done => self,
        }
    }

    /// One tick: the reveal moves on if the frame is ready, then the frame
    /// animates.
    pub open spec fn step(self) -> TextWindowView {
        let t = if self.frame_ready() { self.typed() } else { self };
        TextWindowView { window: t.window.step(), ..t }
    }
}

/// The text window after `n` ticks.
pub open spec fn text_steps(v: TextWindowView, n: nat) -> TextWindowView
    decreases n,
{
    if n == 0 { v } else { text_steps(v, (n - 1) as nat).step() }
}

pub struct TextWindow {
    window: Window,
    iconset: Iconset,
    target_text: Vec<char>,
    current_text: Vec<char>,
    current_character: usize,
    state: TextWindowState,
    current_pos_x: u32,
    current_pos_y: u32,
    font_size: u32,
    color: Color,
}

impl View for TextWindow {
    type V = TextWindowView;

    closed spec fn view(&self) -> TextWindowView {
        TextWindowView {
            window: self.window@,
            icons: self.iconset,
            target: self.target_text@,
            revealed: self.current_character as nat,
            drawn: self.current_text@,
            state: self.state,
            pen_x: self.current_pos_x,
            pen_y: self.current_pos_y,
            font_size: self.font_size,
            color: self.color,
        }
    }
}

/// The characters of `s`, in order.
fn chars_of(s: &str) -> (r: Vec<char>)
    ensures
        r@ == s@,
{
    let n = s.unicode_len();
    let mut v: Vec<char> = Vec::new();
    let mut i: usize = 0;
    while i < n
        invariant
            n == s@.len(),
            i <= n,
            v@ == s@.subrange(0, i as int),
        decreases n - i,
    {
        v.push(s.get_char(i));
        i = i + 1;
    }
    assert(v@ =~= s@);
    v
}

impl TextWindow {
    /// A text window over a new frame at (x, y) of `width` x `height` pixels,
    /// about to type `text` in white at the default size.
    pub fn new(settings: &GameSettingsManager, text: &str, x: i32, y: i32, width: u32, height: u32) -> (r: TextWindow)
        requires
            settings.is_valid(),
            width >= 2 * crate::window::CONTENT_PADDING,
            height >= 2 * crate::window::CONTENT_PADDING,
        ensures
            r@.wf(),
            r@ == (TextWindowView {
                window: WindowView::initial(settings.window_skin, x, y, width, height),
                icons: settings.iconset,
                target: text@,
                revealed: 0,
                drawn: Seq::empty(),
                state: TextWindowState::Typing,
                pen_x: 0,
                pen_y: 0,
                font_size: settings.default_font_size,
                color: white(),
            }),
    {
        TextWindow {
            window: Window::new(&settings.window_skin, x, y, width, height),
            iconset: settings.iconset,
            target_text: chars_of(text),
            current_text: Vec::new(),
            current_character: 0,
            state: TextWindowState::Typing,
            current_pos_x: 0,
            current_pos_y: 0,
            font_size: settings.default_font_size,
            color: Color { r: 255, g: 255, b: 255, a: 255 },
        }
    }

    /// One tick: if the frame is settled and fully open the reveal moves on
    /// by one character or one pause tick; then the frame animates.
    pub fn update(&mut self)
        requires
            old(self)@.wf(),
        ensures
            final(self)@ == old(self)@.step(),
            final(self)@.wf(),
    {
        if self.window.get_state() == WindowState::Static && self.window.is_open() {
            match self.state {
                TextWindowState::Typing => self.type_next(),
                TextWindowState::Paused(n) => {
                    if n <= 1 {
                        self.state = TextWindowState::Typing;
                    } else {
                        self.state = TextWindowState::Paused(n - 1);
                    }
                },
                TextWindowState::Done => {},
            }
        }
        self.window.update();
    }

    fn type_next(&mut self)
        requires
            old(self)@.wf(),
            old(self)@.state == TextWindowState::Typing,
        ensures
            final(self)@ == old(self)@.type_next(),
            final(self)@.wf(),
    {
        if self.current_character >= self.target_text.len() {
            self.state = TextWindowState::Done;
            return;
        }
        self.current_character = self.current_character + 1;
        let character = self.target_text[self.current_character - 1];
        if character == ESCAPE {
            let (code, resume) = self.parse_escape_code();
            self.current_character = resume;
            self.execute_code(code);
        } else if character == '\n' {
            self.current_pos_y = saturating_add(self.current_pos_y, self.font_size);
            self.current_pos_x = 0;
        } else {
            self.current_text.push(character);
            self.window.draw_content(
                DrawOp::Glyph {
                    ch: character,
                    x: self.current_pos_x,
                    y: self.current_pos_y,
                    size: self.font_size,
                    color: self.color,
                },
            );
        }
        if self.current_character == self.target_text.len() {
            self.state = TextWindowState::Done;
        }
    }

    /// Reads the escape code whose body starts at the current character, and
    /// gives it with the index where reading resumes.
    fn parse_escape_code(&self) -> (r: (TextCode, usize))
        requires
            self@.wf(),
        ensures
            r.0 == self@.resolve(escape_code_spec(self@.target, self@.revealed as int)),
            r.1 as int == code_resume(self@.target, self@.revealed as int),
    {
        let (code, resume) = read_escape_code(&self.target_text, self.current_character);
        let resolved = match code {
            EscapeCode::Icon(i) => TextCode::Icon(i),
            EscapeCode::Color(id) => TextCode::ChangeColor(self.window.get_color(id)),
            EscapeCode::Size(s) => TextCode::ChangeSize(s),
            EscapeCode::Pause(n) => TextCode::Pause(n),
            EscapeCode::Unknown => TextCode::Unknown,
        };
        (resolved, resume)
    }

    fn execute_code(&mut self, code: TextCode)
        requires
            old(self)@.wf(),
        ensures
            final(self)@ == old(self)@.apply(code),
            final(self)@.wf(),
    {
        match code {
            TextCode::Icon(id) => {
                let icon = self.iconset.get(id);
                self.window.draw_content(
                    DrawOp::Icon { source: icon, x: self.current_pos_x, y: self.current_pos_y },
                );
                self.current_pos_x = saturating_add(self.current_pos_x, icon.width);
            },
            TextCode::ChangeColor(color) => {
                self.color = color;
            },
            TextCode::ChangeSize(size) => {
                self.font_size = size;
            },
            TextCode::Pause(duration) => {
                if duration > 0 {
                    self.state = TextWindowState::Paused(duration);
                }
            },
            TextCode::Unknown => {},
        }
    }

    /// Moves the pen right past a glyph just drawn, by its rendered width.
    pub fn advance_pen(&mut self, width: u32)
        ensures
            final(self)@ == (TextWindowView { pen_x: sat_add(old(self)@.pen_x, width), ..old(self)@ }),
    {
        self.current_pos_x = saturating_add(self.current_pos_x, width);
    }

    /// Clears the text box: typing starts over from the first character with
    /// the pen at the origin and the content surface fully transparent.
    pub fn reset(&mut self)
        ensures
            final(self)@ == (TextWindowView {
                window: WindowView { contents: Seq::empty(), ..old(self)@.window },
                revealed: 0,
                drawn: Seq::empty(),
                state: TextWindowState::Typing,
                pen_x: 0,
                pen_y: 0,
                ..old(self)@
            }),
    {
        self.state = TextWindowState::Typing;
        self.current_text = Vec::new();
        self.current_character = 0;
        self.current_pos_x = 0;
        self.current_pos_y = 0;
        self.window.clear_contents();
    }

    /// Clears the text box and makes `new_text` the text to type.
    pub fn change_text(&mut self, new_text: &str)
        ensures
            final(self)@ == (TextWindowView {
                window: WindowView { contents: Seq::empty(), ..old(self)@.window },
                target: new_text@,
                revealed: 0,
                drawn: Seq::empty(),
                state: TextWindowState::Typing,
                pen_x: 0,
                pen_y: 0,
                ..old(self)@
            }),
    {
        self.reset();
        self.target_text = chars_of(new_text);
    }

    /// Opens or closes the underlying frame.
    pub fn set_state(&mut self, new_state: WindowState)
        ensures
            final(self)@ == (TextWindowView {
                window: WindowView { state: new_state, ..old(self)@.window },
                ..old(self)@
            }),
    {
        self.window.set_state(new_state);
    }

    pub fn get_state(&self) -> (r: TextWindowState)
        ensures
            r == self@.state,
    {
        self.state
    }

    /// How many characters of the text have been read.
    pub fn revealed_count(&self) -> (r: usize)
        ensures
            r == self@.revealed,
    {
        self.current_character
    }

    /// The characters drawn so far.
    pub fn current_text(&self) -> (r: &Vec<char>)
        ensures
            r@ == self@.drawn,
    {
        &self.current_text
    }

    /// The pen position on the content surface.
    pub fn pen_position(&self) -> (r: (u32, u32))
        ensures
            r == (self@.pen_x, self@.pen_y),
    {
        (self.current_pos_x, self.current_pos_y)
    }

    pub fn font_size(&self) -> (r: u32)
        ensures
            r == self@.font_size,
    {
        self.font_size
    }

    pub fn text_color(&self) -> (r: Color)
        ensures
            r == self@.color,
    {
        self.color
    }

    /// The frame that the text is typed into.
    pub fn window(&self) -> (r: &Window)
        ensures
            r@ == self@.window,
    {
        &self.window
    }
}

/// A text with no escape code and no newline.
pub open spec fn is_plain(s: Seq<char>) -> bool {
    forall|i: int| 0 <= i < s.len() ==> #[trigger] s[i] != ESCAPE && s[i] != '\n'
}

proof fn lemma_plain_progress(v: TextWindowView, k: nat)
    requires
        v.wf(),
        v.frame_ready(),
        v.state == TextWindowState::Typing,
        v.revealed == 0,
        v.drawn == Seq::<char>::empty(),
        is_plain(v.target),
        1 <= v.target.len(),
        k <= v.target.len(),
    ensures
        text_steps(v, k).wf(),
        text_steps(v, k).frame_ready(),
        text_steps(v, k).target == v.target,
        text_steps(v, k).revealed == k,
        text_steps(v, k).drawn == v.target.subrange(0, k as int),
        text_steps(v, k).state == (if k < v.target.len() {
            TextWindowState::Typing
        } else {
            TextWindowState::Done
        }),
    decreases k,
{
    if k == 0 {
        assert(v.target.subrange(0, 0) =~= Seq::<char>::empty());
    } else {
        lemma_plain_progress(v, (k - 1) as nat);
        let p = text_steps(v, (k - 1) as nat);
        assert(text_steps(v, k) == p.step());
        assert(p.target[k - 1] != ESCAPE && p.target[k - 1] != '\n');
        assert(v.target.subrange(0, k - 1).push(v.target[k - 1]) =~= v.target.subrange(0, k as int));
    }
}

/// A text of `L >= 1` characters with no escape code and no newline, typed
/// into a frame that is open, goes from `Typing` to `Done` in exactly `L`
/// ticks, and what was drawn then is the text itself.
pub proof fn lemma_plain_text_types_in_length_ticks(v: TextWindowView)
    requires
        v.wf(),
        v.frame_ready(),
        v.state == TextWindowState::Typing,
        v.revealed == 0,
        v.drawn == Seq::<char>::empty(),
        is_plain(v.target),
        v.target.len() >= 1,
    ensures
        forall|k: nat| k < v.target.len() ==> (#[trigger] text_steps(v, k)).state
            == TextWindowState::Typing,
        text_steps(v, v.target.len()).state == TextWindowState::Done,
        text_steps(v, v.target.len()).drawn == v.target,
{
    assert forall|k: nat| k < v.target.len() implies (#[trigger] text_steps(v, k)).state
        == TextWindowState::Typing by {
        lemma_plain_progress(v, k);
    }
    lemma_plain_progress(v, v.target.len());
    assert(v.target.subrange(0, v.target.len() as int) =~= v.target);
}

/// Reading an icon code draws exactly one icon, at the pen, and adds no
/// character to the drawn text.
pub proof fn lemma_icon_code_draws_one_icon(v: TextWindowView, index: usize)
    requires
        v.wf(),
        v.frame_ready(),
        v.state == TextWindowState::Typing,
        v.revealed < v.target.len(),
        v.target[v.revealed as int] == ESCAPE,
        escape_code_spec(v.target, v.revealed as int + 1) == EscapeCode::Icon(index),
    ensures
        v.step().drawn == v.drawn,
        v.step().window.contents == v.window.contents.push(
            DrawOp::Icon { source: v.icons.cell(index as int), x: v.pen_x, y: v.pen_y },
        ),
        v.step().revealed == code_resume(v.target, v.revealed as int + 1),
{
    lemma_code_resume_bounds(v.target, v.revealed as int + 1);
}

proof fn lemma_pause_progress(v: TextWindowView, n: u32, j: nat)
    requires
        v.wf(),
        v.frame_ready(),
        v.state == TextWindowState::Typing,
        v.revealed < v.target.len(),
        v.target[v.revealed as int] == ESCAPE,
        escape_code_spec(v.target, v.revealed as int + 1) == EscapeCode::Pause(n),
        n > 0,
        code_resume(v.target, v.revealed as int + 1) < v.target.len(),
        1 <= j <= n,
    ensures
        text_steps(v, j) == (TextWindowView {
            state: TextWindowState::Paused((n - j + 1) as u32),
            ..text_steps(v, 1)
        }),
        text_steps(v, j).wf(),
        text_steps(v, j).frame_ready(),
    decreases j,
{
    assert(text_steps(v, 0) == v);
    lemma_code_resume_bounds(v.target, v.revealed as int + 1);
    assert(text_steps(v, 1) == v.step());
    if j > 1 {
        lemma_pause_progress(v, n, (j - 1) as nat);
    }
}

/// After a pause code of `n >= 1` ticks is read, the next `n` ticks reveal
/// nothing and draw nothing; typing resumes on the tick after them.
pub proof fn lemma_pause_code_holds_n_ticks(v: TextWindowView, n: u32)
    requires
        v.wf(),
        v.frame_ready(),
        v.state == TextWindowState::Typing,
        v.revealed < v.target.len(),
        v.target[v.revealed as int] == ESCAPE,
        escape_code_spec(v.target, v.revealed as int + 1) == EscapeCode::Pause(n),
        n > 0,
        code_resume(v.target, v.revealed as int + 1) < v.target.len(),
    ensures
        forall|j: nat| 1 <= j <= n + 1 ==> (#[trigger] text_steps(v, j)).revealed == text_steps(
            v,
            1,
        ).revealed && text_steps(v, j).drawn == text_steps(v, 1).drawn && text_steps(
            v,
            j,
        ).window.contents == text_steps(v, 1).window.contents,
        forall|j: nat| 1 <= j <= n ==> (#[trigger] text_steps(v, j)).state
            is Paused,
        text_steps(v, (n + 1) as nat).state == TextWindowState::Typing,
        text_steps(v, (n + 2) as nat).revealed > text_steps(v, 1).revealed,
{
    assert forall|j: nat| 1 <= j <= n implies (#[trigger] text_steps(v, j)).revealed
        == text_steps(v, 1).revealed && text_steps(v, j).drawn == text_steps(v, 1).drawn
        && text_steps(v, j).window.contents == text_steps(v, 1).window.contents
        && text_steps(v, j).state is Paused by {
        lemma_pause_progress(v, n, j);
    }
    lemma_pause_progress(v, n, n as nat);
    lemma_code_resume_bounds(v.target, v.revealed as int + 1);
    assert(text_steps(v, 0) == v);
    assert(text_steps(v, 1) == v.step());
    assert(text_steps(v, 1).revealed == code_resume(v.target, v.revealed as int + 1));
    let m = text_steps(v, (n + 1) as nat);
    assert(m.revealed == text_steps(v, 1).revealed);
    assert(m.target == v.target);
    lemma_code_resume_bounds(v.target, m.revealed as int + 1);
    assert(text_steps(v, (n + 1) as nat) == text_steps(v, n as nat).step());
    assert(text_steps(v, (n + 2) as nat) == text_steps(v, (n + 1) as nat).step());
}

} // verus!
