//! A model of the host immediate-mode UI context: style, layout cursor,
//! pending keystrokes and a painter that records draw commands.

use vstd::prelude::*;

use crate::geom::{Vec2, COORD_LIMIT};

verus! {

/// Opaque widget identifier; the host keys retained per-widget state by it.
pub type Id = u64;

/// Default outer margin of the window style, in layout units.
pub const DEFAULT_MARGIN: i64 = 2;

/// Default font size of the window style, in layout units.
pub const DEFAULT_FONT_SIZE: u16 = 16;

/// Vertical padding added around a line of text when its size is measured.
pub const TEXT_PADDING: i64 = 2;

/// The part of a text style that this widget reads: the font size.
#[derive(Clone, Copy, Debug, PartialEq, Eq, Structural)]
pub struct TextStyle {
    pub font_size: u16,
}

/// The part of the window style that this widget reads.
#[derive(Clone, Copy, Debug, PartialEq, Eq, Structural)]
pub struct UiStyle {
    /// Outer margin kept free on both sides of the layout area.
    pub margin: i64,
    /// Style of the editable box contents.
    pub editbox_style: TextStyle,
    /// Style of label text drawn beside widgets.
    pub label_style: TextStyle,
}

/// Mutable per-frame layout state: where the next widget is placed.
#[derive(Clone, Copy, Debug, PartialEq, Eq, Structural)]
pub struct Cursor {
    /// Left edge of the layout area.
    pub x: i64,
    /// Vertical position for the next widget laid out in vertical flow.
    pub y: i64,
    /// Width of the layout area.
    pub area_w: i64,
    /// Current indentation, added to the left edge.
    pub ident: i64,
}

/// Flow direction a widget is fitted with.
#[derive(Clone, Copy, Debug, PartialEq, Eq, Structural)]
pub enum Layout {
    /// Widgets stack below one another.
    Vertical,
}

/// Transient visual flags used to style a drawn element.
#[derive(Clone, Copy, Debug, PartialEq, Eq, Structural)]
pub struct ElementState {
    pub focused: bool,
    pub hovered: bool,
    pub clicked: bool,
}

impl Default for ElementState {
    /// All visual flags off.
    fn default() -> (r: ElementState)
        ensures
            r == (ElementState { focused: false, hovered: false, clicked: false }),
    {
        ElementState { focused: false, hovered: false, clicked: false }
    }
}

/// One draw call recorded by the painter.
#[derive(Debug)]
pub enum DrawCmd {
    /// An editable box with the glyphs it shows (masked under password mode).
    Editbox {
        id: Id,
        pos: Vec2,
        size: Vec2,
        glyphs: String,
        font_size: u16,
        margin: Option<Vec2>,
    },
    /// A piece of label text.
    Label { pos: Vec2, text: String, font_size: u16, state: ElementState },
}

/// The mathematical value of a recorded draw call.
#[verifier::ext_equal]
pub enum DrawOp {
    Editbox {
        id: Id,
        pos: Vec2,
        size: Vec2,
        glyphs: Seq<char>,
        font_size: u16,
        margin: Option<Vec2>,
    },
    Label { pos: Vec2, text: Seq<char>, font_size: u16, state: ElementState },
}

impl View for DrawCmd {
    type V = DrawOp;

    open spec fn view(&self) -> DrawOp {
        match self {
            DrawCmd::Editbox { id, pos, size, glyphs, font_size, margin } => DrawOp::Editbox {
                id: *id,
                pos: *pos,
                size: *size,
                glyphs: glyphs@,
                font_size: *font_size,
                margin: *margin,
            },
            DrawCmd::Label { pos, text, font_size, state } => DrawOp::Label {
                pos: *pos,
                text: text@,
                font_size: *font_size,
                state: *state,
            },
        }
    }
}

/// Height a line of text occupies under the style.
pub open spec fn spec_content_height(style: TextStyle) -> int {
    style.font_size + TEXT_PADDING
}

/// Width a line of text occupies under the style.
pub open spec fn spec_content_width(style: TextStyle, text: Seq<char>) -> int {
    text.len() * ((style.font_size / 2) as int)
}

/// The active window context: style, layout cursor, focus flag, the
/// keystrokes typed since the last frame, and the draw calls issued so far.
pub struct Ui {
    pub style: UiStyle,
    pub cursor: Cursor,
    pub focused: bool,
    pub pending_input: Vec<char>,
    pub draws: Vec<DrawCmd>,
}

impl Ui {
    /// The layout state is within the coordinate bound, so that widget
    /// geometry can be computed without overflow.
    pub open spec fn wf(self) -> bool {
        &&& -COORD_LIMIT <= self.cursor.x <= COORD_LIMIT
        &&& -COORD_LIMIT <= self.cursor.y <= COORD_LIMIT
        &&& 0 <= self.cursor.area_w <= COORD_LIMIT
        &&& 0 <= self.cursor.ident <= COORD_LIMIT
        &&& 0 <= self.style.margin <= COORD_LIMIT
    }

    /// A fresh context over a layout area of the given width, with the
    /// default style, the cursor at the origin and nothing drawn or typed.
    pub fn new(area_w: i64, focused: bool) -> (ui: Ui)
        ensures
            ui.style == (UiStyle {
                margin: DEFAULT_MARGIN,
                editbox_style: TextStyle { font_size: DEFAULT_FONT_SIZE },
                label_style: TextStyle { font_size: DEFAULT_FONT_SIZE },
            }),
            ui.cursor == (Cursor { x: 0, y: 0, area_w, ident: 0 }),
            ui.focused == focused,
            ui.pending_input@ == Seq::<char>::empty(),
            ui.draws@ == Seq::<DrawCmd>::empty(),
            0 <= area_w <= COORD_LIMIT ==> ui.wf(),
    {
        Ui {
            style: UiStyle {
                margin: DEFAULT_MARGIN,
                editbox_style: TextStyle { font_size: DEFAULT_FONT_SIZE },
                label_style: TextStyle { font_size: DEFAULT_FONT_SIZE },
            },
            cursor: Cursor { x: 0, y: 0, area_w, ident: 0 },
            focused,
            pending_input: Vec::new(),
            draws: Vec::new(),
        }
    }

    /// Records one keystroke for the widget rendered next.
    pub fn push_input_char(&mut self, c: char)
        ensures
            final(self).pending_input@ == old(self).pending_input@.push(c),
            final(self).style == old(self).style,
            final(self).cursor == old(self).cursor,
            final(self).focused == old(self).focused,
            final(self).draws == old(self).draws,
    {
        self.pending_input.push(c);
    }

    /// Measures the size a line of text occupies under the style, margins
    /// included.
    pub fn content_with_margins_size(&self, style: &TextStyle, text: &str) -> (r: Vec2)
        requires
            text@.len() <= COORD_LIMIT,
        ensures
            r.x == spec_content_width(*style, text@),
            r.y == spec_content_height(*style),
    {
        let chars: usize = text.unicode_len();
        proof {
            assert(0 <= (chars as int) * ((style.font_size / 2) as int) <= (COORD_LIMIT as int)
                * 0x8000) by (nonlinear_arith)
                requires
                    0 <= chars <= COORD_LIMIT,
                    0 <= (style.font_size / 2) < 0x8000,
            ;
        }
        Vec2 { x: (chars as i64) * ((style.font_size / 2) as i64), y: (style.font_size as i64)
            + TEXT_PADDING }
    }

    /// Asks the layout cursor for a place for a box of the given size.
    /// In vertical flow the box is placed at the cursor, indented, and the
    /// cursor advances below it.
    pub fn fit(&mut self, size: Vec2, layout: Layout) -> (pos: Vec2)
        requires
            old(self).wf(),
            -COORD_LIMIT <= size.y <= COORD_LIMIT,
        ensures
            pos.x == old(self).cursor.x + old(self).cursor.ident,
            pos.y == old(self).cursor.y,
            final(self).cursor.y == old(self).cursor.y + size.y,
            final(self).cursor.x == old(self).cursor.x,
            final(self).cursor.area_w == old(self).cursor.area_w,
            final(self).cursor.ident == old(self).cursor.ident,
            final(self).style == old(self).style,
            final(self).focused == old(self).focused,
            final(self).pending_input == old(self).pending_input,
            final(self).draws == old(self).draws,
    {
        match layout {
            Layout::Vertical => {
                let pos = Vec2 { x: self.cursor.x + self.cursor.ident, y: self.cursor.y };
                self.cursor.y = self.cursor.y + size.y;
                pos
            },
        }
    }

    /// Issues a draw call for label text at the given position, with the
    /// given font size and visual state.
    pub fn draw_element_label(&mut self, font_size: u16, pos: Vec2, text: &str, state: ElementState)
        ensures
            final(self).draws@.len() == old(self).draws@.len() + 1,
            forall|i: int|
                0 <= i < old(self).draws@.len() ==> final(self).draws@[i] == old(self).draws@[i],
            final(self).draws@.last()@ == (DrawOp::Label { pos, text: text@, font_size, state }),
            final(self).style == old(self).style,
            final(self).cursor == old(self).cursor,
            final(self).focused == old(self).focused,
            final(self).pending_input == old(self).pending_input,
    {
        self.draws.push(DrawCmd::Label { pos, text: text.to_owned(), font_size, state });
    }
}

} // verus!
