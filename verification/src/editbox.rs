//! The inner editable-text-box builder and its finalizer.

use vstd::prelude::*;

use crate::filter::{allows, char_passes, CharFilter};
use crate::geom::{Vec2, COORD_LIMIT};
use crate::ui::{Cursor, DrawCmd, DrawOp, Id, Layout, Ui};

verus! {

/// The glyph shown in place of every buffer character under password mode.
pub open spec fn masked(n: nat) -> Seq<char> {
    Seq::new(n, |i: int| '*')
}

/// Masking changes what is shown: whenever the buffer holds any character
/// other than the mask glyph itself, the rendered glyphs differ from the
/// buffer content. (A buffer consisting only of mask glyphs is the one
/// input on which the two coincide.)
pub proof fn lemma_masking_changes_glyphs(data: Seq<char>, i: int)
    requires
        0 <= i < data.len(),
        data[i] != '*',
    ensures
        masked(data.len()) != data,
{
    assert(masked(data.len())[i] == '*');
}

/// Relies on `String::push`: appends the given character at the end of the
/// string.
#[verifier::external_body]
fn push_char(s: &mut String, c: char)
    ensures
        final(s)@ == old(s)@.push(c),
{
    s.push(c);
}

/// A string of `n` mask glyphs.
fn masked_glyphs(n: usize) -> (r: String)
    ensures
        r@ == masked(n as nat),
{
    let mut s = String::new();
    let mut i: usize = 0;
    while i < n
        invariant
            i <= n,
            s@ == masked(i as nat),
        decreases n - i,
    {
        push_char(&mut s, '*');
        i = i + 1;
        proof {
            assert(s@ =~= masked(i as nat));
        }
    }
    s
}

/// Configuration of an editable text box.
#[derive(Clone, Copy, Debug)]
pub struct Editbox {
    pub id: Id,
    pub size: Vec2,
    pub password: bool,
    pub pos: Option<Vec2>,
    pub multiline: bool,
    pub font_size: Option<u16>,
    pub margin: Option<Vec2>,
    pub filter: CharFilter,
}

impl Editbox {
    /// Whether the box accepts a typed character: the filter must pass it,
    /// and a single-line box drops line breaks.
    pub open spec fn accepts(self, c: char) -> bool {
        char_passes(self.filter, c) && (self.multiline || c != '\n')
    }

    /// The subsequence of `s` the box accepts, in order.
    pub open spec fn kept(self, s: Seq<char>) -> Seq<char>
        decreases s.len(),
    {
        if s.len() == 0 {
            Seq::empty()
        } else {
            let rest = self.kept(s.drop_last());
            if self.accepts(s.last()) {
                rest.push(s.last())
            } else {
                rest
            }
        }
    }

    /// Where the box is drawn: its explicit position, or the place the
    /// layout cursor would assign.
    pub open spec fn resolved_pos(self, ui: Ui) -> Vec2 {
        match self.pos {
            Some(p) => p,
            None => Vec2 { x: (ui.cursor.x + ui.cursor.ident) as i64, y: ui.cursor.y },
        }
    }

    /// The font size the box is drawn with: its override, or the style's.
    pub open spec fn resolved_font(self, ui: Ui) -> u16 {
        match self.font_size {
            Some(f) => f,
            None => ui.style.editbox_style.font_size,
        }
    }

    /// A box of the given size under the identifier, with no overrides:
    /// no explicit position, multi-line editing on, and every character
    /// accepted.
    pub fn new(id: Id, size: Vec2) -> (r: Editbox)
        ensures
            r == (Editbox {
                id,
                size,
                password: false,
                pos: None,
                multiline: true,
                font_size: None,
                margin: None,
                filter: CharFilter::AllChars,
            }),
    {
        Editbox {
            id,
            size,
            password: false,
            pos: None,
            multiline: true,
            font_size: None,
            margin: None,
            filter: CharFilter::AllChars,
        }
    }

    /// Sets whether the box masks its glyphs.
    pub fn password(self, password: bool) -> (r: Editbox)
        ensures
            r == (Editbox { password, ..self }),
    {
        Editbox { password, ..self }
    }

    /// Sets an explicit position.
    pub fn position(self, pos: Vec2) -> (r: Editbox)
        ensures
            r == (Editbox { pos: Some(pos), ..self }),
    {
        Editbox { pos: Some(pos), ..self }
    }

    /// Sets whether the box edits several lines.
    pub fn multiline(self, multiline: bool) -> (r: Editbox)
        ensures
            r == (Editbox { multiline, ..self }),
    {
        Editbox { multiline, ..self }
    }

    /// Overrides the font size.
    pub fn font_size(self, font_size: u16) -> (r: Editbox)
        ensures
            r == (Editbox { font_size: Some(font_size), ..self }),
    {
        Editbox { font_size: Some(font_size), ..self }
    }

    /// Overrides the inner margin.
    pub fn margin(self, margin: Vec2) -> (r: Editbox)
        ensures
            r == (Editbox { margin: Some(margin), ..self }),
    {
        Editbox { margin: Some(margin), ..self }
    }

    /// Restricts which typed characters the box accepts.
    pub fn filter(self, filter: CharFilter) -> (r: Editbox)
        ensures
            r == (Editbox { filter, ..self }),
    {
        Editbox { filter, ..self }
    }

    /// Finalizes the box: applies the pending keystrokes that the box
    /// accepts to the buffer, consumes the pending input, and records one
    /// draw call showing the buffer - masked if the box is a password box.
    pub fn ui(self, ui: &mut Ui, data: &mut String)
        requires
            self.pos is None ==> old(ui).wf() && -COORD_LIMIT <= self.size.y <= COORD_LIMIT,
        ensures
            final(data)@ == old(data)@ + self.kept(old(ui).pending_input@),
            final(ui).pending_input@ == Seq::<char>::empty(),
            final(ui).style == old(ui).style,
            final(ui).focused == old(ui).focused,
            self.pos is Some ==> final(ui).cursor == old(ui).cursor,
            self.pos is None ==> final(ui).cursor == (Cursor {
                y: (old(ui).cursor.y + self.size.y) as i64,
                ..old(ui).cursor
            }),
            final(ui).draws@.len() == old(ui).draws@.len() + 1,
            forall|i: int|
                0 <= i < old(ui).draws@.len() ==> final(ui).draws@[i] == old(ui).draws@[i],
            final(ui).draws@.last()@ == (DrawOp::Editbox {
                id: self.id,
                pos: self.resolved_pos(*old(ui)),
                size: self.size,
                glyphs: if self.password {
                    masked(final(data)@.len())
                } else {
                    final(data)@
                },
                font_size: self.resolved_font(*old(ui)),
                margin: self.margin,
            }),
    {
        let pos: Vec2 = match self.pos {
            Some(p) => p,
            None => ui.fit(self.size, Layout::Vertical),
        };
        let font_size: u16 = match self.font_size {
            Some(f) => f,
            None => ui.style.editbox_style.font_size,
        };
        let ghost ui1 = *ui;
        let n: usize = ui.pending_input.len();
        let mut i: usize = 0;
        while i < n
            invariant
                i <= n,
                *ui == ui1,
                n == ui1.pending_input@.len(),
                data@ == old(data)@ + self.kept(ui1.pending_input@.take(i as int)),
            decreases n - i,
        {
            let c: char = ui.pending_input[i];
            if allows(self.filter, c) && (self.multiline || c != '\n') {
                push_char(data, c);
            }
            i = i + 1;
            proof {
                let typed = ui1.pending_input@;
                assert(typed.take(i as int).drop_last() =~= typed.take(i as int - 1));
                assert(typed.take(i as int).last() == typed[i as int - 1]);
            }
        }
        proof {
            assert(ui1.pending_input@.take(n as int) =~= ui1.pending_input@);
        }
        ui.pending_input.clear();
        let glyphs: String = if self.password {
            masked_glyphs(data.as_str().unicode_len())
        } else {
            data.clone()
        };
        ui.draws.push(
            DrawCmd::Editbox { id: self.id, pos, size: self.size, glyphs, font_size, margin: self.margin },
        );
    }
}

} // verus!
