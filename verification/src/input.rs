//! The labeled single-line text-input widget.

use vstd::prelude::*;

use crate::editbox::{masked, Editbox};
use crate::filter::CharFilter;
use crate::geom::{vec2, vec2_in_bounds, Ratio, Vec2, COORD_LIMIT};
use crate::ui::{
    spec_content_height, Cursor, DrawOp, ElementState, Id, Layout, TextStyle, Ui,
};

verus! {

/// Width, in layout units, of the gutter kept free between the editable box
/// and its label.
pub const LABEL_GUTTER: i64 = 15;

/// Minimum resolved height, in layout units, of the editable box when no
/// explicit size is given.
pub const MIN_INPUT_HEIGHT: i64 = 19;

/// The mathematical value of an [`InputText`] configuration.
#[verifier::ext_equal]
pub struct Config {
    pub id: Id,
    pub label: Seq<char>,
    pub size: Option<Vec2>,
    pub password: bool,
    pub numbers: bool,
    pub ratio: Ratio,
    pub pos: Option<Vec2>,
    pub margin: Option<Vec2>,
    pub input_font_size: Option<u16>,
    pub label_font_size: Option<u16>,
}

impl Config {
    /// The optional geometry lies within the coordinate bound and the
    /// fraction is well formed, so that layout cannot overflow.
    pub open spec fn wf(self) -> bool {
        &&& self.ratio.wf()
        &&& match self.size {
            Some(s) => vec2_in_bounds(s),
            None => true,
        }
        &&& match self.pos {
            Some(p) => vec2_in_bounds(p),
            None => true,
        }
    }
}

/// The configuration a fresh builder starts from: no label, no overrides,
/// the full width given to the editable box.
pub open spec fn init_config(id: Id) -> Config {
    Config {
        id,
        label: Seq::empty(),
        size: None,
        password: false,
        numbers: false,
        ratio: Ratio::one(),
        pos: None,
        margin: None,
        input_font_size: None,
        label_font_size: None,
    }
}

/// The configuration the labeled convenience entry point builds.
pub open spec fn labeled_config(id: Id, label: Seq<char>) -> Config {
    Config { label, ..init_config(id) }
}

/// One call of a configuration setter, with the value it passes.
pub enum Setting {
    Label(Seq<char>),
    Size(Vec2),
    Position(Vec2),
    Password(bool),
    Ratio(Ratio),
    FilterNumbers,
    Margin(Vec2),
    InputFontSize(u16),
    LabelFontSize(u16),
}

/// The configuration field a setter writes.
#[derive(PartialEq, Eq, Structural)]
pub enum ConfigField {
    Label,
    Size,
    Position,
    Password,
    Numbers,
    Ratio,
    Margin,
    InputFontSize,
    LabelFontSize,
}

/// The field the setting writes.
pub open spec fn setting_field(s: Setting) -> ConfigField {
    match s {
        Setting::Label(..) => ConfigField::Label,
        Setting::Size(..) => ConfigField::Size,
        Setting::Position(..) => ConfigField::Position,
        Setting::Password(..) => ConfigField::Password,
        Setting::Ratio(..) => ConfigField::Ratio,
        Setting::FilterNumbers => ConfigField::Numbers,
        Setting::Margin(..) => ConfigField::Margin,
        Setting::InputFontSize(..) => ConfigField::InputFontSize,
        Setting::LabelFontSize(..) => ConfigField::LabelFontSize,
    }
}

/// The configuration after one setter call.
pub open spec fn apply(c: Config, s: Setting) -> Config {
    match s {
        Setting::Label(label) => Config { label, ..c },
        Setting::Size(v) => Config { size: Some(v), ..c },
        Setting::Position(v) => Config { pos: Some(v), ..c },
        Setting::Password(b) => Config { password: b, ..c },
        Setting::Ratio(r) => Config { ratio: r, ..c },
        Setting::FilterNumbers => Config { numbers: true, ..c },
        Setting::Margin(v) => Config { margin: Some(v), ..c },
        Setting::InputFontSize(f) => Config { input_font_size: Some(f), ..c },
        Setting::LabelFontSize(f) => Config { label_font_size: Some(f), ..c },
    }
}

/// The configuration after a chain of setter calls, applied left to right.
pub open spec fn apply_all(c: Config, s: Seq<Setting>) -> Config
    decreases s.len(),
{
    if s.len() == 0 {
        c
    } else {
        apply(apply_all(c, s.drop_last()), s.last())
    }
}

/// The two configurations agree on the given field.
pub open spec fn agree_on(c1: Config, c2: Config, f: ConfigField) -> bool {
    match f {
        ConfigField::Label => c1.label == c2.label,
        ConfigField::Size => c1.size == c2.size,
        ConfigField::Position => c1.pos == c2.pos,
        ConfigField::Password => c1.password == c2.password,
        ConfigField::Numbers => c1.numbers == c2.numbers,
        ConfigField::Ratio => c1.ratio == c2.ratio,
        ConfigField::Margin => c1.margin == c2.margin,
        ConfigField::InputFontSize => c1.input_font_size == c2.input_font_size,
        ConfigField::LabelFontSize => c1.label_font_size == c2.label_font_size,
    }
}

/// Setters for different fields commute: applying them in either order
/// yields the same configuration.
pub proof fn lemma_independent_settings_commute(c: Config, a: Setting, b: Setting)
    requires
        setting_field(a) != setting_field(b),
    ensures
        apply(apply(c, a), b) == apply(apply(c, b), a),
{
    assert(apply(apply(c, a), b) =~= apply(apply(c, b), a));
}

/// A later setter for the same field overrides an earlier one.
pub proof fn lemma_later_setting_overrides(c: Config, a: Setting, b: Setting)
    requires
        setting_field(a) == setting_field(b),
    ensures
        apply(apply(c, a), b) == apply(c, b),
{
    assert(apply(apply(c, a), b) =~= apply(c, b));
}

/// A setter writes its field the same way whatever configuration it is
/// applied to.
proof fn lemma_apply_writes_field(c1: Config, c2: Config, a: Setting)
    ensures
        agree_on(apply(c1, a), apply(c2, a), setting_field(a)),
{
}

/// A setter leaves every other field unchanged.
proof fn lemma_apply_keeps_other_fields(c: Config, a: Setting, f: ConfigField)
    requires
        setting_field(a) != f,
    ensures
        agree_on(apply(c, a), c, f),
{
}

/// In a chain of setter calls, each field of the final configuration equals
/// the last value passed for it, regardless of what stands elsewhere in the
/// chain.
pub proof fn lemma_last_setting_wins(c: Config, s: Seq<Setting>, i: int)
    requires
        0 <= i < s.len(),
        forall|j: int| i < j < s.len() ==> setting_field(s[j]) != setting_field(s[i]),
    ensures
        agree_on(apply_all(c, s), apply(c, s[i]), setting_field(s[i])),
    decreases s.len(),
{
    let f = setting_field(s[i]);
    if i == s.len() - 1 {
        lemma_apply_writes_field(apply_all(c, s.drop_last()), c, s[i]);
    } else {
        let prefix = s.drop_last();
        assert(prefix[i] == s[i]);
        lemma_last_setting_wins(c, prefix, i);
        lemma_apply_keeps_other_fields(apply_all(c, prefix), s.last(), f);
    }
}

/// Horizontal space left for the widget: the layout area width minus the
/// style margin on both sides and the current indentation.
pub open spec fn available_width(ui: Ui) -> int {
    ui.cursor.area_w - 2 * ui.style.margin - ui.cursor.ident
}

/// Default widget height: what the buffer content occupies under the label
/// style, floored at [`MIN_INPUT_HEIGHT`].
pub open spec fn fallback_height(ui: Ui) -> int {
    let content = spec_content_height(ui.style.label_style);
    if content > MIN_INPUT_HEIGHT {
        content
    } else {
        MIN_INPUT_HEIGHT as int
    }
}

/// Resolved widget width: the explicit override, or the available width.
pub open spec fn resolved_w(cfg: Config, ui: Ui) -> int {
    match cfg.size {
        Some(s) => s.x as int,
        None => available_width(ui),
    }
}

/// Resolved widget height: the explicit override, or the fallback height.
pub open spec fn resolved_h(cfg: Config, ui: Ui) -> int {
    match cfg.size {
        Some(s) => s.y as int,
        None => fallback_height(ui),
    }
}

/// Resolved left edge: the explicit override, or where the layout cursor
/// places the widget.
pub open spec fn resolved_x(cfg: Config, ui: Ui) -> int {
    match cfg.pos {
        Some(p) => p.x as int,
        None => ui.cursor.x + ui.cursor.ident,
    }
}

/// Resolved top edge: the explicit override, or the layout cursor.
pub open spec fn resolved_y(cfg: Config, ui: Ui) -> int {
    match cfg.pos {
        Some(p) => p.y as int,
        None => ui.cursor.y as int,
    }
}

/// Width of the editable box: the full resolved width when there is no
/// label; otherwise the resolved width scaled by the fraction, minus the
/// label gutter.
pub open spec fn editbox_width(cfg: Config, ui: Ui) -> int {
    if cfg.label.len() == 0 {
        resolved_w(cfg, ui)
    } else {
        cfg.ratio.spec_scale(resolved_w(cfg, ui)) - LABEL_GUTTER
    }
}

/// Left edge of the label: the widget's left edge plus the scaled width.
pub open spec fn label_x(cfg: Config, ui: Ui) -> int {
    resolved_x(cfg, ui) + cfg.ratio.spec_scale(resolved_w(cfg, ui))
}

/// With an empty label the editable box spans the full resolved width,
/// whatever fraction the configuration carries.
pub proof fn lemma_empty_label_full_width(cfg: Config, ui: Ui, other: Ratio)
    requires
        cfg.label.len() == 0,
    ensures
        editbox_width(cfg, ui) == resolved_w(cfg, ui),
        editbox_width(Config { ratio: other, ..cfg }, ui) == editbox_width(cfg, ui),
{
}

/// With a non-empty label the editable box gets the resolved width scaled
/// by the fraction, minus the label gutter.
pub proof fn lemma_labeled_width(cfg: Config, ui: Ui)
    requires
        cfg.label.len() > 0,
    ensures
        editbox_width(cfg, ui) == (resolved_w(cfg, ui) * cfg.ratio.num) / (cfg.ratio.den as int)
            - LABEL_GUTTER,
{
}

/// An explicit size overrides the computed default exactly.
pub proof fn lemma_explicit_size_wins(cfg: Config, ui: Ui, s: Vec2)
    requires
        cfg.size == Some(s),
    ensures
        resolved_w(cfg, ui) == s.x as int,
        resolved_h(cfg, ui) == s.y as int,
{
}

/// Without an explicit size the resolved height never falls below the
/// floor, and sits exactly on it whenever the measured content height is at
/// or below it.
pub proof fn lemma_height_floor(cfg: Config, ui: Ui)
    requires
        cfg.size is None,
    ensures
        resolved_h(cfg, ui) >= MIN_INPUT_HEIGHT,
        spec_content_height(ui.style.label_style) <= MIN_INPUT_HEIGHT ==> resolved_h(cfg, ui)
            == MIN_INPUT_HEIGHT,
{
}

/// The character filter the configuration selects.
pub open spec fn input_filter(cfg: Config) -> CharFilter {
    if cfg.numbers {
        CharFilter::Numbers
    } else {
        CharFilter::AllChars
    }
}

/// The inner editable box the widget builds: resolved geometry, explicit
/// position, single-line mode, and the forwarded overrides.
pub open spec fn inner_editbox(cfg: Config, ui: Ui) -> Editbox {
    Editbox {
        id: cfg.id,
        size: Vec2 { x: editbox_width(cfg, ui) as i64, y: resolved_h(cfg, ui) as i64 },
        password: cfg.password,
        pos: Some(Vec2 { x: resolved_x(cfg, ui) as i64, y: resolved_y(cfg, ui) as i64 }),
        multiline: false,
        font_size: cfg.input_font_size,
        margin: cfg.margin,
        filter: input_filter(cfg),
    }
}

/// What finalizing the widget under configuration `cfg` does, relating the
/// context and the buffer before (`u0`, `d0`) to after (`u1`, `d1`).
pub open spec fn render_post(cfg: Config, u0: Ui, u1: Ui, d0: Seq<char>, d1: Seq<char>) -> bool {
    let eb = inner_editbox(cfg, u0);
    &&& d1 == d0 + eb.kept(u0.pending_input@)
    &&& u1.pending_input@ == Seq::<char>::empty()
    &&& u1.style == u0.style
    &&& u1.focused == u0.focused
    &&& (cfg.pos is Some ==> u1.cursor == u0.cursor)
    &&& (cfg.pos is None ==> u1.cursor == (Cursor {
        y: (u0.cursor.y + resolved_h(cfg, u0)) as i64,
        ..u0.cursor
    }))
    &&& u1.draws@.len() == u0.draws@.len() + (if cfg.label.len() == 0 {
        1int
    } else {
        2int
    })
    &&& (forall|i: int| 0 <= i < u0.draws@.len() ==> u1.draws@[i] == u0.draws@[i])
    &&& u1.draws@[u0.draws@.len() as int]@ == (DrawOp::Editbox {
        id: cfg.id,
        pos: Vec2 { x: resolved_x(cfg, u0) as i64, y: resolved_y(cfg, u0) as i64 },
        size: Vec2 { x: editbox_width(cfg, u0) as i64, y: resolved_h(cfg, u0) as i64 },
        glyphs: if cfg.password {
            masked(d1.len())
        } else {
            d1
        },
        font_size: match cfg.input_font_size {
            Some(f) => f,
            None => u0.style.editbox_style.font_size,
        },
        margin: cfg.margin,
    })
    &&& (cfg.label.len() > 0 ==> u1.draws@.last()@ == (DrawOp::Label {
        pos: Vec2 { x: label_x(cfg, u0) as i64, y: resolved_y(cfg, u0) as i64 },
        text: cfg.label,
        font_size: match cfg.label_font_size {
            Some(f) => f,
            None => u0.style.label_style.font_size,
        },
        state: ElementState { focused: u0.focused, hovered: false, clicked: false },
    }))
}

/// Configuration of a labeled single-line text input, built fresh each
/// frame and consumed by [`InputText::ui`].
pub struct InputText<'a> {
    pub id: Id,
    pub label: &'a str,
    pub size: Option<Vec2>,
    pub password: bool,
    pub numbers: bool,
    pub ratio: Ratio,
    pub pos: Option<Vec2>,
    pub margin: Option<Vec2>,
    pub input_font_size: Option<u16>,
    pub label_font_size: Option<u16>,
}

impl<'a> View for InputText<'a> {
    type V = Config;

    open spec fn view(&self) -> Config {
        Config {
            id: self.id,
            label: self.label@,
            size: self.size,
            password: self.password,
            numbers: self.numbers,
            ratio: self.ratio,
            pos: self.pos,
            margin: self.margin,
            input_font_size: self.input_font_size,
            label_font_size: self.label_font_size,
        }
    }
}

impl<'a> InputText<'a> {
    /// A widget under the identifier with every optional field unset.
    pub fn new(id: Id) -> (r: InputText<'a>)
        ensures
            r@ == init_config(id),
    {
        proof {
            reveal_strlit("");
        }
        InputText {
            id,
            size: None,
            label: "",
            numbers: false,
            password: false,
            ratio: Ratio { num: 1, den: 1 },
            pos: None,
            margin: None,
            input_font_size: None,
            label_font_size: None,
        }
    }

    /// Sets the label drawn to the right of the box.
    pub fn label<'b>(self, label: &'b str) -> (r: InputText<'b>)
        ensures
            r@ == apply(self@, Setting::Label(label@)),
    {
        InputText { label, ..self }
    }

    /// Sets an explicit size, overriding the computed default.
    pub fn size(self, size: Vec2) -> (r: InputText<'a>)
        ensures
            r@ == apply(self@, Setting::Size(size)),
    {
        InputText { size: Some(size), ..self }
    }

    /// Sets an explicit position, overriding the layout cursor.
    pub fn position(self, pos: Vec2) -> (r: InputText<'a>)
        ensures
            r@ == apply(self@, Setting::Position(pos)),
    {
        InputText { pos: Some(pos), ..self }
    }

    /// Sets whether the box masks its glyphs.
    pub fn password(self, password: bool) -> (r: InputText<'a>)
        ensures
            r@ == apply(self@, Setting::Password(password)),
    {
        InputText { password, ..self }
    }

    /// Sets the share of the width given to the editable box when a label
    /// is present.
    pub fn ratio(self, ratio: Ratio) -> (r: InputText<'a>)
        ensures
            r@ == apply(self@, Setting::Ratio(ratio)),
    {
        InputText { ratio, ..self }
    }

    /// Restricts typed characters to decimal digits, `.` and `-`.
    pub fn filter_numbers(self) -> (r: InputText<'a>)
        ensures
            r@ == apply(self@, Setting::FilterNumbers),
    {
        InputText { numbers: true, ..self }
    }

    /// Overrides the inner margin of the editable box.
    pub fn margin(self, margin: Vec2) -> (r: InputText<'a>)
        ensures
            r@ == apply(self@, Setting::Margin(margin)),
    {
        InputText { margin: Some(margin), ..self }
    }

    /// Overrides the font size of the editable box.
    pub fn input_font_size(self, font_size: u16) -> (r: InputText<'a>)
        ensures
            r@ == apply(self@, Setting::InputFontSize(font_size)),
    {
        InputText { input_font_size: Some(font_size), ..self }
    }

    /// Overrides the font size of the label.
    pub fn label_font_size(self, font_size: u16) -> (r: InputText<'a>)
        ensures
            r@ == apply(self@, Setting::LabelFontSize(font_size)),
    {
        InputText { label_font_size: Some(font_size), ..self }
    }

    /// Finalizes the widget: resolves size and position, renders the inner
    /// editable box (which applies the pending keystrokes to the buffer),
    /// and draws the label beside it if one was given.
    pub fn ui(self, ui: &mut Ui, data: &mut String)
        requires
            old(ui).wf(),
            self@.wf(),
            old(data)@.len() <= COORD_LIMIT,
        ensures
            render_post(self@, *old(ui), *final(ui), old(data)@, final(data)@),
    {
        let label_style: TextStyle = ui.style.label_style;
        let label_size: Vec2 = ui.content_with_margins_size(&label_style, data.as_str());

        let size: Vec2 = match self.size {
            Some(s) => s,
            None => {
                let w: i64 = ui.cursor.area_w - 2 * ui.style.margin - ui.cursor.ident;
                let h: i64 = if label_size.y > MIN_INPUT_HEIGHT {
                    label_size.y
                } else {
                    MIN_INPUT_HEIGHT
                };
                vec2(w, h)
            },
        };

        let pos: Vec2 = match self.pos {
            Some(p) => p,
            None => ui.fit(size, Layout::Vertical),
        };

        let editbox_area_w: i64 = if self.label.is_empty() {
            size.x
        } else {
            self.ratio.scale(size.x) - LABEL_GUTTER
        };
        let mut editbox = Editbox::new(self.id, vec2(editbox_area_w, size.y)).password(
            self.password,
        ).position(pos).multiline(false);
        if let Some(font_size) = self.input_font_size {
            editbox = editbox.font_size(font_size);
        }
        if let Some(margin) = self.margin {
            editbox = editbox.margin(margin);
        }
        if self.numbers {
            editbox = editbox.filter(CharFilter::Numbers);
        }
        editbox.ui(ui, data);

        let label_font: u16 = match self.label_font_size {
            Some(f) => f,
            None => ui.style.label_style.font_size,
        };
        if !self.label.is_empty() {
            let lx: i64 = pos.x + self.ratio.scale(size.x);
            let state = ElementState { focused: ui.focused, ..ElementState::default() };
            ui.draw_element_label(label_font, vec2(lx, pos.y), self.label, state);
        }
    }
}

impl Ui {
    /// Renders a labeled single-line text input for the identifier against
    /// the buffer.
    pub fn input_text(&mut self, id: Id, label: &str, data: &mut String)
        requires
            old(self).wf(),
            old(data)@.len() <= COORD_LIMIT,
        ensures
            render_post(
                labeled_config(id, label@),
                *old(self),
                *final(self),
                old(data)@,
                final(data)@,
            ),
    {
        InputText::new(id).label(label).ui(self, data);
    }

    /// Renders a labeled masked (password) single-line text input for the
    /// identifier against the buffer.
    pub fn input_password(&mut self, id: Id, label: &str, data: &mut String)
        requires
            old(self).wf(),
            old(data)@.len() <= COORD_LIMIT,
        ensures
            render_post(
                Config { password: true, ..labeled_config(id, label@) },
                *old(self),
                *final(self),
                old(data)@,
                final(data)@,
            ),
    {
        InputText::new(id).label(label).password(true).ui(self, data);
    }
}

} // verus!
