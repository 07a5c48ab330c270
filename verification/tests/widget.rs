use input_widget::editbox::Editbox;
use input_widget::filter::{allows, CharFilter};
use input_widget::geom::{vec2, Ratio, Vec2};
use input_widget::input::InputText;
use input_widget::ui::{DrawCmd, Ui};

fn type_str(ui: &mut Ui, text: &str) {
    for c in text.chars() {
        ui.push_input_char(c);
    }
}

fn editbox_cmd(cmd: &DrawCmd) -> (Vec2, Vec2, String) {
    match cmd {
        DrawCmd::Editbox { pos, size, glyphs, .. } => (*pos, *size, glyphs.clone()),
        DrawCmd::Label { .. } => panic!("expected an editbox draw call"),
    }
}

fn label_cmd(cmd: &DrawCmd) -> (Vec2, String) {
    match cmd {
        DrawCmd::Label { pos, text, .. } => (*pos, text.clone()),
        DrawCmd::Editbox { .. } => panic!("expected a label draw call"),
    }
}

#[test]
fn builder_defaults() {
    let t = InputText::new(3);
    assert_eq!(t.id, 3);
    assert_eq!(t.label, "");
    assert_eq!(t.size, None);
    assert_eq!(t.pos, None);
    assert!(!t.password);
    assert!(!t.numbers);
    assert_eq!(t.ratio, Ratio::new(1, 1));
    assert_eq!(t.margin, None);
    assert_eq!(t.input_font_size, None);
    assert_eq!(t.label_font_size, None);
}

#[test]
fn builder_last_write_wins() {
    let t = InputText::new(1).size(vec2(10, 10)).size(vec2(30, 40));
    assert_eq!(t.size, Some(vec2(30, 40)));
}

#[test]
fn builder_setters_commute() {
    let a = InputText::new(1).password(true).ratio(Ratio::new(2, 3));
    let b = InputText::new(1).ratio(Ratio::new(2, 3)).password(true);
    assert_eq!(a.password, b.password);
    assert_eq!(a.ratio, b.ratio);
    assert_eq!(a.size, b.size);
    assert_eq!(a.label, b.label);
}

#[test]
fn empty_label_takes_full_width() {
    let mut ui = Ui::new(200, false);
    let mut data = String::new();
    InputText::new(1).ui(&mut ui, &mut data);
    assert_eq!(ui.draws.len(), 1);
    let (pos, size, _) = editbox_cmd(&ui.draws[0]);
    assert_eq!(size, vec2(196, 19));
    assert_eq!(pos, vec2(0, 0));
}

#[test]
fn empty_label_ignores_ratio() {
    let mut ui = Ui::new(200, false);
    let mut data = String::new();
    InputText::new(1).ratio(Ratio::new(1, 3)).ui(&mut ui, &mut data);
    let (_, size, _) = editbox_cmd(&ui.draws[0]);
    assert_eq!(size.x, 196);
}

#[test]
fn labeled_width_subtracts_gutter() {
    let mut ui = Ui::new(200, false);
    let mut data = String::new();
    InputText::new(1).label("Name").ui(&mut ui, &mut data);
    assert_eq!(ui.draws.len(), 2);
    let (_, size, _) = editbox_cmd(&ui.draws[0]);
    assert_eq!(size.x, 196 - 15);
    let (lpos, ltext) = label_cmd(&ui.draws[1]);
    assert_eq!(lpos, vec2(196, 0));
    assert_eq!(ltext, "Name");
}

#[test]
fn ratio_scales_labeled_box() {
    let mut ui = Ui::new(200, false);
    let mut data = String::new();
    InputText::new(1).label("w").size(vec2(100, 30)).ratio(Ratio::new(1, 2)).ui(
        &mut ui,
        &mut data,
    );
    let (_, size, _) = editbox_cmd(&ui.draws[0]);
    assert_eq!(size, vec2(100 / 2 - 15, 30));
    let (lpos, _) = label_cmd(&ui.draws[1]);
    assert_eq!(lpos.x, 50);
}

#[test]
fn explicit_size_wins() {
    let mut ui = Ui::new(200, false);
    let mut data = String::new();
    InputText::new(1).size(vec2(123, 45)).ui(&mut ui, &mut data);
    let (_, size, _) = editbox_cmd(&ui.draws[0]);
    assert_eq!(size, vec2(123, 45));
}

#[test]
fn explicit_position_wins_and_keeps_cursor() {
    let mut ui = Ui::new(200, false);
    let mut data = String::new();
    InputText::new(1).position(vec2(7, 8)).ui(&mut ui, &mut data);
    let (pos, _, _) = editbox_cmd(&ui.draws[0]);
    assert_eq!(pos, vec2(7, 8));
    assert_eq!(ui.cursor.y, 0);
}

#[test]
fn height_floor_applies() {
    let mut ui = Ui::new(200, false);
    let mut data = String::new();
    // Default font size 16 measures 18 units of content height: below the
    // floor of 19.
    InputText::new(1).ui(&mut ui, &mut data);
    let (_, size, _) = editbox_cmd(&ui.draws[0]);
    assert_eq!(size.y, 19);
}

#[test]
fn tall_content_beats_height_floor() {
    let mut ui = Ui::new(200, false);
    ui.style.label_style.font_size = 30;
    let mut data = String::new();
    InputText::new(1).ui(&mut ui, &mut data);
    let (_, size, _) = editbox_cmd(&ui.draws[0]);
    assert_eq!(size.y, 32);
}

#[test]
fn numbers_filter_drops_other_characters() {
    let mut ui = Ui::new(200, false);
    let mut data = String::new();
    type_str(&mut ui, "1a.-!");
    InputText::new(1).filter_numbers().ui(&mut ui, &mut data);
    assert_eq!(data, "1.-");
    assert!(ui.pending_input.is_empty());
}

#[test]
fn unfiltered_input_keeps_everything() {
    let mut ui = Ui::new(200, false);
    let mut data = String::from("x");
    type_str(&mut ui, "1a!");
    InputText::new(1).ui(&mut ui, &mut data);
    assert_eq!(data, "x1a!");
}

#[test]
fn filter_accepts_exactly_digits_dot_dash() {
    for c in ['0', '5', '9', '.', '-'] {
        assert!(allows(CharFilter::Numbers, c));
    }
    for c in ['a', '!', ' ', '/', ':', '\n'] {
        assert!(!allows(CharFilter::Numbers, c));
    }
    assert!(allows(CharFilter::AllChars, '!'));
}

#[test]
fn password_masks_glyphs_but_not_buffer() {
    let mut ui = Ui::new(200, false);
    let mut data = String::from("ab");
    type_str(&mut ui, "c");
    InputText::new(1).password(true).ui(&mut ui, &mut data);
    assert_eq!(data, "abc");
    let (_, _, glyphs) = editbox_cmd(&ui.draws[0]);
    assert_eq!(glyphs, "***");
    assert_ne!(glyphs, data);
}

#[test]
fn input_text_types_and_draws_label() {
    let mut ui = Ui::new(200, true);
    let mut data = String::new();
    type_str(&mut ui, "AB");
    ui.input_text(7, "Name", &mut data);
    assert_eq!(data, "AB");
    assert_eq!(ui.draws.len(), 2);
    let (pos, size, glyphs) = editbox_cmd(&ui.draws[0]);
    assert_eq!(pos, vec2(0, 0));
    assert_eq!(size, vec2(181, 19));
    assert_eq!(glyphs, "AB");
    let (lpos, ltext) = label_cmd(&ui.draws[1]);
    assert_eq!(ltext, "Name");
    // The label starts at the right edge of the full widget width.
    assert_eq!(lpos, vec2(196, 0));
    match &ui.draws[1] {
        DrawCmd::Label { state, .. } => {
            assert!(state.focused);
            assert!(!state.hovered);
            assert!(!state.clicked);
        }
        DrawCmd::Editbox { .. } => panic!("expected a label draw call"),
    }
}

#[test]
fn input_password_masks() {
    let mut ui = Ui::new(200, false);
    let mut data = String::new();
    type_str(&mut ui, "pw");
    ui.input_password(9, "Key", &mut data);
    assert_eq!(data, "pw");
    let (_, _, glyphs) = editbox_cmd(&ui.draws[0]);
    assert_eq!(glyphs, "**");
}

#[test]
fn widgets_stack_vertically() {
    let mut ui = Ui::new(200, false);
    let mut first = String::new();
    let mut second = String::new();
    ui.input_text(1, "a", &mut first);
    ui.input_text(2, "b", &mut second);
    assert_eq!(ui.cursor.y, 38);
    let (p0, _, _) = editbox_cmd(&ui.draws[0]);
    let (p1, _, _) = editbox_cmd(&ui.draws[2]);
    assert_eq!(p0.y, 0);
    assert_eq!(p1.y, 19);
}

#[test]
fn single_line_editbox_drops_line_breaks() {
    let mut ui = Ui::new(200, false);
    let mut data = String::new();
    type_str(&mut ui, "a\nb");
    Editbox::new(1, vec2(50, 19)).position(vec2(0, 0)).multiline(false).ui(&mut ui, &mut data);
    assert_eq!(data, "ab");
}

#[test]
fn multiline_editbox_keeps_line_breaks() {
    let mut ui = Ui::new(200, false);
    let mut data = String::new();
    type_str(&mut ui, "a\nb");
    Editbox::new(1, vec2(50, 19)).position(vec2(0, 0)).ui(&mut ui, &mut data);
    assert_eq!(data, "a\nb");
}

#[test]
fn editbox_font_and_margin_overrides_are_forwarded() {
    let mut ui = Ui::new(200, false);
    let mut data = String::new();
    InputText::new(1).input_font_size(11).margin(vec2(4, 5)).ui(&mut ui, &mut data);
    match &ui.draws[0] {
        DrawCmd::Editbox { font_size, margin, .. } => {
            assert_eq!(*font_size, 11);
            assert_eq!(*margin, Some(vec2(4, 5)));
        }
        DrawCmd::Label { .. } => panic!("expected an editbox draw call"),
    }
}

#[test]
fn label_font_size_override_is_used() {
    let mut ui = Ui::new(200, false);
    let mut data = String::new();
    InputText::new(1).label("n").label_font_size(22).ui(&mut ui, &mut data);
    match &ui.draws[1] {
        DrawCmd::Label { font_size, .. } => assert_eq!(*font_size, 22),
        DrawCmd::Editbox { .. } => panic!("expected a label draw call"),
    }
}
