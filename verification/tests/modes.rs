use nvim_redraw::mode::{
    apply_mode_entry, parse_cursor_mode, parse_gui_option, parse_mode_change,
    parse_mode_info_set, parse_option_set, parse_set_title,
};
use nvim_redraw::{
    CursorMode, CursorShape, EditorMode, GuiOption, Number, ParseError, RedrawEvent, WireValue,
};

fn text(s: &str) -> WireValue {
    WireValue::String(s.to_string())
}

fn entries(pairs: Vec<(&str, WireValue)>) -> WireValue {
    WireValue::Mapping(pairs.into_iter().map(|(key, value)| (text(key), value)).collect())
}

#[test]
fn set_title_reads_the_title() {
    assert_eq!(
        parse_set_title(&vec![text("notes.txt - editor")]),
        Ok(RedrawEvent::SetTitle { title: "notes.txt - editor".to_string() })
    );
}

#[test]
fn set_title_needs_a_value() {
    assert_eq!(parse_set_title(&vec![]), Err(ParseError::Format("[]".to_string())));
}

#[test]
fn set_title_is_asked_of_an_integer() {
    assert_eq!(
        parse_set_title(&vec![WireValue::Unsigned(1)]),
        Err(ParseError::String(WireValue::Unsigned(1)))
    );
}

#[test]
fn set_title_that_is_not_utf8_reads_as_the_replacement_character() {
    assert_eq!(
        parse_set_title(&vec![WireValue::RawString(vec![0xc3, 0x28])]),
        Ok(RedrawEvent::SetTitle { title: "\u{FFFD}".to_string() })
    );
}

#[test]
fn cursor_mode_reads_every_known_key() {
    let map = entries(vec![
        ("cursor_shape", text("vertical")),
        ("cell_percentage", WireValue::Unsigned(25)),
        ("blinkwait", WireValue::Unsigned(700)),
        ("blinkon", WireValue::Unsigned(400)),
        ("blinkoff", WireValue::Unsigned(250)),
        ("attr_id", WireValue::Unsigned(64)),
        ("name", text("insert")),
        ("short_name", text("i")),
    ]);
    assert_eq!(
        parse_cursor_mode(&map),
        Ok(CursorMode {
            shape: Some(CursorShape::Vertical),
            style_id: Some(64),
            cell_percentage: Some(25),
            blinkwait: Some(700),
            blinkon: Some(400),
            blinkoff: Some(250),
        })
    );
}

#[test]
fn cursor_mode_of_an_empty_map_says_nothing() {
    assert_eq!(parse_cursor_mode(&entries(vec![])), Ok(CursorMode::default()));
}

#[test]
fn cursor_mode_with_an_unknown_shape_has_no_shape() {
    let map = entries(vec![("cursor_shape", text("block")), ("cursor_shape", text("round"))]);
    assert_eq!(parse_cursor_mode(&map), Ok(CursorMode::default()));
}

#[test]
fn cursor_mode_takes_the_later_entry_of_a_key() {
    let map = entries(vec![
        ("blinkon", WireValue::Unsigned(1)),
        ("blinkon", WireValue::Unsigned(2)),
    ]);
    assert_eq!(parse_cursor_mode(&map), Ok(CursorMode { blinkon: Some(2), ..CursorMode::default() }));
}

#[test]
fn cursor_mode_is_asked_of_an_array() {
    assert_eq!(
        parse_cursor_mode(&WireValue::Array(vec![])),
        Err(ParseError::Mapping(WireValue::Array(vec![])))
    );
}

#[test]
fn cursor_mode_key_has_to_be_a_string() {
    let map = WireValue::Mapping(vec![(WireValue::Unsigned(1), WireValue::Unsigned(2))]);
    assert_eq!(parse_cursor_mode(&map), Err(ParseError::String(WireValue::Unsigned(1))));
}

#[test]
fn cursor_mode_value_has_to_fit_its_key() {
    let map = entries(vec![("blinkwait", text("soon"))]);
    assert_eq!(parse_cursor_mode(&map), Err(ParseError::U64(text("soon"))));
    let map = entries(vec![("cursor_shape", WireValue::Unsigned(1))]);
    assert_eq!(parse_cursor_mode(&map), Err(ParseError::String(WireValue::Unsigned(1))));
    let map = entries(vec![("mouse_shape", WireValue::Unsigned(1))]);
    assert_eq!(parse_cursor_mode(&map), Ok(CursorMode::default()));
}

#[test]
fn cursor_mode_reports_the_first_malformed_entry() {
    let map = entries(vec![
        ("blinkon", WireValue::Unsigned(1)),
        ("blinkoff", WireValue::Nil),
        ("blinkwait", text("x")),
    ]);
    assert_eq!(parse_cursor_mode(&map), Err(ParseError::U64(WireValue::Nil)));
}

#[test]
fn one_mode_entry_at_a_time() {
    let mode = CursorMode::default();
    assert_eq!(
        apply_mode_entry(mode, &text("attr_id"), &WireValue::Unsigned(3)),
        Ok(CursorMode { style_id: Some(3), ..mode })
    );
    assert_eq!(apply_mode_entry(mode, &text("hl_id"), &WireValue::Unsigned(3)), Ok(mode));
}

#[test]
fn mode_info_set_keeps_the_order_of_the_modes() {
    let tuple = vec![
        WireValue::Boolean(true),
        WireValue::Array(vec![
            entries(vec![("cursor_shape", text("block"))]),
            entries(vec![]),
            entries(vec![("cursor_shape", text("horizontal")), ("cell_percentage", WireValue::Unsigned(20))]),
        ]),
    ];
    assert_eq!(
        parse_mode_info_set(&tuple),
        Ok(RedrawEvent::ModeInfoSet {
            cursor_modes: vec![
                CursorMode { shape: Some(CursorShape::Block), ..CursorMode::default() },
                CursorMode::default(),
                CursorMode {
                    shape: Some(CursorShape::Horizontal),
                    cell_percentage: Some(20),
                    ..CursorMode::default()
                },
            ]
        })
    );
}

#[test]
fn mode_info_set_does_not_read_its_first_value() {
    let tuple = vec![WireValue::Nil, WireValue::Array(vec![])];
    assert_eq!(parse_mode_info_set(&tuple), Ok(RedrawEvent::ModeInfoSet { cursor_modes: vec![] }));
}

#[test]
fn mode_info_set_needs_two_values() {
    assert_eq!(
        parse_mode_info_set(&vec![WireValue::Boolean(true)]),
        Err(ParseError::Format("[Boolean(true)]".to_string()))
    );
}

#[test]
fn mode_info_set_reports_the_first_malformed_mode() {
    let tuple = vec![
        WireValue::Boolean(true),
        WireValue::Array(vec![entries(vec![]), WireValue::Unsigned(1), WireValue::Nil]),
    ];
    assert_eq!(parse_mode_info_set(&tuple), Err(ParseError::Mapping(WireValue::Unsigned(1))));
    let tuple = vec![WireValue::Boolean(true), WireValue::Nil];
    assert_eq!(parse_mode_info_set(&tuple), Err(ParseError::Array(WireValue::Nil)));
}

#[test]
fn every_known_option() {
    let option = |name: &str, value: WireValue| parse_gui_option(name.to_string(), &value);
    assert_eq!(option("arabicshape", WireValue::Boolean(true)), Ok(GuiOption::ArabicShape(true)));
    assert_eq!(option("ambiwidth", text("single")), Ok(GuiOption::AmbiWidth("single".to_string())));
    assert_eq!(option("emoji", WireValue::Boolean(false)), Ok(GuiOption::Emoji(false)));
    assert_eq!(option("guifont", text("Mono:h12")), Ok(GuiOption::GuiFont("Mono:h12".to_string())));
    assert_eq!(option("guifontset", text("")), Ok(GuiOption::GuiFontSet(String::new())));
    assert_eq!(option("guifontwide", text("W")), Ok(GuiOption::GuiFontWide("W".to_string())));
    assert_eq!(
        option("linespace", WireValue::Unsigned(2)),
        Ok(GuiOption::LineSpace(Number::Unsigned(2)))
    );
    assert_eq!(
        option("linespace", WireValue::Float64(1.5f64.to_bits())),
        Ok(GuiOption::LineSpace(Number::Double(1.5f64.to_bits())))
    );
    assert_eq!(option("pumblend", WireValue::Unsigned(30)), Ok(GuiOption::Pumblend(30)));
    assert_eq!(option("showtabline", WireValue::Unsigned(2)), Ok(GuiOption::ShowTabLine(2)));
    assert_eq!(
        option("termguicolors", WireValue::Boolean(true)),
        Ok(GuiOption::TermGuiColors(true))
    );
}

#[test]
fn an_unknown_option_is_kept_by_name_and_value() {
    assert_eq!(
        parse_gui_option("ext_tabline".to_string(), &WireValue::Boolean(false)),
        Ok(GuiOption::Unknown("ext_tabline".to_string(), WireValue::Boolean(false)))
    );
}

#[test]
fn a_known_option_has_to_have_its_kind_of_value() {
    let option = |name: &str, value: WireValue| parse_gui_option(name.to_string(), &value);
    assert_eq!(option("arabicshape", WireValue::Nil), Err(ParseError::Bool(WireValue::Nil)));
    assert_eq!(option("ambiwidth", WireValue::Nil), Err(ParseError::String(WireValue::Nil)));
    assert_eq!(option("linespace", text("2")), Err(ParseError::F64(text("2"))));
    assert_eq!(option("pumblend", WireValue::Signed(-1)), Err(ParseError::U64(WireValue::Signed(-1))));
}

#[test]
fn option_set_reads_name_and_value() {
    assert_eq!(
        parse_option_set(&vec![text("emoji"), WireValue::Boolean(true)]),
        Ok(RedrawEvent::OptionSet { gui_option: GuiOption::Emoji(true) })
    );
    assert_eq!(
        parse_option_set(&vec![text("mousefocus"), WireValue::Array(vec![])]),
        Ok(RedrawEvent::OptionSet {
            gui_option: GuiOption::Unknown("mousefocus".to_string(), WireValue::Array(vec![]))
        })
    );
}

#[test]
fn option_set_needs_two_values_and_a_name() {
    assert_eq!(
        parse_option_set(&vec![text("emoji")]),
        Err(ParseError::Format("[String(Utf8String { s: Ok(\"emoji\") })]".to_string()))
    );
    assert_eq!(
        parse_option_set(&vec![WireValue::Nil, WireValue::Nil]),
        Err(ParseError::String(WireValue::Nil))
    );
}

#[test]
fn editor_mode_names() {
    assert_eq!(EditorMode::from_name("normal".to_string()), EditorMode::Normal);
    assert_eq!(EditorMode::from_name("insert".to_string()), EditorMode::Insert);
    assert_eq!(EditorMode::from_name("visual".to_string()), EditorMode::Visual);
    assert_eq!(EditorMode::from_name("replace".to_string()), EditorMode::Replace);
    assert_eq!(EditorMode::from_name("cmdline_normal".to_string()), EditorMode::CmdLine);
    assert_eq!(
        EditorMode::from_name("operator".to_string()),
        EditorMode::Unknown("operator".to_string())
    );
    assert_eq!(EditorMode::from_name(String::new()), EditorMode::Unknown(String::new()));
}

#[test]
fn mode_change_reads_mode_and_index() {
    assert_eq!(
        parse_mode_change(&vec![text("insert"), WireValue::Unsigned(2)]),
        Ok(RedrawEvent::ModeChange { mode: EditorMode::Insert, mode_index: 2 })
    );
    assert_eq!(
        parse_mode_change(&vec![text("terminal"), WireValue::Unsigned(9)]),
        Ok(RedrawEvent::ModeChange {
            mode: EditorMode::Unknown("terminal".to_string()),
            mode_index: 9
        })
    );
}

#[test]
fn mode_change_reports_the_name_before_the_index() {
    assert_eq!(
        parse_mode_change(&vec![WireValue::Nil, text("x")]),
        Err(ParseError::String(WireValue::Nil))
    );
    assert_eq!(
        parse_mode_change(&vec![text("normal"), text("x")]),
        Err(ParseError::U64(text("x")))
    );
    assert_eq!(
        parse_mode_change(&vec![text("normal")]),
        Err(ParseError::Format("[String(Utf8String { s: Ok(\"normal\") })]".to_string()))
    );
}
