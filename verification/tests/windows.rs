use nvim_redraw::window::{
    parse_msg_set_pos, parse_win_close, parse_win_external_pos, parse_win_float_pos,
    parse_win_hide, parse_win_pos, parse_win_viewport, parse_win_viewport_margins,
    parse_window_anchor,
};
use nvim_redraw::{Number, ParseError, RedrawEvent, WindowAnchor, WireValue};

fn text(s: &str) -> WireValue {
    WireValue::String(s.to_string())
}

fn handle() -> WireValue {
    WireValue::Ext(1, vec![0xcd, 0x03, 0xe8])
}

#[test]
fn win_pos_reads_grid_start_and_size() {
    let tuple = vec![
        WireValue::Unsigned(2),
        handle(),
        WireValue::Unsigned(3),
        WireValue::Unsigned(4),
        WireValue::Unsigned(80),
        WireValue::Unsigned(24),
    ];
    assert_eq!(
        parse_win_pos(&tuple),
        Ok(RedrawEvent::WindowPosition {
            grid: 2,
            start_row: 3,
            start_column: 4,
            width: 80,
            height: 24
        })
    );
}

#[test]
fn win_pos_does_not_read_the_window() {
    let tuple = vec![
        WireValue::Unsigned(2),
        WireValue::Nil,
        WireValue::Unsigned(3),
        WireValue::Unsigned(4),
        WireValue::Unsigned(80),
        WireValue::Unsigned(24),
    ];
    assert!(parse_win_pos(&tuple).is_ok());
}

#[test]
fn win_pos_needs_six_values() {
    let tuple = vec![WireValue::Unsigned(2), handle()];
    assert_eq!(
        parse_win_pos(&tuple),
        Err(ParseError::Format("[Integer(PosInt(2)), Ext(1, [205, 3, 232])]".to_string()))
    );
}

#[test]
fn win_pos_reports_the_first_malformed_value() {
    let tuple = vec![
        WireValue::Unsigned(2),
        handle(),
        WireValue::Unsigned(3),
        text("c"),
        text("w"),
        WireValue::Unsigned(24),
    ];
    assert_eq!(parse_win_pos(&tuple), Err(ParseError::U64(text("c"))));
}

#[test]
fn the_four_anchors() {
    assert_eq!(parse_window_anchor(&text("NW")), Ok(WindowAnchor::NorthWest));
    assert_eq!(parse_window_anchor(&text("NE")), Ok(WindowAnchor::NorthEast));
    assert_eq!(parse_window_anchor(&text("SW")), Ok(WindowAnchor::SouthWest));
    assert_eq!(parse_window_anchor(&text("SE")), Ok(WindowAnchor::SouthEast));
}

#[test]
fn any_other_anchor_is_an_error_of_its_own_kind() {
    assert_eq!(parse_window_anchor(&text("nw")), Err(ParseError::WindowAnchor(text("nw"))));
    assert_eq!(parse_window_anchor(&text("")), Err(ParseError::WindowAnchor(text(""))));
    assert_eq!(
        parse_window_anchor(&WireValue::RawString(vec![0xff])),
        Err(ParseError::WindowAnchor(text("\u{FFFD}")))
    );
    assert_eq!(
        parse_window_anchor(&WireValue::Unsigned(0)),
        Err(ParseError::String(WireValue::Unsigned(0)))
    );
}

fn float_pos(trailing: Vec<WireValue>) -> Vec<WireValue> {
    let mut tuple = vec![
        WireValue::Unsigned(5),
        handle(),
        text("SE"),
        WireValue::Unsigned(1),
        WireValue::Float64(10.5f64.to_bits()),
        WireValue::Unsigned(3),
        WireValue::Boolean(false),
        WireValue::Unsigned(200),
    ];
    tuple.extend(trailing);
    tuple
}

fn float_position(
    comp_index: Option<u64>,
    screen_row: Option<u64>,
    screen_col: Option<u64>,
) -> RedrawEvent {
    RedrawEvent::WindowFloatPosition {
        grid: 5,
        anchor: WindowAnchor::SouthEast,
        anchor_grid: 1,
        anchor_row: Number::Double(10.5f64.to_bits()),
        anchor_column: Number::Unsigned(3),
        mouse_enabled: false,
        z_index: 200,
        comp_index,
        screen_row,
        screen_col,
    }
}

#[test]
fn win_float_pos_with_required_values_only() {
    assert_eq!(parse_win_float_pos(&float_pos(vec![])), Ok(float_position(None, None, None)));
}

#[test]
fn win_float_pos_with_some_optional_values() {
    assert_eq!(
        parse_win_float_pos(&float_pos(vec![WireValue::Unsigned(7)])),
        Ok(float_position(Some(7), None, None))
    );
    assert_eq!(
        parse_win_float_pos(&float_pos(vec![WireValue::Unsigned(7), WireValue::Unsigned(8)])),
        Ok(float_position(Some(7), Some(8), None))
    );
    assert_eq!(
        parse_win_float_pos(&float_pos(vec![
            WireValue::Unsigned(7),
            WireValue::Unsigned(8),
            WireValue::Unsigned(9)
        ])),
        Ok(float_position(Some(7), Some(8), Some(9)))
    );
}

#[test]
fn win_float_pos_passes_over_values_past_the_optional_ones() {
    let trailing = vec![
        WireValue::Unsigned(7),
        WireValue::Unsigned(8),
        WireValue::Unsigned(9),
        text("new in a later version"),
        WireValue::Nil,
    ];
    assert_eq!(
        parse_win_float_pos(&float_pos(trailing)),
        Ok(float_position(Some(7), Some(8), Some(9)))
    );
}

#[test]
fn win_float_pos_refuses_a_malformed_optional_value() {
    assert_eq!(
        parse_win_float_pos(&float_pos(vec![WireValue::Unsigned(7), WireValue::Nil])),
        Err(ParseError::U64(WireValue::Nil))
    );
}

#[test]
fn win_float_pos_needs_eight_values() {
    let mut tuple = float_pos(vec![]);
    tuple.pop();
    assert!(matches!(parse_win_float_pos(&tuple), Err(ParseError::Format(_))));
}

#[test]
fn win_float_pos_reports_the_first_malformed_value() {
    let mut tuple = float_pos(vec![]);
    tuple[2] = text("XX");
    tuple[4] = WireValue::Nil;
    assert_eq!(parse_win_float_pos(&tuple), Err(ParseError::WindowAnchor(text("XX"))));
    tuple[2] = text("NE");
    assert_eq!(parse_win_float_pos(&tuple), Err(ParseError::F64(WireValue::Nil)));
    tuple[4] = WireValue::Unsigned(0);
    tuple[6] = WireValue::Unsigned(1);
    assert_eq!(parse_win_float_pos(&tuple), Err(ParseError::Bool(WireValue::Unsigned(1))));
}

#[test]
fn win_external_pos_hide_and_close_read_the_grid() {
    let tuple = vec![WireValue::Unsigned(6), handle()];
    assert_eq!(
        parse_win_external_pos(&tuple),
        Ok(RedrawEvent::WindowExternalPosition { grid: 6 })
    );
    assert_eq!(
        parse_win_external_pos(&vec![WireValue::Unsigned(6)]),
        Err(ParseError::Format("[Integer(PosInt(6))]".to_string()))
    );
    assert_eq!(parse_win_hide(&vec![WireValue::Unsigned(6)]), Ok(RedrawEvent::WindowHide { grid: 6 }));
    assert_eq!(
        parse_win_close(&vec![WireValue::Unsigned(6)]),
        Ok(RedrawEvent::WindowClose { grid: 6 })
    );
    assert_eq!(parse_win_hide(&vec![]), Err(ParseError::Format("[]".to_string())));
    assert_eq!(parse_win_close(&vec![]), Err(ParseError::Format("[]".to_string())));
    assert_eq!(parse_win_hide(&vec![handle()]), Err(ParseError::U64(handle())));
    assert_eq!(parse_win_close(&vec![handle()]), Err(ParseError::U64(handle())));
    assert_eq!(parse_win_external_pos(&vec![handle(), handle()]), Err(ParseError::U64(handle())));
}

fn msg_set_pos(trailing: Vec<WireValue>) -> Vec<WireValue> {
    let mut tuple =
        vec![WireValue::Unsigned(3), WireValue::Unsigned(20), WireValue::Boolean(true), text("-")];
    tuple.extend(trailing);
    tuple
}

#[test]
fn msg_set_pos_with_and_without_optional_values() {
    let event = |z_index, comp_index| RedrawEvent::MessageSetPosition {
        grid: 3,
        row: 20,
        scrolled: true,
        separator_character: "-".to_string(),
        z_index,
        comp_index,
    };
    assert_eq!(parse_msg_set_pos(&msg_set_pos(vec![])), Ok(event(None, None)));
    assert_eq!(
        parse_msg_set_pos(&msg_set_pos(vec![WireValue::Unsigned(200)])),
        Ok(event(Some(200), None))
    );
    assert_eq!(
        parse_msg_set_pos(&msg_set_pos(vec![WireValue::Unsigned(200), WireValue::Unsigned(1)])),
        Ok(event(Some(200), Some(1)))
    );
    assert_eq!(
        parse_msg_set_pos(&msg_set_pos(vec![
            WireValue::Unsigned(200),
            WireValue::Unsigned(1),
            WireValue::Nil
        ])),
        Ok(event(Some(200), Some(1)))
    );
}

#[test]
fn msg_set_pos_errors() {
    let mut tuple = msg_set_pos(vec![]);
    tuple.pop();
    assert!(matches!(parse_msg_set_pos(&tuple), Err(ParseError::Format(_))));
    let mut tuple = msg_set_pos(vec![]);
    tuple[2] = WireValue::Nil;
    tuple[3] = WireValue::Nil;
    assert_eq!(parse_msg_set_pos(&tuple), Err(ParseError::Bool(WireValue::Nil)));
    assert_eq!(
        parse_msg_set_pos(&msg_set_pos(vec![text("z")])),
        Err(ParseError::U64(text("z")))
    );
}

fn viewport(trailing: Vec<WireValue>) -> Vec<WireValue> {
    let mut tuple = vec![
        WireValue::Unsigned(2),
        handle(),
        WireValue::Unsigned(0),
        WireValue::Unsigned(41),
        WireValue::Unsigned(12),
        WireValue::Float32(4.0f32.to_bits()),
    ];
    tuple.extend(trailing);
    tuple
}

#[test]
fn win_viewport_with_and_without_optional_values() {
    let event = |line_count, scroll_delta| RedrawEvent::WindowViewport {
        grid: 2,
        top_line: Number::Unsigned(0),
        bottom_line: Number::Unsigned(41),
        current_line: Number::Unsigned(12),
        current_column: Number::Single(4.0f32.to_bits()),
        line_count,
        scroll_delta,
    };
    assert_eq!(parse_win_viewport(&viewport(vec![])), Ok(event(None, None)));
    assert_eq!(
        parse_win_viewport(&viewport(vec![WireValue::Unsigned(900)])),
        Ok(event(Some(Number::Unsigned(900)), None))
    );
    assert_eq!(
        parse_win_viewport(&viewport(vec![WireValue::Unsigned(900), WireValue::Signed(-3)])),
        Ok(event(Some(Number::Unsigned(900)), Some(Number::Signed(-3))))
    );
    assert_eq!(
        parse_win_viewport(&viewport(vec![
            WireValue::Unsigned(900),
            WireValue::Signed(-3),
            text("more")
        ])),
        Ok(event(Some(Number::Unsigned(900)), Some(Number::Signed(-3))))
    );
}

#[test]
fn win_viewport_errors() {
    let mut tuple = viewport(vec![]);
    tuple.pop();
    assert!(matches!(parse_win_viewport(&tuple), Err(ParseError::Format(_))));
    let mut tuple = viewport(vec![]);
    tuple[3] = text("b");
    assert_eq!(parse_win_viewport(&tuple), Err(ParseError::F64(text("b"))));
    assert_eq!(
        parse_win_viewport(&viewport(vec![WireValue::Unsigned(1), WireValue::Boolean(true)])),
        Err(ParseError::F64(WireValue::Boolean(true)))
    );
}

#[test]
fn win_viewport_margins_reads_grid_and_margins() {
    let tuple = vec![
        WireValue::Unsigned(2),
        handle(),
        WireValue::Unsigned(1),
        WireValue::Unsigned(0),
        WireValue::Unsigned(2),
        WireValue::Unsigned(3),
    ];
    assert_eq!(
        parse_win_viewport_margins(&tuple),
        Ok(RedrawEvent::WindowViewportMargins { grid: 2, top: 1, bottom: 0, left: 2, right: 3 })
    );
    let mut short = tuple.clone();
    short.pop();
    assert!(matches!(parse_win_viewport_margins(&short), Err(ParseError::Format(_))));
    let mut wrong = tuple;
    wrong[5] = WireValue::Signed(-1);
    assert_eq!(parse_win_viewport_margins(&wrong), Err(ParseError::U64(WireValue::Signed(-1))));
}
