use nvim_redraw::content::{
    parse_cmdline_block_append, parse_cmdline_block_show, parse_cmdline_pos, parse_cmdline_show,
    parse_cmdline_special_char, parse_content_chunk, parse_msg_history_entry,
    parse_msg_history_show, parse_msg_ruler, parse_msg_show, parse_msg_showcmd,
    parse_msg_showmode, parse_styled_content,
};
use nvim_redraw::{MessageKind, ParseError, RedrawEvent, StyledContent, WireValue};

fn text(s: &str) -> WireValue {
    WireValue::String(s.to_string())
}

fn chunk(style_id: u64, s: &str) -> WireValue {
    WireValue::Array(vec![WireValue::Unsigned(style_id), text(s)])
}

fn hello_world() -> WireValue {
    WireValue::Array(vec![chunk(0, "hello "), chunk(5, "world")])
}

fn hello_world_content() -> StyledContent {
    vec![(0, "hello ".to_string()), (5, "world".to_string())]
}

#[test]
fn message_kind_table() {
    assert_eq!(MessageKind::parse("confirm"), MessageKind::Confirm);
    assert_eq!(MessageKind::parse("confirm_sub"), MessageKind::ConfirmSubstitute);
    assert_eq!(MessageKind::parse("emsg"), MessageKind::Error);
    assert_eq!(MessageKind::parse("echo"), MessageKind::Echo);
    assert_eq!(MessageKind::parse("echomsg"), MessageKind::EchoMessage);
    assert_eq!(MessageKind::parse("echoerr"), MessageKind::EchoError);
    assert_eq!(MessageKind::parse("lua_error"), MessageKind::LuaError);
    assert_eq!(MessageKind::parse("rpc_error"), MessageKind::RpcError);
    assert_eq!(MessageKind::parse("return_prompt"), MessageKind::ReturnPrompt);
    assert_eq!(MessageKind::parse("quickfix"), MessageKind::QuickFix);
    assert_eq!(MessageKind::parse("search_count"), MessageKind::SearchCount);
    assert_eq!(MessageKind::parse("wmsg"), MessageKind::Warning);
}

#[test]
fn message_kind_outside_the_table_is_unknown() {
    assert_eq!(MessageKind::parse(""), MessageKind::Unknown);
    assert_eq!(MessageKind::parse("Echo"), MessageKind::Unknown);
    assert_eq!(MessageKind::parse("echo "), MessageKind::Unknown);
    assert_eq!(MessageKind::parse("bufwrite"), MessageKind::Unknown);
}

#[test]
fn chunk_is_a_pair_of_id_and_text() {
    assert_eq!(parse_content_chunk(&chunk(3, "abc")), Ok((3, "abc".to_string())));
    let longer =
        WireValue::Array(vec![WireValue::Unsigned(3), text("abc"), WireValue::Unsigned(9)]);
    assert_eq!(parse_content_chunk(&longer), Ok((3, "abc".to_string())));
}

#[test]
fn chunk_errors() {
    assert_eq!(parse_content_chunk(&WireValue::Nil), Err(ParseError::Array(WireValue::Nil)));
    assert_eq!(
        parse_content_chunk(&WireValue::Array(vec![WireValue::Unsigned(3)])),
        Err(ParseError::Format("[Integer(PosInt(3))]".to_string()))
    );
    assert_eq!(
        parse_content_chunk(&WireValue::Array(vec![text("3"), WireValue::Nil])),
        Err(ParseError::U64(text("3")))
    );
    assert_eq!(
        parse_content_chunk(&WireValue::Array(vec![WireValue::Unsigned(3), WireValue::Nil])),
        Err(ParseError::String(WireValue::Nil))
    );
}

#[test]
fn styled_content_keeps_the_order_of_its_chunks() {
    assert_eq!(parse_styled_content(&hello_world()), Ok(hello_world_content()));
    assert_eq!(parse_styled_content(&WireValue::Array(vec![])), Ok(vec![]));
}

#[test]
fn styled_content_reports_the_first_malformed_chunk() {
    let content = WireValue::Array(vec![chunk(0, "a"), WireValue::Unsigned(1), WireValue::Nil]);
    assert_eq!(parse_styled_content(&content), Err(ParseError::Array(WireValue::Unsigned(1))));
    assert_eq!(parse_styled_content(&text("a")), Err(ParseError::Array(text("a"))));
}

#[test]
fn cmdline_show_reads_six_values() {
    let tuple = vec![
        hello_world(),
        WireValue::Unsigned(4),
        text(":"),
        text("Name: "),
        WireValue::Unsigned(2),
        WireValue::Unsigned(1),
    ];
    assert_eq!(
        parse_cmdline_show(&tuple),
        Ok(RedrawEvent::CommandLineShow {
            content: hello_world_content(),
            position: 4,
            first_character: ":".to_string(),
            prompt: "Name: ".to_string(),
            indent: 2,
            level: 1,
        })
    );
}

#[test]
fn cmdline_show_errors() {
    let tuple = vec![hello_world(), WireValue::Unsigned(4), text(":"), text(""), WireValue::Nil];
    assert!(matches!(parse_cmdline_show(&tuple), Err(ParseError::Format(_))));
    let tuple = vec![
        WireValue::Nil,
        text("p"),
        WireValue::Nil,
        WireValue::Nil,
        WireValue::Nil,
        WireValue::Nil,
    ];
    assert_eq!(parse_cmdline_show(&tuple), Err(ParseError::Array(WireValue::Nil)));
    let tuple = vec![
        hello_world(),
        WireValue::Unsigned(4),
        text(":"),
        WireValue::Unsigned(0),
        WireValue::Nil,
        WireValue::Nil,
    ];
    assert_eq!(parse_cmdline_show(&tuple), Err(ParseError::String(WireValue::Unsigned(0))));
}

#[test]
fn cmdline_pos_reads_position_and_level() {
    assert_eq!(
        parse_cmdline_pos(&vec![WireValue::Unsigned(7), WireValue::Unsigned(1)]),
        Ok(RedrawEvent::CommandLinePosition { position: 7, level: 1 })
    );
    assert_eq!(
        parse_cmdline_pos(&vec![WireValue::Unsigned(7)]),
        Err(ParseError::Format("[Integer(PosInt(7))]".to_string()))
    );
    assert_eq!(
        parse_cmdline_pos(&vec![WireValue::Unsigned(7), WireValue::Nil]),
        Err(ParseError::U64(WireValue::Nil))
    );
}

#[test]
fn cmdline_special_char_reads_character_shift_and_level() {
    let tuple = vec![text("^"), WireValue::Boolean(true), WireValue::Unsigned(1)];
    assert_eq!(
        parse_cmdline_special_char(&tuple),
        Ok(RedrawEvent::CommandLineSpecialCharacter {
            character: "^".to_string(),
            shift: true,
            level: 1
        })
    );
    let tuple = vec![text("^"), WireValue::Unsigned(1), WireValue::Unsigned(1)];
    assert_eq!(parse_cmdline_special_char(&tuple), Err(ParseError::Bool(WireValue::Unsigned(1))));
    assert!(matches!(parse_cmdline_special_char(&vec![text("^")]), Err(ParseError::Format(_))));
}

#[test]
fn cmdline_block_show_keeps_the_order_of_its_lines() {
    let tuple =
        vec![WireValue::Array(vec![hello_world(), WireValue::Array(vec![]), hello_world()])];
    assert_eq!(
        parse_cmdline_block_show(&tuple),
        Ok(RedrawEvent::CommandLineBlockShow {
            lines: vec![hello_world_content(), vec![], hello_world_content()]
        })
    );
}

#[test]
fn cmdline_block_show_errors() {
    assert_eq!(parse_cmdline_block_show(&vec![]), Err(ParseError::Format("[]".to_string())));
    assert_eq!(
        parse_cmdline_block_show(&vec![WireValue::Nil]),
        Err(ParseError::Array(WireValue::Nil))
    );
    let tuple = vec![WireValue::Array(vec![hello_world(), WireValue::Array(vec![text("x")])])];
    assert_eq!(parse_cmdline_block_show(&tuple), Err(ParseError::Array(text("x"))));
}

#[test]
fn cmdline_block_append_reads_one_line() {
    assert_eq!(
        parse_cmdline_block_append(&vec![hello_world()]),
        Ok(RedrawEvent::CommandLineBlockAppend { line: hello_world_content() })
    );
    assert_eq!(parse_cmdline_block_append(&vec![]), Err(ParseError::Format("[]".to_string())));
    assert_eq!(
        parse_cmdline_block_append(&vec![WireValue::Nil]),
        Err(ParseError::Array(WireValue::Nil))
    );
}

#[test]
fn msg_show_reads_kind_content_and_flag() {
    let tuple = vec![text("emsg"), hello_world(), WireValue::Boolean(false)];
    assert_eq!(
        parse_msg_show(&tuple),
        Ok(RedrawEvent::MessageShow {
            kind: MessageKind::Error,
            content: hello_world_content(),
            replace_last: false
        })
    );
    let tuple = vec![text("list_cmd"), hello_world(), WireValue::Boolean(true)];
    assert_eq!(
        parse_msg_show(&tuple),
        Ok(RedrawEvent::MessageShow {
            kind: MessageKind::Unknown,
            content: hello_world_content(),
            replace_last: true
        })
    );
}

#[test]
fn msg_show_errors() {
    assert!(matches!(
        parse_msg_show(&vec![text("emsg"), hello_world()]),
        Err(ParseError::Format(_))
    ));
    let tuple = vec![WireValue::Nil, WireValue::Nil, WireValue::Nil];
    assert_eq!(parse_msg_show(&tuple), Err(ParseError::String(WireValue::Nil)));
    let tuple = vec![text("emsg"), WireValue::Nil, WireValue::Nil];
    assert_eq!(parse_msg_show(&tuple), Err(ParseError::Array(WireValue::Nil)));
    let tuple = vec![text("emsg"), hello_world(), WireValue::Nil];
    assert_eq!(parse_msg_show(&tuple), Err(ParseError::Bool(WireValue::Nil)));
}

#[test]
fn msg_showmode_showcmd_and_ruler_read_the_content() {
    assert_eq!(
        parse_msg_showmode(&vec![hello_world()]),
        Ok(RedrawEvent::MessageShowMode { content: hello_world_content() })
    );
    assert_eq!(
        parse_msg_showcmd(&vec![hello_world()]),
        Ok(RedrawEvent::MessageShowCommand { content: hello_world_content() })
    );
    assert_eq!(
        parse_msg_ruler(&vec![hello_world()]),
        Ok(RedrawEvent::MessageRuler { content: hello_world_content() })
    );
    assert_eq!(parse_msg_showmode(&vec![]), Err(ParseError::Format("[]".to_string())));
    assert_eq!(parse_msg_showcmd(&vec![]), Err(ParseError::Format("[]".to_string())));
    assert_eq!(parse_msg_ruler(&vec![]), Err(ParseError::Format("[]".to_string())));
    assert_eq!(parse_msg_showmode(&vec![text("x")]), Err(ParseError::Array(text("x"))));
    assert_eq!(parse_msg_showcmd(&vec![text("x")]), Err(ParseError::Array(text("x"))));
    assert_eq!(parse_msg_ruler(&vec![text("x")]), Err(ParseError::Array(text("x"))));
}

#[test]
fn history_entry_is_a_pair_of_kind_and_content() {
    let entry = WireValue::Array(vec![text("echomsg"), hello_world()]);
    assert_eq!(
        parse_msg_history_entry(&entry),
        Ok((MessageKind::EchoMessage, hello_world_content()))
    );
    assert_eq!(
        parse_msg_history_entry(&WireValue::Array(vec![text("echomsg")])),
        Err(ParseError::Format("[String(Utf8String { s: Ok(\"echomsg\") })]".to_string()))
    );
    assert_eq!(parse_msg_history_entry(&text("e")), Err(ParseError::Array(text("e"))));
}

#[test]
fn history_keeps_the_order_of_its_entries() {
    let tuple = vec![WireValue::Array(vec![
        WireValue::Array(vec![text("wmsg"), hello_world()]),
        WireValue::Array(vec![text("other"), WireValue::Array(vec![])]),
    ])];
    assert_eq!(
        parse_msg_history_show(&tuple),
        Ok(RedrawEvent::MessageHistoryShow {
            entries: vec![
                (MessageKind::Warning, hello_world_content()),
                (MessageKind::Unknown, vec![]),
            ]
        })
    );
}

#[test]
fn history_errors() {
    assert_eq!(parse_msg_history_show(&vec![]), Err(ParseError::Format("[]".to_string())));
    assert_eq!(
        parse_msg_history_show(&vec![WireValue::Nil]),
        Err(ParseError::Array(WireValue::Nil))
    );
    let tuple = vec![WireValue::Array(vec![
        WireValue::Array(vec![text("wmsg"), hello_world()]),
        WireValue::Array(vec![WireValue::Unsigned(1), hello_world()]),
    ])];
    assert_eq!(parse_msg_history_show(&tuple), Err(ParseError::String(WireValue::Unsigned(1))));
}
