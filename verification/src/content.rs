//! The events of the command line and of messages, which carry styled text.

use vstd::prelude::*;
use crate::error::{yields_view, ParseError, ParseErrorView};
use crate::event::{
    content_view_of, content_views_of, entry_views_of, message_kind_named,
    MessageKind, RedrawEvent, RedrawEventView, StyledContent, StyledContentView,
};
use crate::extract::{
    as_array, as_bool, as_string, as_u64, extract_values, parse_array, parse_bool, parse_string,
    parse_u64, shape_error,
};
use crate::sequence::{lemma_try_map_fails, lemma_try_map_step, try_map};
use crate::wire::{views_of, WireValue, WireView};

verus! {

/// One chunk of styled text: a tuple of the highlight id and the text.
/// Further values are left aside.
pub open spec fn as_content_chunk(value: WireView) -> Result<(u64, Seq<char>), ParseErrorView> {
    match as_array(value) {
        Err(e) => Err(e),
        Ok(parts) => {
            let style_id = as_u64(parts[0]);
            let text = as_string(parts[1]);
            if parts.len() < 2 {
                Err(shape_error(parts))
            } else if style_id is Err {
                Err(style_id->Err_0)
            } else if text is Err {
                Err(text->Err_0)
            } else {
                Ok((style_id->Ok_0, text->Ok_0))
            }
        },
    }
}

/// One chunk of styled text.
pub fn parse_content_chunk(tuple: &WireValue) -> (r: Result<(u64, String), ParseError>)
    ensures
        r matches Ok(chunk) ==> as_content_chunk(tuple@) == Ok::<
            (u64, Seq<char>),
            ParseErrorView,
        >((chunk.0, chunk.1@)),
        r matches Err(e) ==> as_content_chunk(tuple@) == Err::<(u64, Seq<char>), ParseErrorView>(
            e@,
        ),
{
    let parts = parse_array(tuple)?;
    let slots = extract_values(parts, 2)?;
    let style_id = parse_u64(slots[0])?;
    let text = parse_string(slots[1])?;
    Ok((style_id, text))
}

/// [`as_content_chunk`] as a function value.
pub open spec fn content_chunk_decoder() -> spec_fn(WireView) -> Result<
    (u64, Seq<char>),
    ParseErrorView,
> {
    |value: WireView| as_content_chunk(value)
}

/// Styled text: a list of chunks, which keep their order; the first
/// malformed chunk fails the whole text.
pub open spec fn as_styled_content(value: WireView) -> Result<StyledContentView, ParseErrorView> {
    match as_array(value) {
        Err(e) => Err(e),
        Ok(chunks) => try_map(chunks, content_chunk_decoder()),
    }
}

/// Decodes styled text.
pub fn parse_styled_content(line: &WireValue) -> (r: Result<StyledContent, ParseError>)
    ensures
        r matches Ok(content) ==> as_styled_content(line@) == Ok::<
            StyledContentView,
            ParseErrorView,
        >(content_view_of(content@)),
        r matches Err(e) ==> as_styled_content(line@) == Err::<StyledContentView, ParseErrorView>(
            e@,
        ),
{
    let tuples = parse_array(line)?;
    let ghost each = content_chunk_decoder();
    let mut content: Vec<(u64, String)> = Vec::new();
    let mut i: usize = 0;
    proof {
        assert(content_view_of(content@) =~= Seq::empty());
    }
    while i < tuples.len()
        invariant
            i <= tuples.len(),
            each == content_chunk_decoder(),
            as_array(line@) == Ok::<Seq<WireView>, ParseErrorView>(views_of(tuples@)),
            try_map(views_of(tuples@).take(i as int), each) == Ok::<
                StyledContentView,
                ParseErrorView,
            >(content_view_of(content@)),
        decreases tuples.len() - i,
    {
        proof {
            lemma_try_map_step(views_of(tuples@), each, i as int);
        }
        match parse_content_chunk(&tuples[i]) {
            Ok(chunk) => {
                proof {
                    assert(content_view_of(content@.push(chunk)) =~= content_view_of(
                        content@,
                    ).push((chunk.0, chunk.1@)));
                }
                content.push(chunk);
            },
            Err(e) => {
                proof {
                    lemma_try_map_fails(views_of(tuples@), each, i + 1);
                }
                return Err(e);
            },
        }
        i += 1;
    }
    proof {
        assert(views_of(tuples@).take(i as int) =~= views_of(tuples@));
    }
    Ok(content)
}

/// `cmdline_show`: the content, the position of the cursor, the first
/// character, the prompt, the indent and the level.
pub open spec fn cmdline_show_event(args: Seq<WireView>) -> Result<
    RedrawEventView,
    ParseErrorView,
> {
    let content = as_styled_content(args[0]);
    let position = as_u64(args[1]);
    let first_character = as_string(args[2]);
    let prompt = as_string(args[3]);
    let indent = as_u64(args[4]);
    let level = as_u64(args[5]);
    if args.len() < 6 {
        Err(shape_error(args))
    } else if content is Err {
        Err(content->Err_0)
    } else if position is Err {
        Err(position->Err_0)
    } else if first_character is Err {
        Err(first_character->Err_0)
    } else if prompt is Err {
        Err(prompt->Err_0)
    } else if indent is Err {
        Err(indent->Err_0)
    } else if level is Err {
        Err(level->Err_0)
    } else {
        Ok(
            RedrawEventView::CommandLineShow {
                content: content->Ok_0,
                position: position->Ok_0,
                first_character: first_character->Ok_0,
                prompt: prompt->Ok_0,
                indent: indent->Ok_0,
                level: level->Ok_0,
            },
        )
    }
}

/// Decodes one `cmdline_show` tuple.
pub fn parse_cmdline_show(cmdline_show_arguments: &Vec<WireValue>) -> (r: Result<
    RedrawEvent,
    ParseError,
>)
    ensures
        yields_view(r, cmdline_show_event(views_of(cmdline_show_arguments@))),
{
    let slots = extract_values(cmdline_show_arguments, 6)?;
    let content = parse_styled_content(slots[0])?;
    let position = parse_u64(slots[1])?;
    let first_character = parse_string(slots[2])?;
    let prompt = parse_string(slots[3])?;
    let indent = parse_u64(slots[4])?;
    let level = parse_u64(slots[5])?;
    Ok(
        RedrawEvent::CommandLineShow {
            content,
            position,
            first_character,
            prompt,
            indent,
            level,
        },
    )
}

/// `cmdline_pos`: the position of the cursor and the level.
pub open spec fn cmdline_pos_event(args: Seq<WireView>) -> Result<RedrawEventView, ParseErrorView> {
    let position = as_u64(args[0]);
    let level = as_u64(args[1]);
    if args.len() < 2 {
        Err(shape_error(args))
    } else if position is Err {
        Err(position->Err_0)
    } else if level is Err {
        Err(level->Err_0)
    } else {
        Ok(RedrawEventView::CommandLinePosition { position: position->Ok_0, level: level->Ok_0 })
    }
}

/// Decodes one `cmdline_pos` tuple.
pub fn parse_cmdline_pos(cmdline_pos_arguments: &Vec<WireValue>) -> (r: Result<
    RedrawEvent,
    ParseError,
>)
    ensures
        yields_view(r, cmdline_pos_event(views_of(cmdline_pos_arguments@))),
{
    let slots = extract_values(cmdline_pos_arguments, 2)?;
    let position = parse_u64(slots[0])?;
    let level = parse_u64(slots[1])?;
    Ok(RedrawEvent::CommandLinePosition { position, level })
}

/// `cmdline_special_char`: the character, whether it shifts the text after
/// it, and the level.
pub open spec fn cmdline_special_char_event(args: Seq<WireView>) -> Result<
    RedrawEventView,
    ParseErrorView,
> {
    let character = as_string(args[0]);
    let shift = as_bool(args[1]);
    let level = as_u64(args[2]);
    if args.len() < 3 {
        Err(shape_error(args))
    } else if character is Err {
        Err(character->Err_0)
    } else if shift is Err {
        Err(shift->Err_0)
    } else if level is Err {
        Err(level->Err_0)
    } else {
        Ok(
            RedrawEventView::CommandLineSpecialCharacter {
                character: character->Ok_0,
                shift: shift->Ok_0,
                level: level->Ok_0,
            },
        )
    }
}

/// Decodes one `cmdline_special_char` tuple.
pub fn parse_cmdline_special_char(cmdline_special_char_arguments: &Vec<WireValue>) -> (r: Result<
    RedrawEvent,
    ParseError,
>)
    ensures
        yields_view(r, cmdline_special_char_event(views_of(cmdline_special_char_arguments@))),
{
    let slots = extract_values(cmdline_special_char_arguments, 3)?;
    let character = parse_string(slots[0])?;
    let shift = parse_bool(slots[1])?;
    let level = parse_u64(slots[2])?;
    Ok(RedrawEvent::CommandLineSpecialCharacter { character, shift, level })
}

/// [`as_styled_content`] as a function value.
pub open spec fn styled_content_decoder() -> spec_fn(WireView) -> Result<
    StyledContentView,
    ParseErrorView,
> {
    |value: WireView| as_styled_content(value)
}

/// `cmdline_block_show`: the lines of the block, each a styled text. The
/// lines keep their order.
pub open spec fn cmdline_block_show_event(args: Seq<WireView>) -> Result<
    RedrawEventView,
    ParseErrorView,
> {
    if args.len() < 1 {
        Err(shape_error(args))
    } else {
        match as_array(args[0]) {
            Err(e) => Err(e),
            Ok(lines) => match try_map(lines, styled_content_decoder()) {
                Err(e) => Err(e),
                Ok(lines) => Ok(RedrawEventView::CommandLineBlockShow { lines }),
            },
        }
    }
}

/// Decodes one `cmdline_block_show` tuple.
pub fn parse_cmdline_block_show(cmdline_block_show_arguments: &Vec<WireValue>) -> (r: Result<
    RedrawEvent,
    ParseError,
>)
    ensures
        yields_view(r, cmdline_block_show_event(views_of(cmdline_block_show_arguments@))),
{
    let slots = extract_values(cmdline_block_show_arguments, 1)?;
    let line_values = parse_array(slots[0])?;
    let ghost args = views_of(cmdline_block_show_arguments@);
    let ghost each = styled_content_decoder();
    let mut lines: Vec<StyledContent> = Vec::new();
    let mut i: usize = 0;
    proof {
        assert(content_views_of(lines@) =~= Seq::empty());
    }
    while i < line_values.len()
        invariant
            i <= line_values.len(),
            each == styled_content_decoder(),
            args == views_of(cmdline_block_show_arguments@),
            args.len() >= 1,
            as_array(args[0]) == Ok::<Seq<WireView>, ParseErrorView>(views_of(line_values@)),
            try_map(views_of(line_values@).take(i as int), each) == Ok::<
                Seq<StyledContentView>,
                ParseErrorView,
            >(content_views_of(lines@)),
        decreases line_values.len() - i,
    {
        proof {
            lemma_try_map_step(views_of(line_values@), each, i as int);
        }
        match parse_styled_content(&line_values[i]) {
            Ok(line) => {
                proof {
                    assert(content_views_of(lines@.push(line)) =~= content_views_of(lines@).push(
                        content_view_of(line@),
                    ));
                }
                lines.push(line);
            },
            Err(e) => {
                proof {
                    lemma_try_map_fails(views_of(line_values@), each, i + 1);
                }
                return Err(e);
            },
        }
        i += 1;
    }
    proof {
        assert(views_of(line_values@).take(i as int) =~= views_of(line_values@));
    }
    Ok(RedrawEvent::CommandLineBlockShow { lines })
}

/// `cmdline_block_append`: the line to append, a styled text.
pub open spec fn cmdline_block_append_event(args: Seq<WireView>) -> Result<
    RedrawEventView,
    ParseErrorView,
> {
    let line = as_styled_content(args[0]);
    if args.len() < 1 {
        Err(shape_error(args))
    } else if line is Err {
        Err(line->Err_0)
    } else {
        Ok(RedrawEventView::CommandLineBlockAppend { line: line->Ok_0 })
    }
}

/// Decodes one `cmdline_block_append` tuple.
pub fn parse_cmdline_block_append(cmdline_block_append_arguments: &Vec<WireValue>) -> (r: Result<
    RedrawEvent,
    ParseError,
>)
    ensures
        yields_view(r, cmdline_block_append_event(views_of(cmdline_block_append_arguments@))),
{
    let slots = extract_values(cmdline_block_append_arguments, 1)?;
    let line = parse_styled_content(slots[0])?;
    Ok(RedrawEvent::CommandLineBlockAppend { line })
}

/// `msg_show`: the kind of the message by its tag, the content, and
/// whether the message replaces the last one.
pub open spec fn msg_show_event(args: Seq<WireView>) -> Result<RedrawEventView, ParseErrorView> {
    let kind = as_string(args[0]);
    let content = as_styled_content(args[1]);
    let replace_last = as_bool(args[2]);
    if args.len() < 3 {
        Err(shape_error(args))
    } else if kind is Err {
        Err(kind->Err_0)
    } else if content is Err {
        Err(content->Err_0)
    } else if replace_last is Err {
        Err(replace_last->Err_0)
    } else {
        Ok(
            RedrawEventView::MessageShow {
                kind: message_kind_named(kind->Ok_0),
                content: content->Ok_0,
                replace_last: replace_last->Ok_0,
            },
        )
    }
}

/// Decodes one `msg_show` tuple.
pub fn parse_msg_show(msg_show_arguments: &Vec<WireValue>) -> (r: Result<RedrawEvent, ParseError>)
    ensures
        yields_view(r, msg_show_event(views_of(msg_show_arguments@))),
{
    let slots = extract_values(msg_show_arguments, 3)?;
    let kind_name = parse_string(slots[0])?;
    let kind = MessageKind::parse(kind_name.as_str());
    let content = parse_styled_content(slots[1])?;
    let replace_last = parse_bool(slots[2])?;
    Ok(RedrawEvent::MessageShow { kind, content, replace_last })
}

/// `msg_showmode`: the content.
pub open spec fn msg_showmode_event(args: Seq<WireView>) -> Result<
    RedrawEventView,
    ParseErrorView,
> {
    let content = as_styled_content(args[0]);
    if args.len() < 1 {
        Err(shape_error(args))
    } else if content is Err {
        Err(content->Err_0)
    } else {
        Ok(RedrawEventView::MessageShowMode { content: content->Ok_0 })
    }
}

/// Decodes one `msg_showmode` tuple.
pub fn parse_msg_showmode(msg_showmode_arguments: &Vec<WireValue>) -> (r: Result<
    RedrawEvent,
    ParseError,
>)
    ensures
        yields_view(r, msg_showmode_event(views_of(msg_showmode_arguments@))),
{
    let slots = extract_values(msg_showmode_arguments, 1)?;
    let content = parse_styled_content(slots[0])?;
    Ok(RedrawEvent::MessageShowMode { content })
}

/// `msg_showcmd`: the content.
pub open spec fn msg_showcmd_event(args: Seq<WireView>) -> Result<RedrawEventView, ParseErrorView> {
    let content = as_styled_content(args[0]);
    if args.len() < 1 {
        Err(shape_error(args))
    } else if content is Err {
        Err(content->Err_0)
    } else {
        Ok(RedrawEventView::MessageShowCommand { content: content->Ok_0 })
    }
}

/// Decodes one `msg_showcmd` tuple.
pub fn parse_msg_showcmd(msg_showcmd_arguments: &Vec<WireValue>) -> (r: Result<
    RedrawEvent,
    ParseError,
>)
    ensures
        yields_view(r, msg_showcmd_event(views_of(msg_showcmd_arguments@))),
{
    let slots = extract_values(msg_showcmd_arguments, 1)?;
    let content = parse_styled_content(slots[0])?;
    Ok(RedrawEvent::MessageShowCommand { content })
}

/// `msg_ruler`: the content.
pub open spec fn msg_ruler_event(args: Seq<WireView>) -> Result<RedrawEventView, ParseErrorView> {
    let content = as_styled_content(args[0]);
    if args.len() < 1 {
        Err(shape_error(args))
    } else if content is Err {
        Err(content->Err_0)
    } else {
        Ok(RedrawEventView::MessageRuler { content: content->Ok_0 })
    }
}

/// Decodes one `msg_ruler` tuple.
pub fn parse_msg_ruler(msg_ruler_arguments: &Vec<WireValue>) -> (r: Result<
    RedrawEvent,
    ParseError,
>)
    ensures
        yields_view(r, msg_ruler_event(views_of(msg_ruler_arguments@))),
{
    let slots = extract_values(msg_ruler_arguments, 1)?;
    let content = parse_styled_content(slots[0])?;
    Ok(RedrawEvent::MessageRuler { content })
}

/// One entry of the message history: a tuple of the kind of the message by
/// its tag, and the content. Further values are left aside.
pub open spec fn as_msg_history_entry(value: WireView) -> Result<
    (MessageKind, StyledContentView),
    ParseErrorView,
> {
    match as_array(value) {
        Err(e) => Err(e),
        Ok(parts) => {
            let kind = as_string(parts[0]);
            let content = as_styled_content(parts[1]);
            if parts.len() < 2 {
                Err(shape_error(parts))
            } else if kind is Err {
                Err(kind->Err_0)
            } else if content is Err {
                Err(content->Err_0)
            } else {
                Ok((message_kind_named(kind->Ok_0), content->Ok_0))
            }
        },
    }
}

/// Decodes one entry of the message history.
pub fn parse_msg_history_entry(entry: &WireValue) -> (r: Result<
    (MessageKind, StyledContent),
    ParseError,
>)
    ensures
        r matches Ok(parsed) ==> as_msg_history_entry(entry@) == Ok::<
            (MessageKind, StyledContentView),
            ParseErrorView,
        >((parsed.0, content_view_of(parsed.1@))),
        r matches Err(e) ==> as_msg_history_entry(entry@) == Err::<
            (MessageKind, StyledContentView),
            ParseErrorView,
        >(e@),
{
    let parts = parse_array(entry)?;
    let slots = extract_values(parts, 2)?;
    let kind_name = parse_string(slots[0])?;
    let kind = MessageKind::parse(kind_name.as_str());
    let content = parse_styled_content(slots[1])?;
    Ok((kind, content))
}

/// [`as_msg_history_entry`] as a function value.
pub open spec fn msg_history_entry_decoder() -> spec_fn(WireView) -> Result<
    (MessageKind, StyledContentView),
    ParseErrorView,
> {
    |value: WireView| as_msg_history_entry(value)
}

/// `msg_history_show`: the entries of the history, which keep their
/// order.
pub open spec fn msg_history_show_event(args: Seq<WireView>) -> Result<
    RedrawEventView,
    ParseErrorView,
> {
    if args.len() < 1 {
        Err(shape_error(args))
    } else {
        match as_array(args[0]) {
            Err(e) => Err(e),
            Ok(entries) => match try_map(entries, msg_history_entry_decoder()) {
                Err(e) => Err(e),
                Ok(entries) => Ok(RedrawEventView::MessageHistoryShow { entries }),
            },
        }
    }
}

/// Decodes one `msg_history_show` tuple.
pub fn parse_msg_history_show(msg_history_show_arguments: &Vec<WireValue>) -> (r: Result<
    RedrawEvent,
    ParseError,
>)
    ensures
        yields_view(r, msg_history_show_event(views_of(msg_history_show_arguments@))),
{
    let slots = extract_values(msg_history_show_arguments, 1)?;
    let entry_values = parse_array(slots[0])?;
    let ghost args = views_of(msg_history_show_arguments@);
    let ghost each = msg_history_entry_decoder();
    let mut entries: Vec<(MessageKind, StyledContent)> = Vec::new();
    let mut i: usize = 0;
    proof {
        assert(entry_views_of(entries@) =~= Seq::empty());
    }
    while i < entry_values.len()
        invariant
            i <= entry_values.len(),
            each == msg_history_entry_decoder(),
            args == views_of(msg_history_show_arguments@),
            args.len() >= 1,
            as_array(args[0]) == Ok::<Seq<WireView>, ParseErrorView>(views_of(entry_values@)),
            try_map(views_of(entry_values@).take(i as int), each) == Ok::<
                Seq<(MessageKind, StyledContentView)>,
                ParseErrorView,
            >(entry_views_of(entries@)),
        decreases entry_values.len() - i,
    {
        proof {
            lemma_try_map_step(views_of(entry_values@), each, i as int);
        }
        match parse_msg_history_entry(&entry_values[i]) {
            Ok(entry) => {
                proof {
                    assert(entry_views_of(entries@.push(entry)) =~= entry_views_of(entries@).push(
                        (entry.0, content_view_of(entry.1@)),
                    ));
                }
                entries.push(entry);
            },
            Err(e) => {
                proof {
                    lemma_try_map_fails(views_of(entry_values@), each, i + 1);
                }
                return Err(e);
            },
        }
        i += 1;
    }
    proof {
        assert(views_of(entry_values@).take(i as int) =~= views_of(entry_values@));
    }
    Ok(RedrawEvent::MessageHistoryShow { entries })
}

} // verus!
