use rpi_einkserver_rs::frontend::decode_newlines;
use rpi_einkserver_rs::frontend::is_blank;
use rpi_einkserver_rs::frontend::parse_packet;
use rpi_einkserver_rs::frontend::parse_repl_line;
use rpi_einkserver_rs::frontend::ReplCommand;
use rpi_einkserver_rs::frontend::session_step;
use rpi_einkserver_rs::frontend::PacketCommand;
use rpi_einkserver_rs::frontend::PanelAction;
use rpi_einkserver_rs::frontend::Response;

#[test]
fn parse_packet_recognizes_commands_case_insensitively() {
    for head in ["CLEAR", "clear", "Clear"] {
        let (cmd, payload) = parse_packet(head.as_bytes());
        assert_eq!(cmd, PacketCommand::Clear);
        assert!(payload.is_none());
    }
    assert_eq!(parse_packet(b"PARTIAL_ON").0, PacketCommand::PartialOn);
    assert_eq!(parse_packet(b"partial_off").0, PacketCommand::PartialOff);
    assert_eq!(parse_packet(b"Ping").0, PacketCommand::Ping);
}

#[test]
fn parse_packet_text_payload_follows_first_whitespace() {
    let (cmd, payload) = parse_packet(b"TEXT hello there");
    assert_eq!(cmd, PacketCommand::Text);
    assert_eq!(payload.as_deref(), Some(&b"hello there"[..]));

    // Only the first separator byte is consumed.
    let (cmd, payload) = parse_packet(b"text  padded");
    assert_eq!(cmd, PacketCommand::Text);
    assert_eq!(payload.as_deref(), Some(&b" padded"[..]));

    let (cmd, payload) = parse_packet(b"TEXT");
    assert_eq!(cmd, PacketCommand::Text);
    assert!(payload.is_none());
}

#[test]
fn parse_packet_unknown_head_is_text_with_whole_packet() {
    let (cmd, payload) = parse_packet(b"hello world");
    assert_eq!(cmd, PacketCommand::Text);
    assert_eq!(payload.as_deref(), Some(&b"hello world"[..]));

    // A head that merely starts like a keyword does not match.
    let (cmd, payload) = parse_packet(b"TEXTS x");
    assert_eq!(cmd, PacketCommand::Text);
    assert_eq!(payload.as_deref(), Some(&b"TEXTS x"[..]));

    let (cmd, payload) = parse_packet(b"");
    assert_eq!(cmd, PacketCommand::Text);
    assert_eq!(payload.as_deref(), Some(&b""[..]));
}

#[test]
fn decode_newlines_replaces_escapes() {
    assert_eq!(decode_newlines(b"a\\nb"), b"a\nb");
    assert_eq!(decode_newlines(b"\\n\\n"), b"\n\n");
    assert_eq!(decode_newlines(b"no escapes"), b"no escapes");
    assert_eq!(decode_newlines(b""), b"");
    // A lone backslash, or one that ends the input, passes through.
    assert_eq!(decode_newlines(b"a\\x"), b"a\\x");
    assert_eq!(decode_newlines(b"tail\\"), b"tail\\");
    // The scan is left to right and does not overlap.
    assert_eq!(decode_newlines(b"\\\\n"), b"\\\n");
}

#[test]
fn blank_detection() {
    assert!(is_blank(b""));
    assert!(is_blank(b" \t\r\n"));
    assert!(!is_blank(b" x "));
    assert!(!is_blank(b"a"));
}

#[test]
fn repl_lines_are_classified_exactly() {
    assert_eq!(parse_repl_line(b"/clear"), ReplCommand::Clear);
    assert_eq!(parse_repl_line(b"/partial"), ReplCommand::PartialOn);
    assert_eq!(parse_repl_line(b"/nopartial"), ReplCommand::PartialOff);
    // Slash commands are exact and case-sensitive.
    assert_eq!(parse_repl_line(b"/CLEAR"), ReplCommand::Unknown);
    assert_eq!(parse_repl_line(b"/clear "), ReplCommand::Unknown);
    assert_eq!(parse_repl_line(b"/other"), ReplCommand::Unknown);
    assert_eq!(parse_repl_line(b"/"), ReplCommand::Unknown);
    assert_eq!(parse_repl_line(b""), ReplCommand::Blank);
    assert_eq!(parse_repl_line(b"  \t"), ReplCommand::Blank);
    assert_eq!(parse_repl_line(b"hello"), ReplCommand::Text);
    assert_eq!(parse_repl_line(b" hi there "), ReplCommand::Text);
}

#[test]
fn session_step_dispatch_table() {
    for &partial in &[false, true] {
        for &fast in &[false, true] {
            assert_eq!(
                session_step(partial, fast, PacketCommand::Clear, false),
                (PanelAction::ClearPanel, partial, Response::OkClear)
            );
            assert_eq!(
                session_step(partial, fast, PacketCommand::PartialOn, false),
                (PanelAction::WriteBlankBase, true, Response::OkPartialOn)
            );
            assert_eq!(
                session_step(partial, fast, PacketCommand::PartialOff, false),
                (PanelAction::Nothing, false, Response::OkPartialOff)
            );
            assert_eq!(
                session_step(partial, fast, PacketCommand::Ping, false),
                (PanelAction::Nothing, partial, Response::Pong)
            );
            assert_eq!(
                session_step(partial, fast, PacketCommand::Text, true),
                (PanelAction::Nothing, partial, Response::IgnoredEmpty)
            );
        }
    }
    // Partial updates take precedence over the fast path for text.
    assert_eq!(
        session_step(true, true, PacketCommand::Text, false),
        (PanelAction::ShowTextPartial, true, Response::OkText)
    );
    assert_eq!(
        session_step(false, true, PacketCommand::Text, false),
        (PanelAction::ShowTextFast, false, Response::OkText)
    );
    assert_eq!(
        session_step(false, false, PacketCommand::Text, false),
        (PanelAction::ShowTextFull, false, Response::OkText)
    );
}
