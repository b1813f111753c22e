use rust_autogpt::base::command_line::{trim_response, PrintCommand, TermColor};

#[test]
fn statement_colors_follow_the_kind() {
    assert_eq!(PrintCommand::AICall.statement_color(), TermColor::Cyan);
    assert_eq!(PrintCommand::UnitTest.statement_color(), TermColor::Magenta);
    assert_eq!(PrintCommand::Issue.statement_color(), TermColor::Red);
}

#[test]
fn agent_message_label_and_statement() {
    let msg = PrintCommand::Issue.agent_message("Managing Agent", "testing processing");
    assert_eq!(msg.label, "Agent : Managing Agent  ");
    assert_eq!(msg.label_color, TermColor::Green);
    assert_eq!(msg.statement, "testing processing");
    assert_eq!(msg.statement_color, TermColor::Red);
}

#[test]
fn trim_removes_line_end_and_spaces() {
    assert_eq!(trim_response("  build me a blog \n"), "build me a blog");
    assert_eq!(trim_response("\r\n1\r\n"), "1");
}

#[test]
fn trim_keeps_inner_white_space() {
    assert_eq!(trim_response("\ta  b\t"), "a  b");
}

#[test]
fn trim_of_blank_is_empty() {
    assert_eq!(trim_response(""), "");
    assert_eq!(trim_response(" \t\n "), "");
}

#[test]
fn trim_handles_unicode_white_space() {
    assert_eq!(trim_response("\u{3000}\u{a0}site\u{2009}\u{85}"), "site");
    assert_eq!(trim_response("\u{200b}x"), "\u{200b}x");
    for raw in ["  x y ", "\u{2028}é\u{2029}", "\u{1680}\u{205f}", "ab"] {
        assert_eq!(trim_response(raw), raw.trim());
    }
}

#[test]
fn trimming_twice_changes_nothing() {
    let once = trim_response("  ok  \n");
    assert_eq!(trim_response(&once), once);
}
