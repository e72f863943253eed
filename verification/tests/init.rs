use cylonn::init::{parse_line, read_init, ReadError, SyntaxError, SyntaxErrorKind};

#[test]
fn init_test_parse_line() {
    let plugin = parse_line(1, "test: run -a script").unwrap().unwrap();
    assert_eq!(plugin.name, "test");
    assert_eq!(plugin.cmd, "run -a script");
}

#[test]
fn init_test_parse_line_spacey() {
    let plugin = parse_line(1, "  test :  run -a script  ").unwrap().unwrap();
    assert_eq!(plugin.name, "test");
    assert_eq!(plugin.cmd, "run -a script");
}

#[test]
fn init_test_parse_line_comment() {
    assert!(parse_line(1, "# don't run -a script").unwrap().is_none());
}

#[test]
fn init_test_parse_line_comment_spacey() {
    assert!(parse_line(1, "  # don't run -a script  ").unwrap().is_none());
}

#[test]
fn test_parse_line_empty() {
    assert!(parse_line(1, "").unwrap().is_none());
}

#[test]
fn test_parse_line_empty_spacey() {
    assert!(parse_line(1, "    ").unwrap().is_none());
}

#[test]
fn init_test_parse_line_hash_name() {
    let plugin = parse_line(1, "hash#: this is valid").unwrap().unwrap();
    assert_eq!(plugin.name, "hash#");
    assert_eq!(plugin.cmd, "this is valid");
}

#[test]
fn test_parse_line_err_no_colon() {
    assert_eq!(parse_line(1, "I AM ERROR").unwrap_err().kind, SyntaxErrorKind::NoColon);
}

#[test]
fn init_test_parse_line_err_no_name() {
    assert_eq!(parse_line(1, ": cat /dev/null").unwrap_err().kind, SyntaxErrorKind::NoName);
}

#[test]
fn init_test_parse_line_err_no_name_spacey() {
    assert_eq!(
        parse_line(1, "  :  cat /dev/null   ").unwrap_err().kind,
        SyntaxErrorKind::NoName
    );
}

#[test]
fn init_test_parse_line_no_cmd() {
    assert_eq!(parse_line(1, "nothing:").unwrap_err().kind, SyntaxErrorKind::NoCommand);
}

#[test]
fn init_test_parse_line_no_cmd_spacey() {
    assert_eq!(parse_line(1, "   nothing:  ").unwrap_err().kind, SyntaxErrorKind::NoCommand);
}

#[test]
fn parsed_plugin_is_not_running() {
    let plugin = parse_line(3, "irc: ./irc --verbose").unwrap().unwrap();
    assert!(!plugin.running);
    assert_eq!(plugin.process(), None);
}

#[test]
fn error_carries_the_line_number() {
    assert_eq!(
        parse_line(42, "name:").unwrap_err(),
        SyntaxError { kind: SyntaxErrorKind::NoCommand, line_no: 42 }
    );
}

#[test]
fn only_the_first_colon_splits() {
    let plugin = parse_line(1, "web: serve --bind host:8080").unwrap().unwrap();
    assert_eq!(plugin.name, "web");
    assert_eq!(plugin.cmd, "serve --bind host:8080");
}

#[test]
fn newline_and_tabs_count_as_whitespace() {
    let plugin = parse_line(1, "\tirc\t:\t./irc\r\n").unwrap().unwrap();
    assert_eq!(plugin.name, "irc");
    assert_eq!(plugin.cmd, "./irc");
}

#[test]
fn unicode_whitespace_is_trimmed() {
    let plugin = parse_line(1, "\u{3000}café\u{a0}:\u{2003}thé noir\u{2028}").unwrap().unwrap();
    assert_eq!(plugin.name, "café");
    assert_eq!(plugin.cmd, "thé noir");
}

#[test]
fn zero_width_space_is_no_whitespace() {
    let plugin = parse_line(1, "\u{200b}a: b").unwrap().unwrap();
    assert_eq!(plugin.name, "\u{200b}a");
}

fn lines(text: &[&str]) -> Vec<String> {
    text.iter().map(|s| s.to_string()).collect()
}

#[test]
fn read_init_keeps_the_order_of_the_lines() {
    let plugins = read_init(&lines(&[
        "# plugins\n",
        "\n",
        "irc: ./irc\n",
        "  xmpp :  ./xmpp -v  \n",
        "   \n",
    ]))
    .unwrap();
    assert_eq!(plugins.len(), 2);
    assert_eq!(plugins[0].name, "irc");
    assert_eq!(plugins[0].cmd, "./irc");
    assert_eq!(plugins[1].name, "xmpp");
    assert_eq!(plugins[1].cmd, "./xmpp -v");
}

#[test]
fn read_init_stops_at_the_first_mistake() {
    let r = read_init(&lines(&["irc: ./irc", "# fine", "oops", ":x", "y:"]));
    match r {
        Err(ReadError::SyntaxError(e)) => {
            assert_eq!(e, SyntaxError { kind: SyntaxErrorKind::NoColon, line_no: 3 })
        }
        other => panic!("{:?}", other),
    }
}

#[test]
fn read_init_of_nothing_is_empty() {
    assert!(read_init(&Vec::new()).unwrap().is_empty());
}

#[test]
fn messages() {
    assert_eq!(SyntaxErrorKind::NoColon.to_string(), "No colon delimiter found");
    assert_eq!(SyntaxErrorKind::NoName.to_string(), "Plugin has no name");
    assert_eq!(SyntaxErrorKind::NoCommand.to_string(), "Plugin has no command");
    let e = SyntaxError { kind: SyntaxErrorKind::NoName, line_no: 4070 };
    assert_eq!(e.to_string(), "Plugin has no name on line 4070");
    let zero = SyntaxError { kind: SyntaxErrorKind::NoColon, line_no: 0 };
    assert_eq!(zero.to_string(), "No colon delimiter found on line 0");
    let max = SyntaxError { kind: SyntaxErrorKind::NoColon, line_no: u32::MAX };
    assert_eq!(max.to_string(), "No colon delimiter found on line 4294967295");
    assert_eq!(
        ReadError::SyntaxError(e).to_string(),
        "Syntax Error: Plugin has no name on line 4070"
    );
    assert_eq!(
        ReadError::IoError("file not found".to_string()).to_string(),
        "I/O Error: file not found"
    );
}

#[test]
fn syntax_error_converts_to_read_error() {
    let e = SyntaxError { kind: SyntaxErrorKind::NoCommand, line_no: 9 };
    match ReadError::from(e) {
        ReadError::SyntaxError(inner) => {
            assert_eq!(inner, SyntaxError { kind: SyntaxErrorKind::NoCommand, line_no: 9 })
        }
        other => panic!("{:?}", other),
    }
}

#[test]
fn read_init_numbers_lines_from_one() {
    match read_init(&lines(&["oops"])) {
        Err(ReadError::SyntaxError(e)) => assert_eq!(e.line_no, 1),
        other => panic!("{:?}", other),
    }
    match read_init(&lines(&["", "", "", ":"])) {
        Err(ReadError::SyntaxError(e)) => {
            assert_eq!(e, SyntaxError { kind: SyntaxErrorKind::NoName, line_no: 4 })
        }
        other => panic!("{:?}", other),
    }
}
