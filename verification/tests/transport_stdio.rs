use konnect::protocol::{JsonRpcResponse, PARSE_ERROR};
use konnect::stdio::{after_dispatch, after_parse, after_read, frame, StdioAction};

#[test]
fn end_of_input_stops_the_transport() {
    assert!(matches!(after_read(0, ""), StdioAction::Stop));
}

#[test]
fn blank_lines_are_skipped() {
    for line in ["\n", "\r\n", "   \t \n", "\u{a0}\u{3000}\u{2028}\n", "\u{85}\u{1680}\u{205f}"] {
        assert!(matches!(after_read(line.len(), line), StdioAction::Read));
    }
}

#[test]
fn whitespace_around_a_line_is_what_unicode_says() {
    // Each of these is not blank: it is handed to the parser, which rejects it.
    for line in ["\u{200b}", "\u{feff}", "\u{180e}", "\u{8}", "\u{e}", "\u{2060}"] {
        assert!(matches!(after_read(line.len(), line), StdioAction::Send(_)), "{:?}", line);
    }
    // All the characters that are blank.
    let mut blank = String::new();
    for range in [
        0x9u32..=0xd,
        0x20..=0x20,
        0x85..=0x85,
        0xa0..=0xa0,
        0x1680..=0x1680,
        0x2000..=0x200a,
        0x2028..=0x2029,
        0x202f..=0x202f,
        0x205f..=0x205f,
        0x3000..=0x3000,
    ] {
        for c in range {
            blank.push(char::from_u32(c).unwrap());
        }
    }
    assert!(matches!(after_read(blank.len(), &blank), StdioAction::Read));
    let line = format!("{}[]{}", blank, blank);
    assert!(matches!(after_read(line.len(), &line), StdioAction::Dispatch(_)));
}

#[test]
fn json_lines_go_to_the_handler() {
    let line = "  {\"jsonrpc\":\"2.0\",\"id\":9,\"method\":\"ping\"}\r\n";
    match after_read(line.len(), line) {
        StdioAction::Dispatch(message) => {
            assert_eq!(message["id"], 9);
            assert_eq!(message["method"], "ping");
        }
        other => panic!("{:?}", other),
    }
}

#[test]
fn other_lines_are_answered_with_a_parse_error() {
    let line = "hello\n";
    let expected = match serde_json::from_str::<serde_json::Value>("hello") {
        Ok(_) => panic!("not JSON"),
        Err(e) => format!("Parse error: {}", e),
    };
    assert_eq!(expected, "Parse error: expected value at line 1 column 1");
    match after_read(line.len(), line) {
        StdioAction::Send(response) => {
            assert!(response.id.is_none());
            assert!(response.result.is_none());
            let error = response.error.unwrap();
            assert_eq!(error.code, PARSE_ERROR);
            assert_eq!(error.code, -32700);
            assert_eq!(error.message, expected);
            assert!(error.data.is_none());
        }
        other => panic!("{:?}", other),
    }
}

#[test]
fn parse_outcomes_decide_what_is_done() {
    match after_parse(Err("no good".to_string())) {
        StdioAction::Send(r) => assert_eq!(r.error.unwrap().message, "Parse error: no good"),
        other => panic!("{:?}", other),
    }
    match after_parse(Ok(serde_json::Value::from(7))) {
        StdioAction::Dispatch(v) => assert_eq!(v, 7),
        other => panic!("{:?}", other),
    }
}

#[test]
fn handled_messages_are_answered_if_there_is_an_answer() {
    assert!(matches!(after_dispatch(None), StdioAction::Read));
    let response = JsonRpcResponse {
        id: Some(serde_json::Value::from("a")),
        result: Some(serde_json::Value::from(true)),
        error: None,
    };
    match after_dispatch(Some(response)) {
        StdioAction::Send(r) => {
            assert_eq!(r.id, Some(serde_json::Value::from("a")));
            assert_eq!(r.result, Some(serde_json::Value::from(true)));
            assert!(r.error.is_none());
        }
        other => panic!("{:?}", other),
    }
}

#[test]
fn framed_messages_are_read_back() {
    let json = "{\"a\":[1,2]}";
    let line = frame(&serde_json::from_str(" { \"a\" : [ 1,\n2 ] } ").unwrap()).unwrap();
    assert_eq!(line, "{\"a\":[1,2]}\n");
    match after_read(line.len(), &line) {
        StdioAction::Dispatch(message) => assert_eq!(serde_json::to_string(&message).unwrap(), json),
        other => panic!("{:?}", other),
    }
}

#[test]
fn responses_are_framed_on_one_line() {
    let mut text = String::new();
    for c in 0u32..0x3000 {
        text.extend(char::from_u32(c));
    }
    let values = [
        serde_json::Value::Null,
        serde_json::Value::from(true),
        serde_json::Value::from(-1.5e300),
        serde_json::Value::from(u64::MAX),
        serde_json::Value::from(""),
        serde_json::Value::from(vec![text.clone(), " ".to_string()]),
        serde_json::from_str("{\"a\\n\":{\"\":[]}}").unwrap(),
    ];
    let mut output = String::new();
    for value in &values {
        let line = frame(value).unwrap();
        assert_eq!(line, format!("{}\n", value));
        assert!(line.ends_with('\n'));
        assert!(line[..line.len() - 1].chars().all(|c| c >= ' '));
        assert_eq!(line.trim().len(), line.len() - 1);
        output.push_str(&line);
    }
    assert_eq!(output.lines().count(), values.len());
}

/// Reads an input line by line and returns the messages that are handed over and what is written,
/// where every message is answered with itself unless it is `null`.
fn session(input: &str) -> (Vec<serde_json::Value>, String) {
    let mut messages = Vec::new();
    let mut output = String::new();
    for line in input.split_inclusive('\n') {
        match after_read(line.len(), line) {
            StdioAction::Stop => panic!("not at the end"),
            StdioAction::Read => {}
            StdioAction::Dispatch(message) => {
                if !message.is_null() {
                    output.push_str(&frame(&message).unwrap());
                }
                messages.push(message);
            }
            StdioAction::Send(response) => {
                let text = response.error.unwrap().message;
                output.push_str(&frame(&serde_json::Value::from(text)).unwrap());
            }
        }
    }
    (messages, output)
}

#[test]
fn lines_are_handled_one_by_one() {
    let a = "1\nnope\nnull\n";
    let b = "[2]\n{\n3";
    let (ma, oa) = session(a);
    let (mb, ob) = session(b);
    let (m, o) = session(&format!("{}{}", a, b));
    assert_eq!(m, [ma, mb].concat());
    assert_eq!(o, oa + &ob);
    assert_eq!(o.lines().count(), 5);
}

#[test]
fn whitespace_makes_no_difference() {
    let plain = "1\nnope\n[2]\n";
    for other in ["1\nnope\n[2]", "\n\n  1\r\n \t\n\tnope  \n[2]\r\n\n", "1 \n nope\n\n[2]  "] {
        assert_eq!(session(plain), session(other));
    }
}
