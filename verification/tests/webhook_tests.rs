use ding::failure::ForwardError;
use ding::reply::{interpret, DingResp, Exchange};
use ding::utils::decimal::decimal_text;
use ding::webhook::{encode_request, frame_request, Format, OutboundMessage};

#[test]
fn frame_of_a_text_message_is_exact() {
    let body = frame_request(Format::PlainText, "\"t\"", "\"c\"");
    assert_eq!(body, r#"{"msgtype":"text","text":{"title":"t","content":"c"}}"#);
}

#[test]
fn frame_of_a_markdown_message_is_exact() {
    let body = frame_request(Format::Markdown, "\"t\"", "\"c\"");
    assert_eq!(body, r#"{"msgtype":"markdown","markdown":{"title":"t","text":"c"}}"#);
}

#[test]
fn text_message_is_written_as_json() {
    let message = OutboundMessage::new(Format::PlainText, "alerts", "[\n  {}\n]");
    let body = message.to_json().unwrap();
    assert_eq!(body, r#"{"msgtype":"text","text":{"title":"alerts","content":"[\n  {}\n]"}}"#);
}

#[test]
fn markdown_message_is_written_as_json() {
    let message = OutboundMessage::new(Format::Markdown, "say \"hi\"", "## A\n* date:x\n");
    let body = message.to_json().unwrap();
    assert_eq!(
        body,
        r###"{"msgtype":"markdown","markdown":{"title":"say \"hi\"","text":"## A\n* date:x\n"}}"###
    );
}

#[test]
fn written_message_reads_back_as_the_same_values() {
    let message = OutboundMessage::new(Format::Markdown, "t\\1", "tab\there \u{1} \u{4e2d}");
    let body = message.to_json().unwrap();
    let value: serde_json::Value = serde_json::from_str(&body).unwrap();
    assert_eq!(value["msgtype"].as_str(), Some("markdown"));
    assert_eq!(value["markdown"]["title"].as_str(), Some("t\\1"));
    assert_eq!(value["markdown"]["text"].as_str(), Some("tab\there \u{1} \u{4e2d}"));
    assert_eq!(value.as_object().unwrap().len(), 2);
    assert_eq!(value["markdown"].as_object().unwrap().len(), 2);
}

#[test]
fn message_accessors_give_what_was_put_in() {
    let message = OutboundMessage::new(Format::PlainText, "title", "body");
    assert_eq!(message.format(), Format::PlainText);
    assert_eq!(message.title(), "title");
    assert_eq!(message.body(), "body");
    assert!(matches!(message, OutboundMessage::PlainText { .. }));
    let message = OutboundMessage::new(Format::Markdown, "title", "body");
    assert_eq!(message.format(), Format::Markdown);
    assert!(matches!(message, OutboundMessage::Markdown { .. }));
}

fn reply(errcode: i32, errmsg: &str) -> DingResp {
    DingResp { errcode, errmsg: errmsg.to_string() }
}

#[test]
fn answer_with_success_status_is_passed_on() {
    let outcome = interpret(Exchange::Replied { status: 200, body: Ok(reply(0, "ok")) }).unwrap();
    assert_eq!(outcome.errcode, 0);
    assert_eq!(outcome.errmsg, "ok");
}

#[test]
fn nonzero_code_is_still_an_answer() {
    let outcome =
        interpret(Exchange::Replied { status: 299, body: Ok(reply(310000, "keywords not in content")) })
            .unwrap();
    assert_eq!(outcome.errcode, 310000);
    assert_eq!(outcome.errmsg, "keywords not in content");
}

#[test]
fn no_answer_is_a_transport_failure() {
    let outcome = interpret(Exchange::Unreachable { cause: "connection refused".to_string() });
    match outcome {
        Err(ForwardError::Transport { cause }) => assert_eq!(cause, "connection refused"),
        other => panic!("unexpected outcome: {:?}", other),
    }
}

#[test]
fn status_outside_2xx_is_a_failure_whatever_the_body() {
    for status in [100u16, 199, 300, 404, 500] {
        let outcome = interpret(Exchange::Replied { status, body: Ok(reply(0, "ok")) });
        match outcome {
            Err(ForwardError::Status { code }) => assert_eq!(code, status),
            other => panic!("unexpected outcome: {:?}", other),
        }
    }
    let outcome = interpret(Exchange::Replied { status: 503, body: Err("no json".to_string()) });
    assert!(matches!(outcome, Err(ForwardError::Status { code: 503 })));
}

#[test]
fn unreadable_body_is_a_decode_failure() {
    let outcome =
        interpret(Exchange::Replied { status: 200, body: Err("expected value at line 1".to_string()) });
    match outcome {
        Err(ForwardError::Decode { cause }) => assert_eq!(cause, "expected value at line 1"),
        other => panic!("unexpected outcome: {:?}", other),
    }
}

#[test]
fn failure_descriptions_are_exact() {
    let e = ForwardError::Transport { cause: "connection refused".to_string() };
    assert_eq!(e.description(), "forward failed: connection refused");
    let e = ForwardError::Status { code: 404 };
    assert_eq!(e.description(), "forward failed: webhook answered with status 404");
    let e = ForwardError::Decode { cause: "eof".to_string() };
    assert_eq!(e.description(), "forward failed: cannot read the webhook's answer: eof");
    let e = ForwardError::Encode { cause: "bad".to_string() };
    assert_eq!(e.description(), "forward failed: cannot encode the message: bad");
}

#[test]
fn failure_is_never_described_as_ok() {
    let e = ForwardError::Transport { cause: "ok".to_string() };
    assert_ne!(e.description(), "ok");
    let e = ForwardError::Transport { cause: String::new() };
    assert_eq!(e.description(), "forward failed: ");
}

#[test]
fn numbers_are_written_in_decimal() {
    assert_eq!(decimal_text(0), "0");
    assert_eq!(decimal_text(7), "7");
    assert_eq!(decimal_text(9), "9");
    assert_eq!(decimal_text(10), "10");
    assert_eq!(decimal_text(404), "404");
    assert_eq!(decimal_text(1234567890), "1234567890");
    assert_eq!(decimal_text(65535), "65535");
    assert_eq!(decimal_text(u64::MAX), "18446744073709551615");
}

fn json_error() -> serde_json::Error {
    serde_json::from_str::<i32>("not a number").unwrap_err()
}

#[test]
fn request_is_framed_where_both_parts_were_written() {
    let encoded =
        encode_request(Format::PlainText, Ok("\"t\"".to_string()), Ok("\"c\"".to_string()));
    assert_eq!(encoded.unwrap(), r#"{"msgtype":"text","text":{"title":"t","content":"c"}}"#);
}

#[test]
fn part_that_was_not_written_is_an_encode_failure() {
    let cause = json_error().to_string();
    let encoded = encode_request(Format::Markdown, Err(json_error()), Ok("\"c\"".to_string()));
    match encoded {
        Err(ForwardError::Encode { cause: got }) => assert_eq!(got, cause),
        other => panic!("unexpected outcome: {:?}", other),
    }
    let encoded = encode_request(Format::Markdown, Ok("\"t\"".to_string()), Err(json_error()));
    assert!(matches!(encoded, Err(ForwardError::Encode { .. })));
    let encoded = encode_request(Format::PlainText, Err(json_error()), Err(json_error()));
    assert!(matches!(encoded, Err(ForwardError::Encode { .. })));
}

fn written(text: &str) -> String {
    let body = OutboundMessage::new(Format::PlainText, "", text).to_json().unwrap();
    let head = "{\"msgtype\":\"text\",\"text\":{\"title\":\"\",\"content\":";
    assert!(body.starts_with(head));
    assert!(body.ends_with("}}"));
    body[head.len()..body.len() - 2].to_string()
}

#[test]
fn plain_characters_stand_for_themselves() {
    assert_eq!(written(""), "\"\"");
    assert_eq!(written("abc XYZ 019 /'<>&"), "\"abc XYZ 019 /'<>&\"");
    assert_eq!(written(" "), "\" \"");
    assert_eq!(written("\u{7f}"), "\"\u{7f}\"");
    assert_eq!(written("\u{80}\u{e9}\u{4e2d}\u{1f600}"), "\"\u{80}\u{e9}\u{4e2d}\u{1f600}\"");
}

#[test]
fn quote_and_backslash_get_a_backslash() {
    assert_eq!(written("\""), "\"\\\"\"");
    assert_eq!(written("\\"), "\"\\\\\"");
    assert_eq!(written("a\"b\\c"), "\"a\\\"b\\\\c\"");
}

#[test]
fn control_characters_are_escaped() {
    let expected = [
        "\\u0000", "\\u0001", "\\u0002", "\\u0003", "\\u0004", "\\u0005", "\\u0006", "\\u0007",
        "\\b", "\\t", "\\n", "\\u000b", "\\f", "\\r", "\\u000e", "\\u000f",
        "\\u0010", "\\u0011", "\\u0012", "\\u0013", "\\u0014", "\\u0015", "\\u0016", "\\u0017",
        "\\u0018", "\\u0019", "\\u001a", "\\u001b", "\\u001c", "\\u001d", "\\u001e", "\\u001f",
    ];
    for (code, escape) in expected.iter().enumerate() {
        let text = char::from_u32(code as u32).unwrap().to_string();
        assert_eq!(written(&text), format!("\"{}\"", escape));
    }
}

#[test]
fn escapes_keep_the_order_of_the_text() {
    assert_eq!(written("x\ny\t\u{1}\"z"), "\"x\\ny\\t\\u0001\\\"z\"");
}
