use serde_json::Value;
use socket_session::socket_message::{SocketMessage, SocketMessageBuilder, SocketMessageError};

fn text(s: &str) -> Value {
    Value::String(s.to_owned())
}

#[test]
fn parse_basic_message() {
    let message = SocketMessage::parse("some_prefix(context_here) { \"body\": \"here\" }").unwrap();

    let mut expected = serde_json::Map::new();
    expected.insert("body".to_owned(), text("here"));

    assert_eq!(message.get_prefix(), "some_prefix");
    assert_eq!(message.get_context(), Some("context_here"));
    assert_eq!(message.get_body(), Some(Value::Object(expected)))
}

#[test]
fn parse_message_with_missing_and_odd_order() {
    let message = SocketMessage::parse("prefix").unwrap();
    assert_eq!(message.get_prefix(), "prefix");
    assert_eq!(message.get_context(), None);
    assert_eq!(message.get_body(), None);

    let message = SocketMessage::parse("  prefix  ").unwrap();
    assert_eq!(message.get_prefix(), "  prefix  ");
    assert_eq!(message.get_context(), None);
    assert_eq!(message.get_body(), None);

    let message = SocketMessage::parse("prefix  (con text)   ").unwrap();
    assert_eq!(message.get_prefix(), "prefix  ");
    assert_eq!(message.get_context(), Some("con text"));
    assert_eq!(message.get_body(), None);

    let message = SocketMessage::parse("prefix  (con text)   [ \"item 1\" ,\"item2\"]  ").unwrap();
    assert_eq!(message.get_prefix(), "prefix  ");
    assert_eq!(message.get_context(), Some("con text"));
    assert_eq!(message.get_body(), Some(Value::Array(vec![text("item 1"), text("item2")])));

    let message = SocketMessage::parse("prefix()[]").unwrap();
    assert_eq!(message.get_prefix(), "prefix");
    assert_eq!(message.get_context(), None);
    assert_eq!(message.get_body(), Some(Value::Array(vec![])));
}

#[test]
fn parse_incorrect_message() {
    let _ = SocketMessage::parse("").unwrap_err();
    let _ = SocketMessage::parse("prefix( context_ no closing").unwrap_err();

    assert_eq!(SocketMessage::parse("hello () not_valid_json").unwrap().get_body(), None)
}

#[test]
fn empty_text_has_an_empty_prefix() {
    assert_eq!(SocketMessage::parse("").unwrap_err(), SocketMessageError::EmptyPrefixNotAllowed);
}

#[test]
fn leading_paren_has_an_empty_prefix() {
    assert_eq!(SocketMessage::parse("(").unwrap_err(), SocketMessageError::EmptyPrefixNotAllowed);
    assert_eq!(SocketMessage::parse("(context) 1").unwrap_err(), SocketMessageError::EmptyPrefixNotAllowed);
    assert_eq!(SocketMessage::parse("(unterminated").unwrap_err(), SocketMessageError::EmptyPrefixNotAllowed);
}

#[test]
fn unterminated_context_is_refused() {
    assert_eq!(
        SocketMessage::parse("prefix(unterminated").unwrap_err(),
        SocketMessageError::ExpectedClosingContextParen
    );
    assert_eq!(
        SocketMessage::parse("prefix( context_ no closing").unwrap_err(),
        SocketMessageError::ExpectedClosingContextParen
    );
}

#[test]
fn trailing_paren_opens_no_context() {
    let message = SocketMessage::parse("prefix(").unwrap();
    assert_eq!(message.get_prefix(), "prefix");
    assert_eq!(message.get_context(), None);
    assert_eq!(message.get_body(), None);
    assert_eq!(message.get_str(), "prefix(");
}

#[test]
fn text_without_paren_is_all_prefix() {
    for input in ["sync", " a b\tc ", "event [1, 2]", "x) {}"] {
        let message = SocketMessage::parse(input).unwrap();
        assert_eq!(message.get_prefix(), input);
        assert_eq!(message.get_context(), None);
        assert_eq!(message.get_body(), None);
    }
}

#[test]
fn malformed_body_is_no_body() {
    let message = SocketMessage::parse("hello () not_valid_json").unwrap();
    assert_eq!(message.get_prefix(), "hello ");
    assert_eq!(message.get_context(), None);
    assert_eq!(message.get_body(), None);
}

#[test]
fn context_ends_at_the_first_closing_paren() {
    let message = SocketMessage::parse("p(a)b) \"x\"").unwrap();
    assert_eq!(message.get_context(), Some("a"));
    assert_eq!(message.get_body(), None);

    let message = SocketMessage::parse("p(a(b) \"x\"").unwrap();
    assert_eq!(message.get_prefix(), "p");
    assert_eq!(message.get_context(), Some("a(b"));
    assert_eq!(message.get_body(), Some(text("x")));
}

#[test]
fn body_follows_the_context_with_or_without_white_space() {
    let message = SocketMessage::parse("p(c)true").unwrap();
    assert_eq!(message.get_body(), Some(Value::Bool(true)));

    let message = SocketMessage::parse("p(c) \t\r\n\u{a0}\u{3000} null").unwrap();
    assert_eq!(message.get_context(), Some("c"));
    assert_eq!(message.get_body(), Some(Value::Null));

    let message = SocketMessage::parse("p(c)\u{200b}null").unwrap();
    assert_eq!(message.get_body(), None);
}

#[test]
fn parts_are_counted_in_characters() {
    let message = SocketMessage::parse("pr\u{e9}fixe(cl\u{e9} \u{1f600}) \"\u{e9}t\u{e9}\"").unwrap();
    assert_eq!(message.get_prefix(), "pr\u{e9}fixe");
    assert_eq!(message.get_context(), Some("cl\u{e9} \u{1f600}"));
    assert_eq!(message.get_body(), Some(text("\u{e9}t\u{e9}")));
}

#[test]
fn message_keeps_its_text() {
    let input = "prefix  (con text)   [ \"item 1\" ,\"item2\"]  ";
    let message = SocketMessage::parse(input).unwrap();
    assert_eq!(message.get_str(), input);
    assert_eq!(message.to_string(), input);

    let message = SocketMessage::parse_owned(input.to_owned()).unwrap();
    assert_eq!(message.get_prefix(), "prefix  ");
    assert_eq!(message.to_string(), input);
}

#[test]
fn build_writes_prefix_context_and_body() {
    let body = Value::Array(vec![text("item 1"), text("item2")]);
    let built = SocketMessageBuilder::new("model").context("abc").body(&body).build_string().unwrap();
    assert_eq!(built, "model(abc) [\"item 1\",\"item2\"]");

    let built = SocketMessageBuilder::new("model").build_string().unwrap();
    assert_eq!(built, "model");

    let built = SocketMessageBuilder::new("model").context("").build_string().unwrap();
    assert_eq!(built, "model()");

    let built = SocketMessageBuilder::new("model").body(&Value::Null).build_string().unwrap();
    assert_eq!(built, "model null");
}

#[test]
fn built_message_knows_its_parts() {
    let body = Value::Bool(false);
    let message = SocketMessageBuilder::new("mod\u{e8}le").context("c\u{f4}t\u{e9}").body(&body).build().unwrap();
    assert_eq!(message.get_str(), "mod\u{e8}le(c\u{f4}t\u{e9}) false");
    assert_eq!(message.get_prefix(), "mod\u{e8}le");
    assert_eq!(message.get_context(), Some("c\u{f4}t\u{e9}"));
    assert_eq!(message.get_body(), Some(Value::Bool(false)));

    let message = SocketMessageBuilder::new("model").body(&body).build().unwrap();
    assert_eq!(message.get_prefix(), "model");
    assert_eq!(message.get_context(), None);
    assert_eq!(message.get_body(), Some(Value::Bool(false)));

    let message = SocketMessageBuilder::new("").context("").build().unwrap();
    assert_eq!(message.get_prefix(), "");
    assert_eq!(message.get_context(), None);
    assert_eq!(message.get_body(), None);
}

#[test]
fn built_text_reads_back() {
    let mut object = serde_json::Map::new();
    object.insert("a(b".to_owned(), text(") ("));
    let body = Value::Object(object);
    for context in ["", "c", "550e8400-e29b-41d4-a716-446655440000", "a(b"] {
        let built = SocketMessageBuilder::new("model ").context(context).body(&body).build_string().unwrap();
        let message = SocketMessage::parse(&built).unwrap();
        assert_eq!(message.get_prefix(), "model ");
        if context.is_empty() {
            assert_eq!(message.get_context(), None);
        } else {
            assert_eq!(message.get_context(), Some(context));
        }
        assert_eq!(message.get_body(), Some(body.clone()));
    }
}

#[test]
fn white_space_is_what_the_grammar_takes_it_for() {
    let listed = |c: char| {
        let n = c as u32;
        (0x09..=0x0D).contains(&n)
            || n == 0x20
            || n == 0x85
            || n == 0xA0
            || n == 0x1680
            || (0x2000..=0x200A).contains(&n)
            || n == 0x2028
            || n == 0x2029
            || n == 0x202F
            || n == 0x205F
            || n == 0x3000
    };
    for n in 0..=0x10FFFFu32 {
        if let Some(c) = char::from_u32(n) {
            assert_eq!(c.is_whitespace(), listed(c), "U+{:04X}", n);
            if listed(c) {
                let framed = format!("p(){}1", c);
                let body = SocketMessage::parse(&framed).unwrap().get_body();
                assert_eq!(body, Some(Value::Number(1.into())), "U+{:04X}", n);
            }
        }
    }
}

#[test]
fn from_parts_puts_the_parts_in_place() {
    let message = SocketMessage::from_parts("model".to_owned(), Some("ctx"), Some("[1, 2]"));
    assert_eq!(message.get_str(), "model(ctx) [1, 2]");
    assert_eq!(message.get_prefix(), "model");
    assert_eq!(message.get_context(), Some("ctx"));
    assert_eq!(message.get_body(), Some(Value::Array(vec![Value::Number(1.into()), Value::Number(2.into())])));

    let message = SocketMessage::from_parts("a(b".to_owned(), Some("c)d"), Some("not json"));
    assert_eq!(message.get_str(), "a(b(c)d) not json");
    assert_eq!(message.get_prefix(), "a(b");
    assert_eq!(message.get_context(), Some("c)d"));
    assert_eq!(message.get_body(), None);

    let message = SocketMessage::from_parts("sync".to_owned(), None, None);
    assert_eq!(message.to_string(), "sync");

    let message = SocketMessage::from_parts("p".to_owned(), Some(""), Some(""));
    assert_eq!(message.get_str(), "p() ");
    assert_eq!(message.get_context(), None);
    assert_eq!(message.get_body(), None);
}
