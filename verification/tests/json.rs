use cylonn::json::{
    classify, json_is_field_object, json_object, json_opt_object, json_string, parse, try_parse,
    Envelope, Field, Form, NotificationTemplate, RequestTemplate, ResponseTemplate, TemplateError,
};
use cylonn::limits::within_limits;
use rustc_serialize::json::{Json, Object};

#[test]
fn valid_req_template() {
    let json = Json::from_str("{\"id\":\"1\",\"kind\":\"irc/something\",\"params\":{}}").unwrap();
    let res = RequestTemplate::new(&json);
    assert!(res.is_ok());
}

#[test]
fn bad_req_template_no_id() {
    let json = Json::from_str("{\"kind\":\"irc/something\",\"params\":{}}").unwrap();
    let res = RequestTemplate::new(&json);
    assert!(res.is_err());
}

#[test]
fn bad_req_template_no_kind() {
    let json = Json::from_str("{\"id\":\"1\",\"params\":{}}").unwrap();
    let res = RequestTemplate::new(&json);
    assert!(res.is_err());
}

#[test]
fn bad_req_template_no_params() {
    let json = Json::from_str("{\"id\":\"1\",\"kind\":\"irc/something\"}").unwrap();
    let res = RequestTemplate::new(&json);
    assert!(res.is_err());
}

#[test]
fn valid_res_template_result() {
    let json = Json::from_str("{\"id\":\"1\",\"kind\":\"irc/something\",\"result\":{}}").unwrap();
    let res = ResponseTemplate::new(&json);
    assert!(res.is_ok());
}

#[test]
fn valid_res_template_error() {
    let json = Json::from_str("{\"id\":\"1\",\"kind\":\"irc/something\",\"error\":{}}").unwrap();
    let res = ResponseTemplate::new(&json);
    assert!(res.is_ok());
}

#[test]
fn bad_res_template_no_id() {
    let json = Json::from_str("{\"kind\":\"irc/something\",\"error\":{}}").unwrap();
    let res = ResponseTemplate::new(&json);
    assert!(res.is_err());
}

#[test]
fn bad_res_template_no_kind() {
    let json = Json::from_str("{\"id\":\"1\",\"result\":{}}").unwrap();
    let res = ResponseTemplate::new(&json);
    assert!(res.is_err());
}

#[test]
fn bad_res_template_no_result_or_error() {
    let json = Json::from_str("{\"id\":\"1\",\"kind\":\"irc/something\"}").unwrap();
    let res = ResponseTemplate::new(&json);
    assert!(res.is_err());
}

#[test]
fn valid_notif_template() {
    let json = Json::from_str("{\"id\":null,\"kind\":\"irc/something\",\"params\":{}}").unwrap();
    let res = NotificationTemplate::new(&json);
    assert!(res.is_ok());
}

#[test]
fn bad_notif_template_no_id() {
    let json = Json::from_str("{\"kind\":\"irc/something\",\"params\":{}}").unwrap();
    let res = NotificationTemplate::new(&json);
    assert!(res.is_err());
}

#[test]
fn bad_notif_template_id_not_null() {
    let json = Json::from_str("{\"id\":1,\"kind\":\"irc/something\",\"params\":{}}").unwrap();
    let res = NotificationTemplate::new(&json);
    assert!(res.is_err());
}

#[test]
fn bad_notif_template_no_kind() {
    let json = Json::from_str("{\"id\":null,\"params\":{}}").unwrap();
    let res = NotificationTemplate::new(&json);
    assert!(res.is_err());
}

#[test]
fn bad_notif_template_no_params() {
    let json = Json::from_str("{\"id\":null,\"kind\":\"irc/something\"}").unwrap();
    let res = NotificationTemplate::new(&json);
    assert!(res.is_err());
}

fn missing(e: &TemplateError, field: &str) -> bool {
    matches!(e, TemplateError::MissingField(f) if *f == field)
}

fn invalid(e: &TemplateError, field: &str, typ: &str) -> bool {
    matches!(e, TemplateError::InvalidType(f, t) if *f == field && *t == typ)
}

#[test]
fn request_holds_what_the_json_holds() {
    let json =
        Json::from_str("{\"id\":\"7\",\"kind\":\"irc/in\",\"params\":{\"a\":1,\"b\":[]}}").unwrap();
    let t = RequestTemplate::new(&json).unwrap();
    assert_eq!(t.id, "7");
    assert_eq!(t.kind, "irc/in");
    assert_eq!(t.params.len(), 2);
    assert_eq!(t.params.get("a"), Some(&Json::U64(1)));
}

#[test]
fn request_errors_name_the_first_bad_field() {
    let check = |text: &str| {
        let json = Json::from_str(text).unwrap();
        RequestTemplate::new(&json).map(|_| ()).unwrap_err()
    };
    assert!(missing(&check("{}"), "id"));
    assert!(invalid(&check("{\"id\":3}"), "id", "string"));
    assert!(invalid(&check("{\"id\":null,\"kind\":\"k\",\"params\":{}}"), "id", "string"));
    assert!(missing(&check("{\"id\":\"1\"}"), "kind"));
    assert!(invalid(&check("{\"id\":\"1\",\"kind\":{}}"), "kind", "string"));
    assert!(missing(&check("{\"id\":\"1\",\"kind\":\"k\"}"), "params"));
    assert!(invalid(&check("{\"id\":\"1\",\"kind\":\"k\",\"params\":[]}"), "params", "object"));
    assert!(invalid(&check("{\"id\":\"1\",\"kind\":\"k\",\"params\":\"p\"}"), "params", "object"));
    assert!(missing(&check("[1, 2]"), "id"));
    assert!(missing(&check("\"id\""), "id"));
}

#[test]
fn response_errors() {
    let check = |text: &str| {
        let json = Json::from_str(text).unwrap();
        ResponseTemplate::new(&json).map(|_| ()).unwrap_err()
    };
    assert!(missing(&check("{}"), "result/error"));
    assert!(missing(&check("{\"id\":\"1\",\"kind\":\"k\",\"result\":3}"), "result/error"));
    assert!(missing(&check("{\"result\":{}}"), "id"));
    assert!(invalid(&check("{\"id\":1,\"result\":{}}"), "id", "string"));
    assert!(missing(&check("{\"id\":\"1\",\"error\":{}}"), "kind"));
    assert!(invalid(&check("{\"id\":\"1\",\"kind\":2,\"error\":{}}"), "kind", "string"));
    assert!(invalid(
        &check("{\"id\":\"1\",\"kind\":\"k\",\"result\":{},\"error\":5}"),
        "error",
        "object"
    ));
    assert!(invalid(
        &check("{\"id\":\"1\",\"kind\":\"k\",\"result\":null,\"error\":{}}"),
        "result",
        "object"
    ));
}

#[test]
fn response_takes_exactly_one_of_result_and_error() {
    let both = Json::from_str("{\"id\":\"1\",\"kind\":\"k\",\"result\":{},\"error\":{}}").unwrap();
    let e = ResponseTemplate::new(&both).map(|_| ()).unwrap_err();
    assert!(missing(&e, "result/error"));
    let result = Json::from_str("{\"id\":\"1\",\"kind\":\"k\",\"result\":{\"x\":1}}").unwrap();
    let t = ResponseTemplate::new(&result).unwrap();
    assert!(t.error.is_none());
    assert_eq!(t.result.unwrap().len(), 1);
    assert_eq!(t.id, "1");
    assert_eq!(t.kind, "k");
    let error = Json::from_str("{\"id\":\"1\",\"kind\":\"k\",\"error\":{}}").unwrap();
    let t = ResponseTemplate::new(&error).unwrap();
    assert!(t.result.is_none());
    assert!(t.error.is_some());
}

#[test]
fn notification_errors() {
    let check = |text: &str| {
        let json = Json::from_str(text).unwrap();
        NotificationTemplate::new(&json).map(|_| ()).unwrap_err()
    };
    assert!(missing(&check("{}"), "id"));
    assert!(invalid(&check("{\"id\":\"1\",\"kind\":\"k\",\"params\":{}}"), "id", "null"));
    assert!(invalid(&check("{\"id\":{}}"), "id", "null"));
    assert!(missing(&check("{\"id\":null}"), "kind"));
    assert!(invalid(&check("{\"id\":null,\"kind\":null}"), "kind", "string"));
    assert!(missing(&check("{\"id\":null,\"kind\":\"k\"}"), "params"));
    assert!(invalid(&check("{\"id\":null,\"kind\":\"k\",\"params\":1}"), "params", "object"));
}

#[test]
fn notification_holds_kind_and_params() {
    let json = Json::from_str("{\"id\":null,\"kind\":\"café/thé\",\"params\":{\"x\":{}}}").unwrap();
    let t = NotificationTemplate::new(&json).unwrap();
    assert_eq!(t.kind, "café/thé");
    assert!(t.params.contains_key("x"));
}

#[test]
fn field_checks_on_plain_values() {
    let object = Object::new();
    assert_eq!(json_string(Some(Field::String("s")), "id").unwrap(), "s");
    assert!(missing(&json_string(None, "id").unwrap_err(), "id"));
    assert!(invalid(&json_string(Some(Field::Null), "id").unwrap_err(), "id", "string"));
    assert!(invalid(&json_string(Some(Field::Object(&object)), "id").unwrap_err(), "id", "string"));
    assert!(json_object(Some(Field::Object(&object)), "params").is_ok());
    assert!(missing(&json_object(None, "params").unwrap_err(), "params"));
    assert!(invalid(&json_object(Some(Field::Other), "params").unwrap_err(), "params", "object"));
    assert!(json_opt_object(None, "error").unwrap().is_none());
    assert!(json_opt_object(Some(Field::Object(&object)), "error").unwrap().is_some());
    assert!(invalid(
        &json_opt_object(Some(Field::String("e")), "error").unwrap_err(),
        "error",
        "object"
    ));
}

#[test]
fn templates_from_plain_fields() {
    let object = Object::new();
    let o = Some(Field::Object(&object));
    let t = RequestTemplate::from_fields(Some(Field::String("1")), Some(Field::String("k")), o)
        .unwrap();
    assert_eq!((t.id, t.kind), ("1", "k"));
    assert!(missing(
        &RequestTemplate::from_fields(None, None, None).map(|_| ()).unwrap_err(),
        "id"
    ));
    let r =
        ResponseTemplate::from_fields(Some(Field::String("1")), Some(Field::String("k")), None, o)
            .unwrap();
    assert!(r.error.is_some() && r.result.is_none());
    assert!(missing(
        &ResponseTemplate::from_fields(Some(Field::String("1")), Some(Field::String("k")), o, o)
            .map(|_| ())
            .unwrap_err(),
        "result/error"
    ));
    let n = NotificationTemplate::from_fields(Some(Field::Null), Some(Field::String("k")), o)
        .unwrap();
    assert_eq!(n.kind, "k");
    assert!(invalid(
        &NotificationTemplate::from_fields(Some(Field::Other), Some(Field::String("k")), o)
            .map(|_| ())
            .unwrap_err(),
        "id",
        "null"
    ));
}

#[test]
fn is_field_object() {
    let json = Json::from_str("{\"a\":{},\"b\":[],\"c\":null,\"d\":\"{}\"}").unwrap();
    assert!(json_is_field_object(&json, "a"));
    assert!(!json_is_field_object(&json, "b"));
    assert!(!json_is_field_object(&json, "c"));
    assert!(!json_is_field_object(&json, "d"));
    assert!(!json_is_field_object(&json, "e"));
    assert!(!json_is_field_object(&Json::Null, "a"));
}

#[test]
fn forms_are_told_by_id_result_and_error() {
    let object = Object::new();
    let o = Some(Field::Object(&object));
    assert_eq!(classify(Some(Field::Null), None, None), Form::Notification);
    assert_eq!(classify(Some(Field::Null), o, None), Form::Notification);
    assert_eq!(classify(Some(Field::String("1")), o, None), Form::Response);
    assert_eq!(classify(Some(Field::String("1")), None, Some(Field::Other)), Form::Response);
    assert_eq!(classify(None, None, o), Form::Response);
    assert_eq!(classify(Some(Field::String("1")), None, None), Form::Request);
    assert_eq!(classify(None, None, None), Form::Request);
    assert_eq!(classify(Some(Field::Other), None, None), Form::Request);
}

#[test]
fn parse_reads_the_three_forms() {
    let n = parse("{\"id\":null,\"kind\":\"irc/in\",\"params\":{}}").unwrap();
    assert_eq!(n.form(), Form::Notification);
    assert_eq!(n.id(), None);
    assert_eq!(n.kind(), "irc/in");
    let q = parse("{\"id\":\"17\",\"kind\":\"irc/out\",\"params\":{\"to\":\"#x\"}}").unwrap();
    assert_eq!(q.form(), Form::Request);
    assert_eq!(q.id(), Some("17"));
    assert_eq!(q.kind(), "irc/out");
    assert!(q.document().find("params").unwrap().find("to").is_some());
    let r = parse("{\"id\":\"17\",\"kind\":\"irc/out\",\"result\":{}}\n").unwrap();
    assert_eq!(r.form(), Form::Response);
    assert_eq!(r.id(), Some("17"));
    assert_eq!(r.kind(), "irc/out");
}

#[test]
fn parse_errors_can_be_told_apart() {
    assert!(matches!(parse("{\"id\":"), Err(TemplateError::JsonError(_))));
    assert!(matches!(parse(""), Err(TemplateError::JsonError(_))));
    assert!(matches!(parse("{} {}"), Err(TemplateError::JsonError(_))));
    assert!(missing(&parse("{}").unwrap_err(), "id"));
    assert!(missing(&parse("{\"id\":null}").unwrap_err(), "kind"));
    assert!(missing(&parse("{\"id\":\"1\",\"kind\":\"k\",\"result\":1}").unwrap_err(), "result/error"));
    assert!(invalid(&parse("{\"id\":1,\"kind\":\"k\",\"params\":{}}").unwrap_err(), "id", "string"));
    assert!(missing(&parse("[]").unwrap_err(), "id"));
}

#[test]
fn envelope_from_a_json_value() {
    let json = Json::from_str("{\"id\":\"a\",\"kind\":\"k\",\"error\":{\"code\":1}}").unwrap();
    let e = Envelope::new(json.clone()).unwrap();
    assert_eq!(e.form(), Form::Response);
    assert_eq!(e.document(), &json);
}

#[test]
fn messages_of_template_errors() {
    assert_eq!(
        TemplateError::MissingField("id").message(),
        "Field id is required but missing."
    );
    assert_eq!(
        TemplateError::InvalidType("params", "object").message(),
        "Field params should be a/an object."
    );
    let e = parse("{").unwrap_err();
    assert!(matches!(e, TemplateError::JsonError(_)));
    assert_eq!(e.message(), "SyntaxError(\"EOF While parsing object\", 1, 2)");
}

#[test]
fn lines_within_the_limits() {
    assert!(within_limits(""));
    assert!(within_limits("{\"id\":null,\"kind\":\"irc/in\",\"params\":{}}"));
    assert!(within_limits("1e999999999"));
    assert!(within_limits("1.5E+123456789"));
    assert!(within_limits("12345678901234567890123"));
    assert!(within_limits(&"[".repeat(128)));
    assert!(within_limits(&format!("{}{}", "[".repeat(128), "]".repeat(128))));
    assert!(within_limits(&"[]".repeat(1000)));
    assert!(within_limits(&format!("\"{}\"", "[{".repeat(500))));
    assert!(within_limits("\"5e1234567890123\""));
    assert!(within_limits("\"a\\\"[[e1234567890\""));
    assert!(within_limits(&"a".repeat(1_000_000)));
    assert!(within_limits(&format!("{{\"k\":\"{}\"}}", "é".repeat(500_000))));
    assert!(within_limits(&format!("{{\"{}\":1}}", "a".repeat(65535))));
    assert!(within_limits(&format!("{{\"{}\" \t:1}}", "é".repeat(32767))));
    assert!(within_limits(&format!("[\"{}\",\"{}\"]", "a".repeat(65536), "b".repeat(65536))));
    assert!(within_limits(&format!(
        "{{\"{}\":1,\"{}\":2}}",
        "a".repeat(60000),
        "b".repeat(65535)
    )));
    assert!(within_limits(&format!(
        "{{\"{}\":{{\"{}\":2}}}}",
        "a".repeat(30000),
        "b".repeat(35535)
    )));
    assert!(within_limits(&format!(
        "[{{\"{}\":[{{\"{}\":2}}]}},{{\"{}\":3}}]",
        "a".repeat(30000),
        "b".repeat(35535),
        "c".repeat(65535)
    )));
}

#[test]
fn lines_beyond_the_limits() {
    assert!(!within_limits(&format!("{{\"{}\":1}}", "a".repeat(65536))));
    assert!(!within_limits(&format!("{{\"{}\"\n:1}}", "é".repeat(32768))));
    assert!(!within_limits(&format!(
        "{{\"{}\":{{\"{}\":2}}}}",
        "a".repeat(30000),
        "b".repeat(35536)
    )));
    assert!(!within_limits(&format!(
        "{{\"{}\":[[{{\"k\":{{\"{}\":2}}}}]]}}",
        "a".repeat(30000),
        "b".repeat(35535)
    )));
    assert!(!within_limits(&format!("{{\"a\":{{\"{}\":1}}}}", "\\n".repeat(32768))));
    assert!(!within_limits(&"[".repeat(129)));
    assert!(!within_limits(&"{\"a\":".repeat(129)));
    assert!(!within_limits(&format!("{}{}", "[".repeat(129), "]".repeat(129))));
    assert!(!within_limits("1e1234567890"));
    assert!(!within_limits("1E-0000000000"));
    assert!(!within_limits("{\"n\":2.5e+9999999999}"));
    assert!(!within_limits("\"closed\" 1e1234567890"));
    assert!(!within_limits("\"a\\\\\"[1e1234567890"));
}

#[test]
fn comma_before_a_closing_brace_is_beyond_the_limits() {
    assert!(!within_limits("{\"a\":1,}"));
    assert!(!within_limits("[{\"x\":{\"a\":1,},5]"));
    assert!(!within_limits("{\"a\":1 , \t\r\n }"));
    assert!(!within_limits(",}"));
    assert!(within_limits("{\"a\":\",}\"}"));
    assert!(within_limits("{\"a\":[1,2],\"b\":{}}"));
    assert!(within_limits("[1,]"));
    assert!(within_limits("{\"a\":1,x}"));
    assert!(within_limits("{\"a\":1,\u{a0}}"));
    assert!(try_parse("[{\"x\":{\"a\":1,},5]").is_none());
    assert!(try_parse("{\"id\":null,\"kind\":\"k\",\"params\":{\"a\":{\"b\":1,},\"c\":2}}").is_none());
}

struct Lcg(u64);

impl Lcg {
    fn below(&mut self, n: usize) -> usize {
        self.0 = self.0.wrapping_mul(6364136223846793005).wrapping_add(1442695040888963407);
        ((self.0 >> 33) % n as u64) as usize
    }
}

const TOKENS: &[&str] = &[
    "[", "]", "{", "}", ",", ":", "\"", "\\", "e", "E", "+", "-", ".", "0", "1", "9", "a", "u",
    "null", "true", "false", "\"k\"", "\"k\":", " ", "\n", "\t", "\\u00e9", "\\ud83d",
    "\\ude00", "é", "1e5", "{\"a\":", "[1,", "\\\"", "n", "t", "f", "00", "-0", "1.5",
    "\u{7f}", "\u{1}", ",}", ", }", ",]", "{}", "[]", "\"\"",
];

fn random_value(rng: &mut Lcg, depth: usize, out: &mut String) {
    let pick = if depth == 0 { rng.below(5) } else { rng.below(8) };
    match pick {
        0 => out.push_str("null"),
        1 => out.push_str("true"),
        2 => out.push_str(
            ["0", "-1", "12", "1.5", "2e3", "1E-2", "18446744073709551615"][rng.below(7)],
        ),
        3 => out.push_str(
            ["\"\"", "\"a\"", "\"\\n\"", "\"\\u00e9\"", "\"x,}\"", "\"\\\"\""][rng.below(6)],
        ),
        4 => out.push_str("false"),
        5 | 6 => {
            out.push('{');
            for i in 0..rng.below(4) {
                if i > 0 {
                    out.push(',');
                }
                out.push_str(["\"a\"", "\"b\"", "\"id\"", "\"kind\""][rng.below(4)]);
                out.push(':');
                random_value(rng, depth - 1, out);
            }
            out.push('}');
        }
        _ => {
            out.push('[');
            for i in 0..rng.below(4) {
                if i > 0 {
                    out.push(',');
                }
                random_value(rng, depth - 1, out);
            }
            out.push(']');
        }
    }
}

fn random_edit(rng: &mut Lcg, s: &str) -> String {
    let chars: Vec<char> = s.chars().collect();
    let at = rng.below(chars.len() + 1);
    let mut t = String::new();
    for (i, c) in chars.iter().enumerate() {
        if i == at {
            match rng.below(3) {
                0 => {}
                1 => {
                    t.push_str(TOKENS[rng.below(TOKENS.len())]);
                    t.push(*c);
                }
                _ => t.push_str(TOKENS[rng.below(TOKENS.len())]),
            }
        } else {
            t.push(*c);
        }
    }
    if at == chars.len() {
        t.push_str(TOKENS[rng.below(TOKENS.len())]);
    }
    t
}

#[test]
fn every_line_gets_an_answer() {
    let mut rng = Lcg(987654321);
    let mut refused = 0u32;
    let mut answered = 0u32;
    for _ in 0..200000 {
        let mut s = String::new();
        random_value(&mut rng, 4, &mut s);
        for _ in 0..rng.below(4) {
            s = random_edit(&mut rng, &s);
        }
        match try_parse(&s) {
            None => {
                assert!(!within_limits(&s));
                refused += 1;
            }
            Some(_) => {
                assert!(within_limits(&s));
                answered += 1;
            }
        }
    }
    assert!(refused > 0);
    assert!(answered > 0);
}

#[test]
fn soup_of_tokens_gets_an_answer() {
    let mut rng = Lcg(12345);
    for _ in 0..200000 {
        let mut s = String::new();
        for _ in 0..1 + rng.below(14) {
            s.push_str(TOKENS[rng.below(TOKENS.len())]);
        }
        assert_eq!(try_parse(&s).is_some(), within_limits(&s));
    }
}

#[test]
fn long_payloads_are_parsed() {
    let long = format!(
        "{{\"id\":null,\"kind\":\"k\",\"params\":{{\"s\":\"{}\"}}}}",
        "x".repeat(1_000_000)
    );
    let envelope = try_parse(&long).unwrap().unwrap();
    assert_eq!(envelope.kind(), "k");
    let key = "y".repeat(65535 - "idkindparams".len());
    let at_the_limit =
        format!("{{\"id\":null,\"kind\":\"k\",\"params\":{{\"{}\":[1,2]}}}}", key);
    let envelope = try_parse(&at_the_limit).unwrap().unwrap();
    let params = envelope.document().find("params").unwrap();
    assert!(params.find(&key).is_some());
    let exact = "w".repeat(65535 - "params".len() - "in".len());
    let nested_at_the_limit = format!(
        "{{\"id\":null,\"kind\":\"k\",\"params\":{{\"{}\":{{\"in\":[{{}}]}}}}}}",
        exact
    );
    let envelope = try_parse(&nested_at_the_limit).unwrap().unwrap();
    let inner = envelope.document().find("params").unwrap().find(&exact).unwrap();
    assert!(inner.find("in").is_some());
    let one_over = format!(
        "{{\"id\":null,\"kind\":\"k\",\"params\":{{\"{}w\":{{\"in\":[{{}}]}}}}}}",
        exact
    );
    assert!(try_parse(&one_over).is_none());
    let many: Vec<String> = (0..20000).map(|i| format!("\"k{}\":{}", i, i)).collect();
    let wide = format!("{{\"id\":null,\"kind\":\"k\",\"params\":{{{}}}}}", many.join(","));
    let envelope = try_parse(&wide).unwrap().unwrap();
    assert!(envelope.document().find("params").unwrap().find("k19999").is_some());
    let siblings = format!(
        "{{\"id\":null,\"kind\":\"k\",\"params\":{{\"{}\":{{}},\"{}\":{{\"c\":[]}}}}}}",
        "a".repeat(40000),
        "b".repeat(30000)
    );
    assert_eq!(try_parse(&siblings).unwrap().unwrap().kind(), "k");
    let nested = format!(
        "{{\"id\":null,\"kind\":\"k\",\"params\":{{\"{}\":{{\"{}\":1}}}}}}",
        "a".repeat(40000),
        "b".repeat(30000)
    );
    assert!(try_parse(&nested).is_none());
    let items: Vec<String> = (0..200000).map(|i| i.to_string()).collect();
    let list = format!("{{\"id\":null,\"kind\":\"k\",\"params\":{{\"l\":[{}]}}}}", items.join(","));
    assert_eq!(try_parse(&list).unwrap().unwrap().kind(), "k");
}

#[test]
fn try_parse_refuses_what_is_beyond_the_limits() {
    assert!(try_parse(&"[".repeat(5000)).is_none());
    assert!(try_parse("{\"id\":null,\"kind\":\"k\",\"params\":{\"n\":1e1234567890}}").is_none());
    let long_key =
        format!("{{\"id\":null,\"kind\":\"k\",\"params\":{{\"{}\":1}}}}", "x".repeat(70000));
    assert!(try_parse(&long_key).is_none());
    let r = try_parse("{\"id\":null,\"kind\":\"k\",\"params\":{\"n\":1e12}}");
    assert_eq!(r.unwrap().unwrap().kind(), "k");
    assert!(matches!(try_parse("nonsense"), Some(Err(TemplateError::JsonError(_)))));
    let deep = format!(
        "{{\"id\":null,\"kind\":\"k\",\"params\":{{\"a\":{}{}}}}}",
        "[".repeat(126),
        "]".repeat(126)
    );
    assert_eq!(try_parse(&deep).unwrap().unwrap().form(), Form::Notification);
}

#[test]
fn parser_error_converts_to_template_error() {
    let err = Json::from_str("[").unwrap_err();
    assert!(matches!(TemplateError::from(err), TemplateError::JsonError(_)));
}
